use clang::{translation, MemoryUsage, Unsaved};

#[test]
fn memory_usage_keeps_recognised_categories() {
    let entries = vec![(1, 100u64), (0, 5), (14, 7), (15, 9), (3, 0)];
    assert_eq!(
        translation::get_memory_usage(&entries),
        vec![
            (MemoryUsage::Ast, 100),
            (MemoryUsage::PreprocessorHeaderSearch, 7),
            (MemoryUsage::Selectors, 0),
        ]
    );
    assert!(translation::get_memory_usage(&vec![]).is_empty());
}

#[test]
fn unsaved_files() {
    let unsaved = Unsaved::new("/tmp/a.c", "int a = 322;");
    assert_eq!(unsaved.get_path(), "/tmp/a.c");
    assert_eq!(unsaved.get_contents(), "int a = 322;");
    assert_eq!(unsaved.clone(), unsaved);
}
