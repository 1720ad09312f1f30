use clang::completion::{self, CompletionContext, Completer};
use clang::{Parser, ThreadOptions, Unsaved};

#[test]
fn thread_options_flags() {
    let options = ThreadOptions::from(3);
    assert!(options.editing && options.indexing);
    assert_eq!(ThreadOptions::from(2), ThreadOptions { editing: true, indexing: false });
    assert_eq!(i32::from(ThreadOptions { editing: false, indexing: true }), 1);
    assert_eq!(i32::from(ThreadOptions::from(7)), 3);
    assert_eq!(ThreadOptions::default(), ThreadOptions { editing: false, indexing: false });
}

#[test]
fn completion_contexts() {
    assert_eq!(completion::get_context(0), None);
    assert_eq!(completion::get_context(8388607), None);
    let context = completion::get_context(1 | 32 | 1048576).unwrap();
    assert!(context.all_types && context.dot_members && context.macro_names);
    assert!(!context.all_values && !context.arrow_members);
    assert_eq!(i32::from(context), 1 | 32 | 1048576);
    assert_eq!(i32::from(CompletionContext::from(-1)), 4194303);
}

#[test]
fn completion_context_round_trip() {
    let mut context = CompletionContext::from(0);
    context.objc_selector_names = true;
    context.natural_language = true;
    context.class_type_values = true;
    let flags = i32::from(context);
    assert_eq!(flags, 524288 | 2097152 | 16);
    assert_eq!(CompletionContext::from(flags), context);
}

#[test]
fn parser_options() {
    let mut parser = Parser::new(5u8, "test.c".to_string());
    assert_eq!(parser.get_flags(), 0);
    parser.detailed_preprocessing_record(true).skip_function_bodies(true).keep_going(true);
    assert_eq!(parser.get_flags(), 1 | 64 | 512);
    parser.skip_function_bodies(false).retain_excluded_conditional_blocks(true);
    assert_eq!(parser.get_flags(), 1 | 512 | 32768);
    parser.incomplete(true).cache_completion_results(true).briefs_in_completion_results(true);
    assert_eq!(parser.get_flags(), 1 | 2 | 8 | 128 | 512 | 32768);
    parser.arguments(vec!["-x".to_string(), "c++".to_string()]);
    parser.unsaved(vec![Unsaved::new("test.c", "int a;")]);
    assert_eq!(parser.get_arguments(), &vec!["-x".to_string(), "c++".to_string()]);
    assert_eq!(parser.get_unsaved().len(), 1);
    assert_eq!(parser.get_unsaved()[0].get_contents(), "int a;");
    assert_eq!(parser.get_unsaved()[0].get_path(), "test.c");
    assert_eq!(*parser.get_index(), 5);
    assert_eq!(parser.get_file(), "test.c");
}

#[test]
fn completer_options() {
    let mut completer = Completer::new((), "test.c".to_string(), 3, 7, 4);
    assert_eq!(completer.get_flags(), 4);
    completer.macros(true).code_patterns(true).briefs(false);
    assert_eq!(completer.get_flags(), 3);
    assert_eq!(completer.get_line(), 3);
    assert_eq!(completer.get_column(), 7);
    assert_eq!(completer.get_file(), "test.c");
    completer.unsaved(vec![Unsaved::new("a.h", "")]);
    assert_eq!(completer.get_unsaved().len(), 1);
}
