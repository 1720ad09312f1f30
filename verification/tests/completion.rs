use std::cmp::Ordering;

use clang::completion::{self, CompletionChunk};
use clang::EntityKind;

type Chunk = CompletionChunk<u32>;

#[test]
fn chunk_texts() {
    assert_eq!(Chunk::Colon.get_text(), Some(":".to_string()));
    assert_eq!(Chunk::RightSquareBracket.get_text(), Some("]".to_string()));
    assert_eq!(Chunk::LeftParenthesis.get_text(), Some("(".to_string()));
    assert_eq!(Chunk::Placeholder("int a".to_string()).get_text(), Some("int a".to_string()));
    assert_eq!(Chunk::Optional(3).get_text(), None);
    assert!(Chunk::Optional(3).is_optional());
    assert!(!Chunk::Text("a".to_string()).is_optional());
}

#[test]
fn chunks_from_raw() {
    let text = || "b".to_string();
    assert_eq!(Chunk::from_raw(16, text(), None), Chunk::Colon);
    assert_eq!(Chunk::from_raw(18, text(), None), Chunk::Equals);
    assert_eq!(Chunk::from_raw(1, text(), None), Chunk::TypedText("b".to_string()));
    assert_eq!(Chunk::from_raw(3, text(), None), Chunk::Placeholder("b".to_string()));
    assert_eq!(Chunk::from_raw(15, text(), None), Chunk::ResultType("b".to_string()));
    assert_eq!(Chunk::from_raw(20, text(), None), Chunk::VerticalSpace("b".to_string()));
    assert_eq!(Chunk::from_raw(0, text(), Some(9)), Chunk::Optional(9));
}

#[test]
fn typed_text_is_the_first_typed_chunk() {
    let chunks = vec![
        Chunk::ResultType("int".to_string()),
        Chunk::TypedText("foo".to_string()),
        Chunk::LeftParenthesis,
        Chunk::TypedText("bar".to_string()),
    ];
    assert_eq!(completion::get_typed_text(&chunks), Some("foo".to_string()));
    assert_eq!(completion::get_typed_text(&vec![Chunk::Comma, Chunk::Optional(1)]), None);
    assert_eq!(completion::get_typed_text::<u32>(&vec![]), None);
}

#[test]
fn completion_order_by_priority_then_text() {
    let a = Some("apple".to_string());
    let b = Some("banana".to_string());
    assert_eq!(completion::order(1, &b, 2, &a), Ordering::Less);
    assert_eq!(completion::order(3, &a, 2, &b), Ordering::Greater);
    assert_eq!(completion::order(2, &a, 2, &b), Ordering::Less);
    assert_eq!(completion::order(2, &b, 2, &a), Ordering::Greater);
    assert_eq!(completion::order(2, &a, 2, &a), Ordering::Equal);
    assert_eq!(completion::order(2, &None, 2, &a), Ordering::Less);
    assert_eq!(completion::order(2, &a, 2, &None), Ordering::Greater);
    assert_eq!(completion::order(2, &None, 2, &None), Ordering::Equal);
    let ab = Some("ab".to_string());
    let abc = Some("abc".to_string());
    assert_eq!(completion::order(0, &ab, 0, &abc), Ordering::Less);
    assert_eq!(completion::order(0, &abc, 0, &ab), Ordering::Greater);
    let upper = Some("Z".to_string());
    let lower = Some("a".to_string());
    assert_eq!(completion::order(0, &upper, 0, &lower), "Z".cmp("a"));
    let wide = Some("é".to_string());
    assert_eq!(completion::order(0, &wide, 0, &lower), "é".cmp("a"));
}

#[test]
fn container_kinds() {
    assert_eq!(completion::get_container_kind(73, 1), None);
    assert_eq!(completion::get_container_kind(4, 1), Some((EntityKind::ClassDecl, true)));
    assert_eq!(completion::get_container_kind(2, 0), Some((EntityKind::StructDecl, false)));
    assert_eq!(completion::get_container_kind(9999, 0), None);
    assert_eq!(
        completion::get_container_kind(283, 0),
        Some((EntityKind::OmpMasterTaskLoopSimdDirective, false))
    );
}
