use clang::types;
use clang::{AlignofError, OffsetofError, SizeofError};

#[test]
fn type_categories() {
    // `bool` (3), `unsigned __int128` (12), `char` (13), `__int128` (20), `float` (21)
    assert!(types::is_integer(3));
    assert!(types::is_integer(20));
    assert!(!types::is_integer(21));
    assert!(!types::is_integer(2));
    assert!(types::is_unsigned_integer(12));
    assert!(!types::is_unsigned_integer(13));
    assert!(types::is_signed_integer(13));
    assert!(types::is_signed_integer(17));
    assert!(!types::is_signed_integer(12));
    assert!(types::is_valid_kind(17));
    assert!(!types::is_valid_kind(0));
}

#[test]
fn elaborated_types() {
    assert_eq!(types::is_elaborated(119), Some(true));
    assert_eq!(types::is_elaborated(105), Some(false));
}

#[test]
fn layout_queries() {
    assert_eq!(types::get_sizeof(4), Ok(4));
    assert_eq!(types::get_sizeof(-2), Err(SizeofError::Incomplete));
    assert_eq!(types::get_sizeof(-1), Err(SizeofError::Invalid));
    assert_eq!(types::get_sizeof(-6), Err(SizeofError::Undeduced));
    assert_eq!(types::get_alignof(-1), Err(AlignofError::Invalid));
    assert_eq!(types::get_offsetof(-4), Err(OffsetofError::Parent));
    assert_eq!(types::get_alignof(8), Ok(8));
    assert_eq!(types::get_alignof(-3), Err(AlignofError::Dependent));
    assert_eq!(types::get_offsetof(64), Ok(64));
    assert_eq!(types::get_offsetof(-5), Err(OffsetofError::Name));
    assert_eq!(types::get_size(3), Some(3));
    assert_eq!(types::get_size(-1), None);
}
