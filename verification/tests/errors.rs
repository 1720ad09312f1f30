use clang::{AlignofError, OffsetofError, SaveError, SizeofError, SourceError};

#[test]
fn alignof_errors() {
    assert_eq!(AlignofError::from_error(-3), Err(AlignofError::Dependent));
    assert_eq!(AlignofError::from_error(-2), Err(AlignofError::Incomplete));
    assert_eq!(AlignofError::from_error(-1), Err(AlignofError::Invalid));
    assert_eq!(AlignofError::from_error(-6), Err(AlignofError::Undeduced));
    assert_eq!(AlignofError::Invalid.to_string(), "the type is invalid");
    assert_eq!(AlignofError::from_error(8), Ok(()));
    assert_eq!(AlignofError::Dependent.to_string(), "the type is a dependent type");
    assert_eq!(String::from(AlignofError::Incomplete), "the type is an incomplete type");
}

#[test]
fn offsetof_errors() {
    assert_eq!(OffsetofError::from_error(-1), Err(OffsetofError::Parent));
    assert_eq!(OffsetofError::from_error(-5), Err(OffsetofError::Name));
    assert_eq!(OffsetofError::from_error(-6), Err(OffsetofError::Undeduced));
    assert_eq!(OffsetofError::from_error(-4), Err(OffsetofError::Parent));
    assert_eq!(OffsetofError::from_error(0), Ok(()));
    assert_eq!(
        OffsetofError::Name.to_string(),
        "the record type does not contain a field with the supplied name"
    );
}

#[test]
fn save_errors() {
    assert_eq!(SaveError::from_error(3), Err(SaveError::Errors));
    assert_eq!(SaveError::from_error(1), Err(SaveError::Unknown));
    assert_eq!(SaveError::from_error(0), Ok(()));
    assert_eq!(SaveError::from_error(2), Err(SaveError::Errors));
    assert_eq!(SaveError::from_error(7), Err(SaveError::Unknown));
    assert_eq!(SaveError::Errors.to_string(), "errors in the translation unit prevented saving");
}

#[test]
fn sizeof_errors() {
    assert_eq!(SizeofError::from_error(-4), Err(SizeofError::VariableSize));
    assert_eq!(SizeofError::from_error(-5), Err(SizeofError::InvalidFieldName));
    assert_eq!(SizeofError::from_error(-1), Err(SizeofError::Invalid));
    assert_eq!(SizeofError::from_error(-6), Err(SizeofError::Undeduced));
    assert_eq!(SizeofError::from_error(-9), Err(SizeofError::Invalid));
    assert_eq!(SizeofError::from_error(4), Ok(()));
    assert_eq!(SizeofError::Undeduced.to_string(), "the type is undeduced");
    assert_eq!(String::from(SizeofError::InvalidFieldName), "invalid field name");
}

#[test]
fn source_errors() {
    assert_eq!(SourceError::from_error(0), Ok(()));
    assert_eq!(SourceError::from_error(1), Err(SourceError::Unknown));
    assert_eq!(SourceError::from_error(2), Err(SourceError::Crash));
    assert_eq!(SourceError::from_error(3), Err(SourceError::Unknown));
    assert_eq!(SourceError::from_error(-1), Err(SourceError::Unknown));
    assert_eq!(SourceError::from_error(4), Err(SourceError::AstDeserialization));
    assert_eq!(SourceError::Crash.to_string(), "`libclang` crashed");
    assert_eq!(SourceError::AstDeserialization.to_string(), "AST deserialization failed");
}
