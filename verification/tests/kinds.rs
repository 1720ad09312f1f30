use clang::ffi::{CXCursorKind, CXTypeLayoutError};
use clang::{
    Accessibility, Availability, CallingConvention, EntityKind, EntityVisitResult, Language, Linkage,
    MemoryUsage, Nullability, PrintingPolicyFlag, RefQualifier, StorageClass, TlsKind, TypeKind,
    Visibility,
};

#[test]
fn entity_kind_round_trips() {
    assert_eq!(EntityKind::from_raw(2), Some(EntityKind::StructDecl));
    assert_eq!(EntityKind::StructDecl.to_raw(), 2);
    assert_eq!(EntityKind::from_raw(501), Some(EntityKind::MacroDefinition));
    assert_eq!(EntityKind::from_raw(700), Some(EntityKind::OverloadCandidate));
    assert_eq!(EntityKind::from_raw(EntityKind::TranslationUnit.to_raw()), Some(EntityKind::TranslationUnit));
    assert_eq!(EntityKind::SehLeaveStmt.to_raw(), 247);
    assert_eq!(EntityKind::from_raw(247), Some(EntityKind::SehLeaveStmt));
}

#[test]
fn entity_kind_rejects_unknown_values() {
    assert_eq!(EntityKind::from_raw(0), None);
    assert_eq!(EntityKind::from_raw(51), None);
    assert_eq!(EntityKind::from_raw(74), None);
    assert_eq!(EntityKind::from_raw(301), None);
    assert_eq!(EntityKind::from_raw(-1), None);
    assert_eq!(EntityKind::from_raw(286), None);
    assert_eq!(EntityKind::OmpParallelMasterDirective.to_raw(), 285);
    assert_eq!(EntityKind::from_raw(285), Some(EntityKind::OmpParallelMasterDirective));
    assert_eq!(EntityKind::from_raw(281), Some(EntityKind::OmpMasterTaskLoopDirective));
}

#[test]
fn entity_kind_infallible_and_validity() {
    assert_eq!(EntityKind::from_raw_infallible(8), EntityKind::FunctionDecl);
    assert_eq!(EntityKind::from_raw_infallible(9999), EntityKind::NotImplemented);
    assert!(EntityKind::FunctionDecl.is_valid());
    assert!(!EntityKind::InvalidFile.is_valid());
    assert!(!EntityKind::InvalidCode.is_valid());
    assert!(!EntityKind::NotImplemented.is_valid());
    assert!(EntityKind::VariableRef.is_valid());
    assert!(EntityKind::UnexposedExpr.is_valid());
}

#[test]
fn type_kind_round_trips() {
    assert_eq!(TypeKind::from_raw(17), Some(TypeKind::Int));
    assert_eq!(TypeKind::Int.to_raw(), 17);
    assert_eq!(TypeKind::from_raw(119), Some(TypeKind::Elaborated));
    assert_eq!(TypeKind::from_raw(0), None);
    assert_eq!(TypeKind::from_raw(39), None);
    assert_eq!(TypeKind::Complex.to_raw(), 100);
    assert_eq!(TypeKind::from_raw(100), Some(TypeKind::Complex));
    assert_eq!(TypeKind::from_raw(176), Some(TypeKind::ExtVector));
    assert_eq!(TypeKind::from_raw(99), None);
    assert_eq!(TypeKind::from_raw(177), None);
    assert_eq!(TypeKind::from_raw_infallible(100), TypeKind::Complex);
    assert_eq!(TypeKind::from_raw_infallible(99), TypeKind::Unexposed);
    assert_eq!(TypeKind::from_raw_infallible(101), TypeKind::Pointer);
}

#[test]
fn small_kinds_round_trip() {
    assert_eq!(Accessibility::from_raw(1), Some(Accessibility::Public));
    assert_eq!(Accessibility::from_raw(3), Some(Accessibility::Private));
    assert_eq!(Accessibility::from_raw(0), None);
    assert_eq!(Availability::from_raw(2), Some(Availability::Unavailable));
    assert_eq!(Availability::from_raw(4), None);
    assert_eq!(CallingConvention::from_raw(200), Some(CallingConvention::Unexposed));
    assert_eq!(CallingConvention::from_raw(100), None);
    assert_eq!(CallingConvention::from_raw(13), Some(CallingConvention::Swift));
    assert_eq!(Language::from_raw(3), Some(Language::Cpp));
    assert_eq!(Language::from_raw(0), None);
    assert_eq!(Linkage::from_raw(4), Some(Linkage::External));
    assert_eq!(Linkage::from_raw(3), Some(Linkage::UniqueExternal));
    assert_eq!(MemoryUsage::from_raw(14), Some(MemoryUsage::PreprocessorHeaderSearch));
    assert_eq!(MemoryUsage::from_raw(15), None);
    assert_eq!(Nullability::from_raw(0), Some(Nullability::NonNull));
    assert_eq!(Nullability::from_raw(3), None);
    assert_eq!(RefQualifier::from_raw(2), Some(RefQualifier::RValue));
    assert_eq!(RefQualifier::from_raw(0), None);
    assert_eq!(StorageClass::from_raw(1), Some(StorageClass::Unspecified));
    assert_eq!(StorageClass::from_raw(7), Some(StorageClass::Register));
    assert_eq!(StorageClass::from_raw(0), None);
    assert_eq!(TlsKind::from_raw(1), Some(TlsKind::Dynamic));
    assert_eq!(Visibility::from_raw(3), Some(Visibility::Default));
    assert_eq!(Visibility::from_raw(0), None);
    assert_eq!(EntityVisitResult::Recurse.to_raw(), 2);
    assert_eq!(EntityVisitResult::Break.to_raw(), 0);
    assert_eq!(PrintingPolicyFlag::PrintFullyQualifiedName.to_raw(), 25);
    assert_eq!(PrintingPolicyFlag::SuppressSpecifiers.to_raw(), 1);
}

#[test]
fn interface_enumerations_round_trip() {
    assert_eq!(CXCursorKind::from_raw(501), Some(CXCursorKind::MacroDefinition));
    assert_eq!(CXCursorKind::from_raw(51), None);
    assert_eq!(CXCursorKind::OverloadCandidate.to_raw(), 700);
    assert_eq!(CXTypeLayoutError::from_raw(-5), Some(CXTypeLayoutError::InvalidFieldName));
    assert_eq!(CXTypeLayoutError::from_raw(0), None);
    assert_eq!(CXTypeLayoutError::Invalid.to_raw(), -1);
}
