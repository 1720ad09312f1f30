use clang::entity::{self, TemplateArgument};
use clang::{
    Availability, EntityKind, ObjCAttributes, ObjCQualifiers, OffsetofError, PlatformAvailability,
    Version,
};

#[test]
fn template_arguments() {
    let null: TemplateArgument<u8> = TemplateArgument::from_raw(0, None, None);
    assert_eq!(null, TemplateArgument::Null);
    let type_: TemplateArgument<u8> = TemplateArgument::from_raw(1, Some(7), None);
    assert_eq!(type_, TemplateArgument::Type(7));
    let integral: TemplateArgument<u8> = TemplateArgument::from_raw(4, None, Some((-1, u64::MAX)));
    assert_eq!(integral, TemplateArgument::Integral(-1, u64::MAX));
    let pack: TemplateArgument<u8> = TemplateArgument::from_raw(8, None, None);
    assert_eq!(pack, TemplateArgument::Pack);
    let expression: TemplateArgument<u8> = TemplateArgument::from_raw(7, None, None);
    assert_eq!(expression, TemplateArgument::Expression);
}

#[test]
fn versions() {
    assert_eq!(Version::from_raw(10, 4, -1), Version { x: 10, y: Some(4), z: None });
    assert_eq!(Version::from_raw_option(-1, 0, 0), None);
    assert_eq!(Version::from_raw_option(3, -1, -1), Some(Version { x: 3, y: None, z: None }));
}

#[test]
fn platform_availability() {
    let availability = PlatformAvailability::from_raw(
        "macos".to_string(),
        1,
        (10, 4, 0),
        (-1, -1, -1),
        (11, -1, -1),
        Some(String::new()),
    );
    assert_eq!(availability.platform, "macos");
    assert!(availability.unavailable);
    assert_eq!(availability.introduced, Some(Version { x: 10, y: Some(4), z: Some(0) }));
    assert_eq!(availability.deprecated, None);
    assert_eq!(availability.obsoleted, Some(Version { x: 11, y: None, z: None }));
    assert_eq!(availability.message, None);

    let message = PlatformAvailability::from_raw(
        "ios".to_string(), 0, (-1, 0, 0), (-1, 0, 0), (-1, 0, 0), Some("use b".to_string()),
    );
    assert!(!message.unavailable);
    assert_eq!(message.message, Some("use b".to_string()));
}

#[test]
fn entity_values() {
    assert_eq!(entity::get_availability(1), Availability::Deprecated);
    assert_eq!(entity::get_bit_field_width(322), Some(322));
    assert_eq!(entity::get_bit_field_width(-1), None);
    assert_eq!(entity::get_objc_selector_index(0), Some(0));
    assert_eq!(entity::get_objc_selector_index(-1), None);
    assert_eq!(
        entity::get_enum_constant_value(EntityKind::EnumConstantDecl, -322, 644),
        Some((-322, 644))
    );
    assert_eq!(entity::get_enum_constant_value(EntityKind::VarDecl, 1, 1), None);
    assert_eq!(entity::get_offset_of_field(32), Ok(32));
    assert_eq!(entity::get_offset_of_field(-2), Err(OffsetofError::Incomplete));
    assert_eq!(entity::get_overloaded_declarations(Vec::<u8>::new()), None);
    assert_eq!(entity::get_overloaded_declarations(vec![1u8, 2]), Some(vec![1u8, 2]));
    assert_eq!(entity::get_template_kind(71), None);
    assert_eq!(entity::get_template_kind(70), Some(EntityKind::InvalidFile));
    assert_eq!(entity::get_template_kind(4), Some(EntityKind::ClassDecl));
    assert_eq!(entity::get_template_kind(0), None);
}

#[test]
fn objc_flags() {
    assert_eq!(entity::get_objc_attributes(0), None);
    let attributes = entity::get_objc_attributes(1 | 64 | 4096).unwrap();
    assert!(attributes.readonly && attributes.nonatomic && attributes.class);
    assert!(!attributes.getter && !attributes.weak);
    assert_eq!(i32::from(attributes), 1 | 64 | 4096);
    assert_eq!(entity::get_objc_qualifiers(0), None);
    let qualifiers = entity::get_objc_qualifiers(2 | 32).unwrap();
    assert!(qualifiers.inout && qualifiers.oneway && !qualifiers.in_);
    assert_eq!(i32::from(qualifiers), 34);
    assert_eq!(ObjCQualifiers::from(64).oneway, false);
    assert_eq!(i32::from(ObjCAttributes::from(-1)), 8191);
}
