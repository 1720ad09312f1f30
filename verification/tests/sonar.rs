use clang::sonar::{self, DeclarationFacts, EntityFacts, TypeFacts};
use clang::EntityKind;
use clang::literal::integer_literal_value as value;

fn entity(kind: EntityKind, name: Option<&str>) -> EntityFacts {
    EntityFacts {
        kind,
        name: name.map(|n| n.to_string()),
        display_name: name.map(|n| n.to_string()),
        has_children: true,
        underlying_type: None,
        type_display_name: None,
        has_value: false,
    }
}

fn typedef(name: &str, underlying: TypeFacts, type_display: &str) -> EntityFacts {
    EntityFacts {
        kind: EntityKind::TypedefDecl,
        name: Some(name.to_string()),
        display_name: Some(name.to_string()),
        has_children: true,
        underlying_type: Some(underlying),
        type_display_name: Some(type_display.to_string()),
        has_value: false,
    }
}

fn elaborated(display: &str, declaration: Option<&str>, size: Option<i64>) -> TypeFacts {
    TypeFacts {
        kind: 119,
        display_name: display.to_string(),
        has_result_type: false,
        declaration: Some(DeclarationFacts { display_name: declaration.map(|d| d.to_string()), size }),
    }
}

fn plain(kind: i32, display: &str) -> TypeFacts {
    TypeFacts { kind, display_name: display.to_string(), has_result_type: false, declaration: None }
}

fn names(declarations: &[sonar::Declaration]) -> Vec<String> {
    declarations.iter().map(|d| d.name.clone()).collect()
}

/// The entities of:
///
/// ```c
/// struct A { int a; };
/// typedef struct B { int b; } B;
/// typedef struct { int c; } C;
/// struct D { int d; };
/// typedef struct D D;
/// typedef struct E* OpaqueE;
/// ```
fn struct_entities() -> Vec<EntityFacts> {
    vec![
        entity(EntityKind::StructDecl, Some("A")),
        entity(EntityKind::StructDecl, Some("B")),
        typedef("B", elaborated("struct B", Some("B"), Some(4)), "B"),
        entity(EntityKind::StructDecl, None),
        typedef("C", elaborated("struct C", None, Some(4)), "C"),
        entity(EntityKind::StructDecl, Some("D")),
        typedef("D", elaborated("struct D", Some("D"), Some(4)), "D"),
        typedef("OpaqueE", plain(101, "struct E *"), "OpaqueE"),
    ]
}

#[test]
fn finds_structs_once_each() {
    let entities = struct_entities();
    let structs = sonar::find_structs(&entities);
    assert_eq!(names(&structs), vec!["A", "B", "C", "D"]);
    assert_eq!(structs[0].entity, 0);
    assert!(!structs[0].underlying);
    assert_eq!(structs[1].entity, 1);
    assert_eq!(structs[2].entity, 4);
    assert!(structs[2].underlying);
    assert_eq!(structs[3].entity, 5);
    assert!(sonar::find_enums(&entities).is_empty());
    assert!(sonar::find_unions(&entities).is_empty());
    assert_eq!(names(&sonar::find_typedefs(&entities)), vec!["OpaqueE"]);
}

#[test]
fn forward_declarations_do_not_hide_later_definitions() {
    let forward = || {
        let mut forward = entity(EntityKind::StructDecl, Some("S"));
        forward.has_children = false;
        forward
    };
    let entities = vec![forward(), entity(EntityKind::StructDecl, Some("S"))];
    let structs = sonar::find_structs(&entities);
    assert_eq!(names(&structs), vec!["S"]);
    assert_eq!(structs[0].entity, 1);
    let entities = vec![
        typedef("T", elaborated("struct T", Some("T"), Some(-2)), "T"),
        entity(EntityKind::StructDecl, Some("T")),
        entity(EntityKind::StructDecl, Some("T")),
        forward(),
    ];
    let structs = sonar::find_structs(&entities);
    assert_eq!(names(&structs), vec!["T"]);
    assert_eq!(structs[0].entity, 1);
}

#[test]
fn incomplete_typedefs_are_skipped() {
    let entities = vec![typedef("T", elaborated("union T", Some("T"), Some(-2)), "T")];
    assert!(sonar::find_unions(&entities).is_empty());
    let entities = vec![typedef("U", elaborated("union V", Some("V"), Some(8)), "U")];
    assert!(sonar::find_unions(&entities).is_empty());
    let entities = vec![typedef("W", elaborated("union W", Some("W"), Some(8)), "W")];
    let unions = sonar::find_unions(&entities);
    assert_eq!(names(&unions), vec!["W"]);
    assert!(unions[0].underlying);
}

#[test]
fn finds_functions_once_each() {
    let entities = vec![
        entity(EntityKind::FunctionDecl, Some("multiple")),
        entity(EntityKind::FunctionDecl, Some("multiple")),
        entity(EntityKind::VarDecl, Some("zero")),
        entity(EntityKind::FunctionDecl, Some("zero")),
        entity(EntityKind::FunctionDecl, Some("one")),
    ];
    let functions = sonar::find_functions(&entities);
    assert_eq!(names(&functions), vec!["multiple", "zero", "one"]);
    assert_eq!(functions.iter().map(|f| f.entity).collect::<Vec<_>>(), vec![0, 3, 4]);
}

#[test]
fn finds_typedefs() {
    let mut function = plain(111, "int (int)");
    function.has_result_type = true;
    let entities = vec![
        typedef("Integer", plain(17, "int"), "Integer"),
        typedef("Integer", plain(17, "int"), "Integer"),
        typedef("Function", function, "Function"),
        typedef("Enum", elaborated("enum E", Some("E"), Some(4)), "Enum"),
        typedef("E", elaborated("enum E", Some("E"), Some(4)), "E"),
        entity(EntityKind::EnumDecl, Some("E")),
    ];
    assert_eq!(names(&sonar::find_typedefs(&entities)), vec!["Integer", "Function", "Enum"]);
    assert_eq!(names(&sonar::find_enums(&entities)), vec!["E"]);
}

#[test]
fn finds_definitions_with_values() {
    let mut a = entity(EntityKind::MacroDefinition, Some("A"));
    a.has_value = true;
    let b = entity(EntityKind::MacroDefinition, Some("B"));
    let mut b_again = entity(EntityKind::MacroDefinition, Some("B"));
    b_again.has_value = true;
    let mut a_again = entity(EntityKind::MacroDefinition, Some("A"));
    a_again.has_value = true;
    let entities = vec![a, b, b_again, a_again];
    let definitions = sonar::find_definitions(&entities);
    assert_eq!(names(&definitions), vec!["A", "B"]);
    assert_eq!(definitions[1].entity, 2);
}

fn spellings(tokens: &[&str]) -> Vec<String> {
    tokens.iter().map(|t| t.to_string()).collect()
}

#[test]
fn definition_values() {
    assert_eq!(sonar::definition_integer(&spellings(&["A", "4"])), Some((false, 4)));
    assert_eq!(sonar::definition_integer(&spellings(&["B", "-", "322"])), Some((true, 322)));
    assert_eq!(sonar::definition_integer(&spellings(&["B", "-", "322", "#"])), Some((true, 322)));
    assert_eq!(sonar::definition_integer(&spellings(&["C", "3.14159"])), None);
    assert_eq!(
        sonar::definition_literal(&spellings(&["C", "3.14159"])),
        Some((false, "3.14159".to_string()))
    );
    assert_eq!(
        sonar::definition_literal(&spellings(&["D", "-", "2.71828"])),
        Some((true, "2.71828".to_string()))
    );
    assert_eq!(sonar::definition_literal(&spellings(&["E", "+", "1"])), None);
    assert_eq!(sonar::definition_literal(&spellings(&["F"])), None);
    assert_eq!(sonar::definition_literal(&spellings(&["G", "1", "2", "3"])), None);
    assert_eq!(sonar::definition_integer(&spellings(&["H", "+7"])), None);
    assert_eq!(sonar::definition_integer(&spellings(&["I", "18446744073709551615"])), Some((false, u64::MAX)));
    assert_eq!(sonar::definition_integer(&spellings(&["J", "18446744073709551616"])), None);
    assert_eq!(sonar::definition_integer(&spellings(&["K", "0x10"])), Some((false, 16)));
    assert_eq!(sonar::definition_integer(&spellings(&["L", "-", "010"])), Some((true, 8)));
    assert_eq!(sonar::definition_integer(&spellings(&["M", "10u"])), Some((false, 10)));
    assert_eq!(sonar::definition_integer(&spellings(&["N", "0XFFull"])), Some((false, 255)));
    assert_eq!(sonar::definition_integer(&spellings(&["O", "0b101"])), Some((false, 5)));
    assert_eq!(sonar::definition_integer(&spellings(&["P", "0"])), Some((false, 0)));
    assert_eq!(sonar::definition_integer(&spellings(&["Q", "7LU"])), Some((false, 7)));
}

#[test]
fn integer_literals() {
    assert_eq!(value("42"), Some(42));
    assert_eq!(value("0x1f"), Some(31));
    assert_eq!(value("0777"), Some(511));
    assert_eq!(value("0B11"), Some(3));
    assert_eq!(value("5ll"), Some(5));
    assert_eq!(value("5uLL"), Some(5));
    assert_eq!(value("0xffffffffffffffff"), Some(u64::MAX));
    assert_eq!(value("0x10000000000000000"), None);
    assert_eq!(value("08"), None);
    assert_eq!(value("0x"), None);
    assert_eq!(value("0b2"), None);
    assert_eq!(value("5lul"), None);
    assert_eq!(value("5lL"), None);
    assert_eq!(value("u"), None);
    assert_eq!(value(""), None);
    assert_eq!(value("1.5"), None);
    assert_eq!(value("1e3"), None);
}

#[test]
fn tag_typedefs() {
    let typedef_of_struct = typedef("B", elaborated("struct B", Some("B"), Some(4)), "B");
    assert!(sonar::is_tag_typedef_of(&typedef_of_struct, EntityKind::StructDecl));
    assert!(!sonar::is_tag_typedef_of(&typedef_of_struct, EntityKind::UnionDecl));
    let typedef_of_int = typedef("I", plain(17, "int"), "I");
    assert!(!sonar::is_tag_typedef_of(&typedef_of_int, EntityKind::StructDecl));
    assert!(!sonar::is_tag_typedef_of(&entity(EntityKind::StructDecl, Some("S")), EntityKind::StructDecl));
}

#[test]
fn floating_shapes() {
    assert!(clang::literal::has_floating_shape("3.14"));
    assert!(clang::literal::has_floating_shape("1e5"));
    assert!(clang::literal::has_floating_shape("0x1p3"));
    assert!(!clang::literal::has_floating_shape("08"));
    assert!(!clang::literal::has_floating_shape("inf"));
}

#[test]
fn definitions_carry_their_values() {
    let mut a = entity(EntityKind::MacroDefinition, Some("A"));
    a.has_value = true;
    let b = entity(EntityKind::MacroDefinition, Some("B"));
    let mut a_again = entity(EntityKind::MacroDefinition, Some("A"));
    a_again.has_value = true;
    let mut c = entity(EntityKind::MacroDefinition, Some("C"));
    c.has_value = true;
    let entities = vec![a, b, a_again, c];
    let values = vec![Some(1u8), None, Some(2u8), Some(3u8)];
    let found = sonar::find_definitions_with_values(&entities, &values);
    assert_eq!(found.len(), 2);
    assert_eq!((found[0].0.name.as_str(), found[0].0.entity, found[0].1), ("A", 0, 1));
    assert_eq!((found[1].0.name.as_str(), found[1].0.entity, found[1].1), ("C", 3, 3));
}
