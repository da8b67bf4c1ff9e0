use zambaga::capability::CapabilityTable;
use zambaga::mirror::{FieldDecl, Mirror, MirrorRegistry, ShapeKind};
use zambaga::names::{FieldName, TypeName, TypeRegistry};
use zambaga::show::{print_record, print_value, Show, SHOW_VISITOR_TAG};
use zambaga::validate::{derive_interface, derive_interface_permissive};
use zambaga::value::{Value, TAG_INT, TAG_NAT, TAG_TEXT};

const WRAPPER_TAG: u64 = 120;
const PAIR_TAG: u64 = 121;
const FOO_TAG: u64 = 122;
const BAR_TAG: u64 = 123;

#[test]
fn string_implements_the_interface_directly() {
    let s = String::from("plain");
    assert_eq!(s.print(4), "plain");
}

#[test]
fn wrapper_of_string_prints_the_embedded_text() {
    let mut table = CapabilityTable::new("Show");
    table.register(TAG_TEXT);
    let decls = vec![FieldDecl {
        name: None,
        ty: TypeName::from_source(TAG_TEXT, "String"),
    }];
    let mirror = Mirror::build(
        TypeName::from_source(WRAPPER_TAG, "Wrapper"),
        SHOW_VISITOR_TAG,
        ShapeKind::TupleStruct,
        &decls,
        &table,
    );
    assert!(derive_interface(&mut table, &mirror).is_ok());
    let mut mirrors = MirrorRegistry::new();
    mirrors.register(mirror);
    let names = TypeRegistry::new();
    let instance = Value::Record {
        tag: WRAPPER_TAG,
        fields: vec![Value::Text(String::from("Hello, world!"))],
    };
    let out = print_record(&names, &mirrors, &instance, 0).unwrap();
    assert_eq!(out, "Wrapper {\n  field #1 ?: Hello, world!\n}");
    assert!(out.contains("Hello, world!"));
}

#[test]
fn permitted_missing_capability_marks_the_field_with_its_runtime_name() {
    let mut table = CapabilityTable::new("Show");
    table.register(TAG_TEXT);
    let decls = vec![FieldDecl {
        name: Some(FieldName::from_str("n")),
        ty: TypeName::from_source(TAG_INT, "i64"),
    }];
    let mirror = Mirror::build(
        TypeName::from_source(PAIR_TAG, "Pair"),
        SHOW_VISITOR_TAG,
        ShapeKind::Struct,
        &decls,
        &table,
    );
    // the require-all mode refuses this record; permit-missing admits it
    assert!(derive_interface(&mut table, &mirror).is_err());
    derive_interface_permissive(&mut table, &mirror);
    let mut mirrors = MirrorRegistry::new();
    mirrors.register(mirror);
    let mut names = TypeRegistry::new();
    names.register(TAG_INT, "i64");
    let instance = Value::Record {
        tag: PAIR_TAG,
        fields: vec![Value::Int(-3)],
    };
    let out = print_record(&names, &mirrors, &instance, 0).unwrap();
    assert_eq!(
        out,
        "Pair {\n  field #1 n: <value of type `i64` which does not implement Show>\n}"
    );
    assert!(out.contains("i64"));
}

#[test]
fn nested_records_print_recursively() {
    let mut table = CapabilityTable::new("Show");
    table.register(TAG_TEXT);
    let mut mirrors = MirrorRegistry::new();
    let names = TypeRegistry::new();

    let foo_decls = vec![FieldDecl {
        name: None,
        ty: TypeName::from_source(TAG_TEXT, "String"),
    }];
    let foo_mirror = Mirror::build(
        TypeName::from_source(FOO_TAG, "Foo"),
        SHOW_VISITOR_TAG,
        ShapeKind::TupleStruct,
        &foo_decls,
        &table,
    );
    assert!(derive_interface(&mut table, &foo_mirror).is_ok());
    mirrors.register(foo_mirror);

    let bar_decls = vec![
        FieldDecl {
            name: Some(FieldName::from_str("foo")),
            ty: TypeName::from_source(FOO_TAG, "Foo"),
        },
        FieldDecl {
            name: Some(FieldName::from_str("something_else")),
            ty: TypeName::from_source(TAG_NAT, "u64"),
        },
    ];
    let bar_mirror = Mirror::build(
        TypeName::from_source(BAR_TAG, "Bar"),
        SHOW_VISITOR_TAG,
        ShapeKind::Struct,
        &bar_decls,
        &table,
    );
    derive_interface_permissive(&mut table, &bar_mirror);
    mirrors.register(bar_mirror);

    let instance = Value::Record {
        tag: BAR_TAG,
        fields: vec![
            Value::Record {
                tag: FOO_TAG,
                fields: vec![Value::Text(String::from("Hello, world!"))],
            },
            Value::Nat(42),
        ],
    };
    let out = print_record(&names, &mirrors, &instance, 0).unwrap();
    assert_eq!(
        out,
        "Bar {\n  field #1 foo: Foo {\n    field #1 ?: Hello, world!\n  }\n  field #2 something_else: <value of type `u64` which does not implement Show>\n}"
    );
}

#[test]
fn print_record_and_print_value_agree_on_mirrored_records() {
    let mut table = CapabilityTable::new("Show");
    table.register(TAG_TEXT);
    let decls = vec![FieldDecl {
        name: None,
        ty: TypeName::from_source(TAG_TEXT, "String"),
    }];
    let mirror = Mirror::build(
        TypeName::from_source(WRAPPER_TAG, "Wrapper"),
        SHOW_VISITOR_TAG,
        ShapeKind::TupleStruct,
        &decls,
        &table,
    );
    let mut mirrors = MirrorRegistry::new();
    mirrors.register(mirror);
    let names = TypeRegistry::new();
    let instance = Value::Record {
        tag: WRAPPER_TAG,
        fields: vec![Value::Text(String::from("same"))],
    };
    let through_dispatch = print_record(&names, &mirrors, &instance, 2).unwrap();
    let direct = print_value(&names, &mirrors, &instance, 2);
    assert_eq!(through_dispatch, direct);
}

#[test]
fn primitives_print_their_spellings() {
    let names = TypeRegistry::new();
    let mirrors = MirrorRegistry::new();
    assert_eq!(print_value(&names, &mirrors, &Value::Nat(12345), 0), "12345");
    assert_eq!(print_value(&names, &mirrors, &Value::Int(-42), 0), "-42");
    assert_eq!(print_value(&names, &mirrors, &Value::Bool(true), 0), "true");
    assert_eq!(print_value(&names, &mirrors, &Value::Unit, 0), "()");
    assert_eq!(
        print_value(&names, &mirrors, &Value::Text(String::from("t")), 0),
        "t"
    );
}

#[test]
fn a_record_without_a_mirror_prints_the_marker() {
    let names = TypeRegistry::new();
    let mirrors = MirrorRegistry::new();
    let instance = Value::Record {
        tag: 77,
        fields: vec![],
    };
    assert_eq!(print_value(&names, &mirrors, &instance, 0), "<unmirrored>");
    assert!(print_record(&names, &mirrors, &instance, 0).is_err());
}

#[test]
fn runtime_names_resolve_through_the_registry() {
    let mut names = TypeRegistry::new();
    names.register(WRAPPER_TAG, "demo::Wrapper");
    let ty = TypeName::from_source(WRAPPER_TAG, "Wrapper");
    assert_eq!(ty.compiletime(), "Wrapper");
    assert_eq!(ty.runtime(&names), "demo::Wrapper");
    let unregistered = TypeName::from_source(9999, "Mystery");
    assert_eq!(unregistered.runtime(&names), "Mystery");
}

#[test]
fn enum_values_print_the_active_variant() {
    let mut table = CapabilityTable::new("Show");
    table.register(TAG_TEXT);
    let decls = vec![
        FieldDecl {
            name: Some(FieldName::from_str("A")),
            ty: TypeName::from_source(TAG_TEXT, "String"),
        },
        FieldDecl {
            name: Some(FieldName::from_str("B")),
            ty: TypeName::from_source(TAG_NAT, "u64"),
        },
    ];
    let mirror = Mirror::build(
        TypeName::from_source(130, "Either"),
        SHOW_VISITOR_TAG,
        ShapeKind::Enum,
        &decls,
        &table,
    );
    let mut mirrors = MirrorRegistry::new();
    mirrors.register(mirror);
    let names = TypeRegistry::new();
    let instance = Value::Choice {
        tag: 130,
        variant: 0,
        payload: vec![Value::Text(String::from("left"))],
    };
    let out = print_record(&names, &mirrors, &instance, 0).unwrap();
    assert_eq!(out, "Either {\n  field #1 A: left\n}");
}
