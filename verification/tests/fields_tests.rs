use zambaga::mirror::{FieldDecl, Mirror, MirrorRegistry, ShapeKind};
use zambaga::capability::CapabilityTable;
use zambaga::names::{FieldName, TypeName};
use zambaga::show::SHOW_VISITOR_TAG;
use zambaga::value::{Value, TAG_NAT, TAG_TEXT};

const BAR_TAG: u64 = 101;
const ENUM_TAG: u64 = 102;

fn show_table() -> CapabilityTable {
    let mut table = CapabilityTable::new("Show");
    table.register(TAG_TEXT);
    table
}

fn bar_mirror(table: &CapabilityTable) -> Mirror {
    let decls = vec![
        FieldDecl {
            name: Some(FieldName::from_str("foo")),
            ty: TypeName::from_source(TAG_TEXT, "String"),
        },
        FieldDecl {
            name: Some(FieldName::from_str("something_else")),
            ty: TypeName::from_source(TAG_NAT, "u64"),
        },
    ];
    Mirror::build(
        TypeName::from_source(BAR_TAG, "Bar"),
        SHOW_VISITOR_TAG,
        ShapeKind::Struct,
        &decls,
        table,
    )
}

fn bar_instance() -> Value {
    Value::Record {
        tag: BAR_TAG,
        fields: vec![Value::Text(String::from("Hello, world!")), Value::Nat(42)],
    }
}

#[test]
fn fields_yields_every_declared_field_in_order() {
    let table = show_table();
    let mirror = bar_mirror(&table);
    let entries = mirror.fields(&bar_instance()).unwrap();
    assert_eq!(entries.len(), 2);
    assert_eq!(entries[0].name.as_ref().unwrap().as_str(), "foo");
    assert_eq!(entries[0].ty.compiletime(), "String");
    assert_eq!(entries[0].ty.tag(), TAG_TEXT);
    assert_eq!(entries[1].name.as_ref().unwrap().as_str(), "something_else");
    assert_eq!(entries[1].ty.compiletime(), "u64");
    assert_eq!(entries[1].ty.tag(), TAG_NAT);
}

#[test]
fn fields_view_present_exactly_for_capable_fields() {
    let table = show_table();
    let mirror = bar_mirror(&table);
    let entries = mirror.fields(&bar_instance()).unwrap();
    assert_eq!(
        entries[0].view,
        Some(Value::Text(String::from("Hello, world!")))
    );
    assert_eq!(entries[1].view, None);
}

#[test]
fn fields_twice_yields_identical_sequences() {
    let table = show_table();
    let mirror = bar_mirror(&table);
    let instance = bar_instance();
    let first = mirror.fields(&instance).unwrap();
    let second = mirror.fields(&instance).unwrap();
    assert_eq!(first.len(), second.len());
    for (a, b) in first.iter().zip(second.iter()) {
        assert_eq!(
            a.name.as_ref().map(|n| n.as_str()),
            b.name.as_ref().map(|n| n.as_str())
        );
        assert_eq!(a.ty.compiletime(), b.ty.compiletime());
        assert_eq!(a.ty.tag(), b.ty.tag());
        assert_eq!(a.view, b.view);
    }
}

#[test]
fn tuple_struct_fields_have_no_names() {
    let table = show_table();
    let decls = vec![FieldDecl {
        name: None,
        ty: TypeName::from_source(TAG_TEXT, "String"),
    }];
    let mirror = Mirror::build(
        TypeName::from_source(100, "Wrapper"),
        SHOW_VISITOR_TAG,
        ShapeKind::TupleStruct,
        &decls,
        &table,
    );
    let instance = Value::Record {
        tag: 100,
        fields: vec![Value::Text(String::from("hi"))],
    };
    let entries = mirror.fields(&instance).unwrap();
    assert_eq!(entries.len(), 1);
    assert!(entries[0].name.is_none());
    assert_eq!(entries[0].view, Some(Value::Text(String::from("hi"))));
}

#[test]
fn enum_fields_yield_only_the_active_variant() {
    let table = show_table();
    let decls = vec![
        FieldDecl {
            name: Some(FieldName::from_str("A")),
            ty: TypeName::from_source(TAG_TEXT, "String"),
        },
        FieldDecl {
            name: Some(FieldName::from_str("B")),
            ty: TypeName::from_source(TAG_NAT, "u64"),
        },
    ];
    let mirror = Mirror::build(
        TypeName::from_source(ENUM_TAG, "Either"),
        SHOW_VISITOR_TAG,
        ShapeKind::Enum,
        &decls,
        &table,
    );
    let first = Value::Choice {
        tag: ENUM_TAG,
        variant: 0,
        payload: vec![Value::Text(String::from("left"))],
    };
    let entries = mirror.fields(&first).unwrap();
    assert_eq!(entries.len(), 1);
    assert_eq!(entries[0].name.as_ref().unwrap().as_str(), "A");
    assert_eq!(entries[0].view, Some(Value::Text(String::from("left"))));

    let second = Value::Choice {
        tag: ENUM_TAG,
        variant: 1,
        payload: vec![Value::Nat(7)],
    };
    let entries = mirror.fields(&second).unwrap();
    assert_eq!(entries.len(), 1);
    assert_eq!(entries[0].name.as_ref().unwrap().as_str(), "B");
    assert_eq!(entries[0].view, None);
}

#[test]
fn fields_rejects_foreign_and_ill_shaped_instances() {
    let table = show_table();
    let mirror = bar_mirror(&table);
    // wrong identity token
    let foreign = Value::Record {
        tag: 999,
        fields: vec![Value::Text(String::from("x")), Value::Nat(1)],
    };
    assert!(mirror.fields(&foreign).is_err());
    // wrong arity
    let short = Value::Record {
        tag: BAR_TAG,
        fields: vec![Value::Text(String::from("x"))],
    };
    assert!(mirror.fields(&short).is_err());
    // field of the wrong type
    let ill_typed = Value::Record {
        tag: BAR_TAG,
        fields: vec![Value::Nat(3), Value::Nat(1)],
    };
    assert!(mirror.fields(&ill_typed).is_err());
    // not a record at all
    assert!(mirror.fields(&Value::Nat(0)).is_err());
}

#[test]
fn mirror_registry_first_registration_wins() {
    let table = show_table();
    let mirror_a = bar_mirror(&table);
    let mirror_b = Mirror::build(
        TypeName::from_source(BAR_TAG, "Impostor"),
        SHOW_VISITOR_TAG,
        ShapeKind::Struct,
        &vec![],
        &table,
    );
    let mut mirrors = MirrorRegistry::new();
    mirrors.register(mirror_a);
    mirrors.register(mirror_b);
    let got = mirrors.get(BAR_TAG).unwrap();
    assert_eq!(got.name.compiletime(), "Bar");
    assert!(mirrors.get(12345).is_none());
}
