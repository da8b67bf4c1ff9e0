use zambaga::fmt::{i64_to_string, spaces, u64_to_string};
use zambaga::mode::ReflectionMode;
use zambaga::names::{FieldName, TypeName, TypeRegistry};
use zambaga::value::{Value, TAG_BOOL, TAG_INT, TAG_NAT, TAG_TEXT, TAG_UNIT};
use zambaga::zerde::{to_json, visit_implemented, Zerde};

#[test]
fn decimal_spellings_are_exact() {
    assert_eq!(u64_to_string(0), "0");
    assert_eq!(u64_to_string(7), "7");
    assert_eq!(u64_to_string(12345), "12345");
    assert_eq!(u64_to_string(u64::MAX), "18446744073709551615");
    assert_eq!(i64_to_string(0), "0");
    assert_eq!(i64_to_string(-1), "-1");
    assert_eq!(i64_to_string(-42), "-42");
    assert_eq!(i64_to_string(i64::MIN), "-9223372036854775808");
    assert_eq!(i64_to_string(i64::MAX), "9223372036854775807");
}

#[test]
fn spaces_yields_the_requested_run() {
    assert_eq!(spaces(0), "");
    assert_eq!(spaces(3), "   ");
}

#[test]
fn reflection_modes_come_from_their_identifiers() {
    assert_eq!(
        ReflectionMode::from_ident("recursive"),
        Some(ReflectionMode::Recursive)
    );
    assert_eq!(ReflectionMode::from_ident("dyn"), Some(ReflectionMode::Dyn));
    assert_eq!(ReflectionMode::from_ident("static"), None);
    assert_eq!(ReflectionMode::from_ident(""), None);
}

#[test]
fn placeholder_serialization_is_the_empty_object() {
    let record = Value::Record {
        tag: 140,
        fields: vec![Value::Nat(1)],
    };
    assert_eq!(to_json(&record), "{}");
    assert_eq!(record.to_json(), "{}");
}

#[test]
fn zerde_visit_appends_the_field_serialization() {
    let mut output = String::from("[");
    let field = Value::Nat(1);
    let name = FieldName::from_str("n");
    let ty = TypeName::from_source(TAG_NAT, "u64");
    visit_implemented(&mut output, &field, Some(&name), &ty);
    assert_eq!(output, "[{}");
}

#[test]
fn values_carry_their_type_tokens() {
    assert_eq!(Value::Unit.type_tag(), TAG_UNIT);
    assert_eq!(Value::Bool(false).type_tag(), TAG_BOOL);
    assert_eq!(Value::Int(-1).type_tag(), TAG_INT);
    assert_eq!(Value::Nat(1).type_tag(), TAG_NAT);
    assert_eq!(Value::Text(String::new()).type_tag(), TAG_TEXT);
    let record = Value::Record {
        tag: 150,
        fields: vec![],
    };
    assert_eq!(record.type_tag(), 150);
    let choice = Value::Choice {
        tag: 151,
        variant: 0,
        payload: vec![Value::Unit],
    };
    assert_eq!(choice.type_tag(), 151);
}

#[test]
fn values_clone_deeply() {
    let original = Value::Record {
        tag: 152,
        fields: vec![
            Value::Text(String::from("x")),
            Value::Record {
                tag: 153,
                fields: vec![Value::Nat(9)],
            },
        ],
    };
    let copy = original.clone();
    assert_eq!(copy, original);
}

#[test]
fn type_registry_keeps_the_first_name() {
    let mut names = TypeRegistry::new();
    names.register(1, "first");
    names.register(1, "second");
    assert_eq!(names.resolve(1), Some("first"));
    assert_eq!(names.resolve(2), None);
}
