use zambaga::capability::CapabilityTable;
use zambaga::mirror::{FieldDecl, Mirror, ShapeKind};
use zambaga::names::{FieldName, TypeName};
use zambaga::traverse::{
    FieldTraverser, RecordingVisitor, StepKind, TraversalBody, TraversalStep,
    RECORDING_VISITOR_TAG,
};
use zambaga::value::{Value, TAG_NAT, TAG_TEXT};
use zambaga::zerde::NoOpVisitor;

const BAR_TAG: u64 = 101;

fn bar_mirror() -> Mirror {
    let mut table = CapabilityTable::new("Show");
    table.register(TAG_TEXT);
    let decls = vec![
        FieldDecl {
            name: Some(FieldName::from_str("foo")),
            ty: TypeName::from_source(TAG_TEXT, "String"),
        },
        FieldDecl {
            name: Some(FieldName::from_str("something_else")),
            ty: TypeName::from_source(TAG_NAT, "u64"),
        },
    ];
    Mirror::build(
        TypeName::from_source(BAR_TAG, "Bar"),
        RECORDING_VISITOR_TAG,
        ShapeKind::Struct,
        &decls,
        &table,
    )
}

fn bar_instance() -> Value {
    Value::Record {
        tag: BAR_TAG,
        fields: vec![Value::Text(String::from("Hello, world!")), Value::Nat(42)],
    }
}

#[test]
fn traversal_replays_each_field_through_its_committed_path() {
    let mirror = bar_mirror();
    let visitor = mirror
        .visit_fields(&bar_instance(), RecordingVisitor::new())
        .unwrap();
    let events = visitor.events();
    assert_eq!(events.len(), 2);
    assert!(events[0].implemented);
    assert_eq!(events[0].value, Value::Text(String::from("Hello, world!")));
    assert_eq!(events[0].name.as_ref().unwrap().as_str(), "foo");
    assert_eq!(events[0].ty.compiletime(), "String");
    assert!(!events[1].implemented);
    assert_eq!(events[1].value, Value::Nat(42));
    assert_eq!(events[1].name.as_ref().unwrap().as_str(), "something_else");
    assert_eq!(events[1].ty.compiletime(), "u64");
}

#[test]
fn traversal_refuses_a_record_of_the_wrong_identity() {
    let mirror = bar_mirror();
    let foreign = Value::Record {
        tag: 999,
        fields: vec![Value::Text(String::from("x")), Value::Nat(1)],
    };
    let mut visitor = RecordingVisitor::new();
    let r = mirror.field_traverser.try_accept(&mut visitor, &foreign);
    assert!(r.is_err());
    // the mismatch reaches no callback: the visitor stands untouched
    assert_eq!(visitor.events().len(), 0);
}

#[test]
fn traversal_refuses_a_visitor_of_the_wrong_identity() {
    let mirror = bar_mirror();
    // the entry was built for the recording visitor's identity
    let mut wrong = NoOpVisitor;
    let r = mirror.field_traverser.try_accept(&mut wrong, &bar_instance());
    assert!(r.is_err());
}

#[test]
fn traversal_refuses_an_ill_shaped_record() {
    let mirror = bar_mirror();
    let short = Value::Record {
        tag: BAR_TAG,
        fields: vec![Value::Text(String::from("x"))],
    };
    let mut visitor = RecordingVisitor::new();
    assert!(mirror
        .field_traverser
        .try_accept(&mut visitor, &short)
        .is_err());
    assert_eq!(visitor.events().len(), 0);
}

#[test]
fn round_trip_reaches_the_original_callback_arguments() {
    // an entry built by hand, then invoked with the exact pairing
    let steps = vec![TraversalStep {
        index: 0,
        name: None,
        ty: TypeName::from_source(TAG_TEXT, "String"),
        kind: StepKind::Implemented,
    }];
    let entry = FieldTraverser::new(50, RECORDING_VISITOR_TAG, TraversalBody::Fields(steps));
    let instance = Value::Record {
        tag: 50,
        fields: vec![Value::Text(String::from("payload"))],
    };
    let mut visitor = RecordingVisitor::new();
    entry.try_accept(&mut visitor, &instance).unwrap();
    let events = visitor.events();
    assert_eq!(events.len(), 1);
    assert!(events[0].implemented);
    assert_eq!(events[0].value, Value::Text(String::from("payload")));
    assert!(events[0].name.is_none());
    assert_eq!(events[0].ty.tag(), TAG_TEXT);
}

#[test]
fn enum_traversal_discriminates_on_the_active_variant() {
    let mut table = CapabilityTable::new("Show");
    table.register(TAG_TEXT);
    let decls = vec![
        FieldDecl {
            name: Some(FieldName::from_str("A")),
            ty: TypeName::from_source(TAG_TEXT, "String"),
        },
        FieldDecl {
            name: Some(FieldName::from_str("B")),
            ty: TypeName::from_source(TAG_NAT, "u64"),
        },
    ];
    let mirror = Mirror::build(
        TypeName::from_source(60, "Either"),
        RECORDING_VISITOR_TAG,
        ShapeKind::Enum,
        &decls,
        &table,
    );
    let second = Value::Choice {
        tag: 60,
        variant: 1,
        payload: vec![Value::Nat(5)],
    };
    let visitor = mirror.visit_fields(&second, RecordingVisitor::new()).unwrap();
    let events = visitor.events();
    assert_eq!(events.len(), 1);
    assert!(!events[0].implemented);
    assert_eq!(events[0].value, Value::Nat(5));
    assert_eq!(events[0].name.as_ref().unwrap().as_str(), "B");
}
