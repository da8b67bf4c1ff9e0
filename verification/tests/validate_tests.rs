use zambaga::capability::CapabilityTable;
use zambaga::mirror::{FieldDecl, Mirror, ShapeKind};
use zambaga::names::{FieldName, TypeName};
use zambaga::show::SHOW_VISITOR_TAG;
use zambaga::validate::{derive_interface, derive_interface_permissive, Validation, ValidationError};
use zambaga::value::{TAG_NAT, TAG_TEXT};

const PAIR_TAG: u64 = 110;
const LACKS_TAG: u64 = 111;

fn pair_mirror(table: &CapabilityTable) -> Mirror {
    let decls = vec![
        FieldDecl {
            name: Some(FieldName::from_str("a")),
            ty: TypeName::from_source(TAG_TEXT, "HasCapability"),
        },
        FieldDecl {
            name: Some(FieldName::from_str("b")),
            ty: TypeName::from_source(LACKS_TAG, "LacksCapability"),
        },
    ];
    Mirror::build(
        TypeName::from_source(PAIR_TAG, "Pair"),
        SHOW_VISITOR_TAG,
        ShapeKind::Struct,
        &decls,
        table,
    )
}

#[test]
fn validation_names_the_first_field_without_the_capability() {
    let mut table = CapabilityTable::new("Show");
    table.register(TAG_TEXT);
    let mirror = pair_mirror(&table);
    let err = Validation::all_fields_impl(&mirror, &table).unwrap_err();
    match &err {
        ValidationError::DoesntImplement {
            field,
            index,
            field_type,
            trait_name,
        } => {
            assert_eq!(field.as_ref().unwrap().as_str(), "b");
            assert_eq!(*index, 1);
            assert_eq!(field_type.compiletime(), "LacksCapability");
            assert_eq!(trait_name.as_str(), "Show");
        }
        ValidationError::Failed => panic!("expected the named failure"),
    }
    assert_eq!(
        err.message(),
        "Field `b` of type `LacksCapability` does not implement `Show`"
    );
}

#[test]
fn validation_admits_a_fully_capable_record() {
    let mut table = CapabilityTable::new("Show");
    table.register(TAG_TEXT);
    let decls = vec![FieldDecl {
        name: Some(FieldName::from_str("a")),
        ty: TypeName::from_source(TAG_TEXT, "String"),
    }];
    let mirror = Mirror::build(
        TypeName::from_source(PAIR_TAG, "AllCapable"),
        SHOW_VISITOR_TAG,
        ShapeKind::Struct,
        &decls,
        &table,
    );
    assert!(Validation::all_fields_impl(&mirror, &table).is_ok());
}

#[test]
fn failed_derivation_registers_nothing() {
    let mut table = CapabilityTable::new("Show");
    table.register(TAG_TEXT);
    let mirror = pair_mirror(&table);
    assert!(derive_interface(&mut table, &mirror).is_err());
    // the pair type never became an implementation
    assert!(!table.registered(PAIR_TAG));
}

#[test]
fn successful_derivation_registers_the_record_type() {
    let mut table = CapabilityTable::new("Show");
    table.register(TAG_TEXT);
    let decls = vec![FieldDecl {
        name: Some(FieldName::from_str("a")),
        ty: TypeName::from_source(TAG_TEXT, "String"),
    }];
    let mirror = Mirror::build(
        TypeName::from_source(112, "AllCapable"),
        SHOW_VISITOR_TAG,
        ShapeKind::Struct,
        &decls,
        &table,
    );
    assert!(derive_interface(&mut table, &mirror).is_ok());
    assert!(table.registered(112));
}

#[test]
fn permissive_derivation_admits_missing_capabilities() {
    let mut table = CapabilityTable::new("Show");
    table.register(TAG_TEXT);
    let mirror = pair_mirror(&table);
    derive_interface_permissive(&mut table, &mirror);
    assert!(table.registered(PAIR_TAG));
}

#[test]
fn bare_failure_has_its_own_message() {
    let err = Validation::err();
    assert_eq!(err.message(), "Validation failed");
}

#[test]
fn positional_fields_are_reported_by_position() {
    let mut table = CapabilityTable::new("Show");
    table.register(TAG_TEXT);
    let decls = vec![
        FieldDecl {
            name: None,
            ty: TypeName::from_source(TAG_TEXT, "String"),
        },
        FieldDecl {
            name: None,
            ty: TypeName::from_source(TAG_NAT, "u64"),
        },
    ];
    let mirror = Mirror::build(
        TypeName::from_source(113, "Tuple"),
        SHOW_VISITOR_TAG,
        ShapeKind::TupleStruct,
        &decls,
        &table,
    );
    let err = Validation::all_fields_impl(&mirror, &table).unwrap_err();
    match &err {
        ValidationError::DoesntImplement { field, index, .. } => {
            assert!(field.is_none());
            assert_eq!(*index, 1);
        }
        ValidationError::Failed => panic!("expected the named failure"),
    }
    assert_eq!(
        err.message(),
        "Field `?` of type `u64` does not implement `Show`"
    );
}
