use zambaga::capability::{Capability, CapabilityTable, ImplExtractor};
use zambaga::value::{Value, TAG_NAT, TAG_TEXT};

#[test]
fn probe_reports_registered_pairs() {
    let mut table = CapabilityTable::new("Show");
    table.register(TAG_TEXT);
    assert_eq!(table.probe(TAG_TEXT), Capability { has_impl: true });
    assert_eq!(table.probe(TAG_NAT), Capability { has_impl: false });
    assert_eq!(table.trait_name(), "Show");
}

#[test]
fn probe_is_stable_across_calls() {
    let mut table = CapabilityTable::new("Show");
    table.register(TAG_TEXT);
    assert_eq!(table.probe(TAG_TEXT), table.probe(TAG_TEXT));
    assert_eq!(table.probe(TAG_NAT), table.probe(TAG_NAT));
}

#[test]
fn to_view_yields_a_handle_exactly_for_capable_types() {
    let mut table = CapabilityTable::new("Show");
    table.register(TAG_TEXT);
    let text = Value::Text(String::from("hi"));
    let number = Value::Nat(9);
    // the handle is the value itself, witnessed by the registration
    assert_eq!(table.to_view(&text), Some(&text));
    // the fallback path never yields a handle
    assert_eq!(table.to_view(&number), None);
}

#[test]
fn registering_more_types_keeps_earlier_answers() {
    let mut table = CapabilityTable::new("Show");
    table.register(TAG_TEXT);
    assert!(table.registered(TAG_TEXT));
    table.register(TAG_NAT);
    assert!(table.registered(TAG_TEXT));
    assert!(table.registered(TAG_NAT));
}

#[test]
fn impl_extractor_decides_by_the_stored_flag() {
    let text = Value::Text(String::from("hi"));
    let with_cap = ImplExtractor::new(TAG_TEXT, true);
    assert_eq!(with_cap.extract(&text).unwrap(), Some(&text));
    let without_cap = ImplExtractor::new(TAG_TEXT, false);
    // the unset flag always yields the empty outcome, never a handle
    assert_eq!(without_cap.extract(&text).unwrap(), None);
}

#[test]
fn impl_extractor_reports_type_mismatch() {
    let number = Value::Nat(3);
    let extractor = ImplExtractor::new(TAG_TEXT, true);
    assert!(extractor.extract(&number).is_err());
}
