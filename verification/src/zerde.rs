//! A serialization-flavoured interface over the universe: the second
//! consumer-side demonstration of the engine, with a placeholder derivation
//! that renders every record as the empty JSON object.

use vstd::prelude::*;

use crate::names::{FieldName, TypeName};
use crate::traverse::FieldVisitor;
use crate::value::{Val, Value};

verus! {

/// The serialization interface: what a type must offer to be written out
/// as JSON text.
pub trait Zerde {
    /// The text [`Zerde::to_json`] yields.
    spec fn spec_to_json(&self) -> Seq<char>;

    /// Serializes the value as JSON text.
    fn to_json(&self) -> (r: String)
        ensures
            r@ == self.spec_to_json(),
    ;
}

/// The placeholder derivation's serializer: every value, whatever its
/// shape, comes out as the empty object.
pub fn to_json(_zelf: &Value) -> (r: String)
    ensures
        r@ == "{}"@,
{
    "{}".to_owned()
}

impl Zerde for Value {
    open spec fn spec_to_json(&self) -> Seq<char> {
        "{}"@
    }

    fn to_json(&self) -> (r: String) {
        to_json(self)
    }
}

/// Appends a field's serialized form to the output buffer: the computing
/// half of the derivation's field visit, with the caller left to move the
/// buffer wherever it goes.
pub fn visit_implemented<T: Zerde>(
    output: &mut String,
    field_value: &T,
    _field_name: Option<&FieldName>,
    _field_type: &TypeName,
)
    ensures
        final(output)@ == old(output)@ + field_value.spec_to_json(),
{
    let s = field_value.to_json();
    output.append(s.as_str());
}

/// The identity token of [`NoOpVisitor`].
pub const NOOP_VISITOR_TAG: u64 = 3;

/// A visitor that accepts every field and does nothing with it.
#[derive(Debug)]
pub struct NoOpVisitor;

impl View for NoOpVisitor {
    type V = ();

    open spec fn view(&self) -> () {
        ()
    }
}

impl FieldVisitor for NoOpVisitor {
    open spec fn spec_visitor_tag() -> u64 {
        NOOP_VISITOR_TAG
    }

    open spec fn on_implemented(
        s: (),
        value: Val,
        name: Option<Seq<char>>,
        ty: crate::names::TypeNameV,
    ) -> () {
        ()
    }

    open spec fn on_any(
        s: (),
        value: Val,
        name: Option<Seq<char>>,
        ty: crate::names::TypeNameV,
    ) -> () {
        ()
    }

    fn visitor_tag() -> (t: u64) {
        NOOP_VISITOR_TAG
    }

    fn visit_implemented(
        &mut self,
        _value: &Value,
        _name: Option<&FieldName>,
        _ty: &TypeName,
    ) {
    }

    fn visit_any(&mut self, _value: &Value, _name: Option<&FieldName>, _ty: &TypeName) {
    }
}

} // verus!
