//! Capability detection: deciding, for a (type, interface) pair, whether the
//! type satisfies the interface, without the type's cooperation.
//!
//! Detection goes through an explicit registry: every type that implements
//! the interface is registered, by its identity token, when the interface is
//! declared.  A probe then resolves between two candidate views of a value —
//! the fallback view, always applicable, whose capability flag is `false`,
//! and the specific view, applicable exactly when the pair is registered,
//! whose flag is `true` — and the specific view wins whenever both apply.

use vstd::prelude::*;

use crate::value::{spec_tag_of, TypeError, Value};

verus! {

/// The outcome of a capability probe for one (type, interface) pair: which
/// of the two candidate views was selected.
#[derive(Debug, PartialEq, Eq, Clone, Copy)]
pub struct Capability {
    /// True exactly when the specific view was selected, that is, when the
    /// probed type is registered as implementing the probed interface.
    pub has_impl: bool,
}

impl Capability {
    /// The view selected when the pair is registered.
    pub open spec fn spec_specific() -> Capability {
        Capability { has_impl: true }
    }

    /// The always-applicable view: it reports no implementation.
    pub open spec fn spec_fallback() -> Capability {
        Capability { has_impl: false }
    }

    /// The candidate view used when the probed type is registered.
    pub fn specific() -> (c: Capability)
        ensures
            c == Capability::spec_specific(),
    {
        Capability { has_impl: true }
    }

    /// The candidate view used when it is not.
    pub fn fallback() -> (c: Capability)
        ensures
            c == Capability::spec_fallback(),
    {
        Capability { has_impl: false }
    }
}

/// The registry of one interface: its name, and the identity tokens of every
/// type registered as implementing it.  It stands in for the language's
/// implementation-selection rules: a pair is capable exactly when it was
/// registered, and registration happens once, when the interface and its
/// implementations are declared.
pub struct CapabilityTable {
    trait_name: String,
    impls: Vec<u64>,
}

impl CapabilityTable {
    /// Whether the type `tag` identifies is registered as implementing this
    /// interface.
    pub closed spec fn spec_registered(&self, tag: u64) -> bool {
        self.impls@.contains(tag)
    }

    /// The interface's name, as used in diagnostics.
    pub closed spec fn spec_trait_name(&self) -> Seq<char> {
        self.trait_name@
    }

    /// What a probe of `tag` resolves to.
    pub open spec fn spec_probe(&self, tag: u64) -> Capability {
        if self.spec_registered(tag) {
            Capability::spec_specific()
        } else {
            Capability::spec_fallback()
        }
    }

    /// An interface registry with the given name and no implementations yet.
    pub fn new(trait_name: &str) -> (r: CapabilityTable)
        ensures
            r.spec_trait_name() == trait_name@,
            forall|tag: u64| !r.spec_registered(tag),
    {
        let r = CapabilityTable { trait_name: trait_name.to_owned(), impls: Vec::new() };
        proof {
            assert(forall|tag: u64| !r.impls@.contains(tag));
        }
        r
    }

    /// Registers the type `tag` identifies as implementing this interface.
    pub fn register(&mut self, tag: u64)
        ensures
            final(self).spec_trait_name() == old(self).spec_trait_name(),
            final(self).spec_registered(tag),
            forall|t: u64| old(self).spec_registered(t) ==> final(self).spec_registered(t),
            forall|t: u64| t != tag ==> final(self).spec_registered(t) == old(
                self,
            ).spec_registered(t),
    {
        let ghost impls0 = self.impls@;
        self.impls.push(tag);
        proof {
            assert(self.impls@.last() == tag);
            assert(self.impls@.contains(tag));
            assert forall|t: u64| impls0.contains(t) implies self.impls@.contains(t) by {
                let i = choose|i: int| 0 <= i < impls0.len() && impls0[i] == t;
                assert(self.impls@[i] == t);
            }
            assert forall|t: u64| t != tag && self.impls@.contains(t) implies impls0.contains(
                t,
            ) by {
                let i = choose|i: int| 0 <= i < self.impls@.len() && self.impls@[i] == t;
                assert(i < impls0.len());
                assert(impls0[i] == t);
            }
        }
    }

    /// The interface's name.
    pub fn trait_name(&self) -> (r: &str)
        ensures
            r@ == self.spec_trait_name(),
    {
        self.trait_name.as_str()
    }

    /// Whether the type `tag` identifies is registered.
    pub fn registered(&self, tag: u64) -> (r: bool)
        ensures
            r == self.spec_registered(tag),
    {
        let n = self.impls.len();
        let mut i: usize = 0;
        while i < n
            invariant
                n == self.impls@.len(),
                0 <= i <= n,
                forall|j: int| 0 <= j < i ==> self.impls@[j] != tag,
            decreases n - i,
        {
            if self.impls[i] == tag {
                return true;
            }
            i = i + 1;
        }
        proof {
            assert(!self.impls@.contains(tag));
        }
        false
    }

    /// Resolves the capability of the type `tag` identifies against this
    /// interface.  Both candidate views are at hand; when the pair is
    /// registered both apply, and the specific one deterministically wins.
    pub fn probe(&self, tag: u64) -> (c: Capability)
        ensures
            c == self.spec_probe(tag),
    {
        let fallback = Capability::fallback();
        if self.registered(tag) {
            Capability::specific()
        } else {
            fallback
        }
    }

    /// The conversion half of the probe's outcome: the interface view of a
    /// value, present exactly when the value's type is registered.  The
    /// unregistered path yields the empty outcome without inspecting the
    /// value further.
    pub fn to_view<'a>(&self, value: &'a Value) -> (r: Option<&'a Value>)
        ensures
            r is Some <==> self.spec_registered(spec_tag_of(value@)),
            r matches Some(w) ==> w == value,
    {
        if self.registered(value.type_tag()) {
            Some(value)
        } else {
            None
        }
    }
}

/// For every (type, interface) pair, the probe selects exactly one of the
/// two candidate views — the specific one, with a `true` flag, exactly when
/// the pair is registered, and the fallback, with a `false` flag, otherwise —
/// and the selection is a pure function of the pair, stable across calls.
pub proof fn lemma_probe_exclusive(t: CapabilityTable, tag: u64)
    ensures
        t.spec_probe(tag) == Capability::spec_specific() <==> t.spec_registered(tag),
        t.spec_probe(tag) == Capability::spec_fallback() <==> !t.spec_registered(tag),
        Capability::spec_specific() != Capability::spec_fallback(),
{
}

/// A field's capability record: the declared type's identity token, and the
/// probe's flag for it, fixed when the owning mirror was built and never
/// re-evaluated at traversal time.
#[derive(Debug, PartialEq, Eq, Clone, Copy)]
pub struct ImplExtractor {
    /// Identity token of the field's declared type.
    pub field_tag: u64,
    /// The capability flag the probe yielded when the mirror was built.
    pub has_impl: bool,
}

/// What [`ImplExtractor::extract`] yields: a mismatch report for a value of
/// the wrong type, otherwise the interface view exactly when the flag is set.
pub open spec fn spec_impl_extract(e: ImplExtractor, v: crate::value::Val) -> Result<
    Option<crate::value::Val>,
    TypeError,
> {
    if spec_tag_of(v) != e.field_tag {
        Err(TypeError)
    } else if e.has_impl {
        Ok(Some(v))
    } else {
        Ok(None)
    }
}

impl ImplExtractor {
    /// Pairs a declared type's token with its probed capability flag.
    pub fn new(field_tag: u64, has_impl: bool) -> (r: ImplExtractor)
        ensures
            r == (ImplExtractor { field_tag, has_impl }),
    {
        ImplExtractor { field_tag, has_impl }
    }

    /// The interface view of a field value: empty when the flag is unset —
    /// that path never attempts the conversion — and the value itself, as
    /// witness of the capability, when it is set.  A value of a type other
    /// than the declared one is a mismatch.
    pub fn extract<'a>(&self, value: &'a Value) -> (r: Result<Option<&'a Value>, TypeError>)
        ensures
            match r {
                Ok(w) => spec_impl_extract(*self, value@) == Ok::<Option<crate::value::Val>,
                TypeError>(match w {
                    Some(x) => Some(x@),
                    None => None,
                }),
                Err(e) => spec_impl_extract(*self, value@) == Err::<Option<crate::value::Val>,
                TypeError>(e),
            },
            r matches Ok(Some(w)) ==> w == value,
            r is Ok <==> spec_tag_of(value@) == self.field_tag,
            r matches Ok(w) ==> (w is Some <==> self.has_impl),
    {
        if value.type_tag() != self.field_tag {
            Err(TypeError)
        } else if self.has_impl {
            Ok(Some(value))
        } else {
            Ok(None)
        }
    }
}

/// For a value of the declared type, the extraction outcome is decided by
/// the flag alone: a set flag always yields the view, an unset flag always
/// yields the empty outcome, never a view.
pub proof fn lemma_capability_view(e: ImplExtractor, v: crate::value::Val)
    requires
        spec_tag_of(v) == e.field_tag,
    ensures
        e.has_impl ==> spec_impl_extract(e, v) == Ok::<Option<crate::value::Val>, TypeError>(
            Some(v),
        ),
        !e.has_impl ==> spec_impl_extract(e, v) == Ok::<Option<crate::value::Val>, TypeError>(
            None,
        ),
{
}

} // verus!
