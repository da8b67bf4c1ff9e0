//! The type-erased traversal dispatcher.
//!
//! A mirror must be one non-generic value, yet it carries a per-type
//! traversal whose body is a fixed sequence of per-field calls, each already
//! committed to one of two call paths.  The dispatcher therefore stores that
//! body as data — one step per field, holding the field's position, its
//! identifier and descriptor, and the chosen path — together with an
//! identity tag for the exact (record type, visitor type) pairing the body
//! was built for.  Invoking the entry first holds the live identities of the
//! arguments against the stored tags; only on a match is the body replayed.

use vstd::prelude::*;

use crate::names::{FieldName, TypeName, TypeNameV};
use crate::value::{
    lemma_vals_of_index, lemma_vals_of_len, spec_tag_of, vals_of, Val, Value,
};

verus! {

/// The ghost identifier of an optional field name.
pub open spec fn spec_opt_name(name: Option<FieldName>) -> Option<Seq<char>> {
    match name {
        Some(n) => Some(n@),
        None => None,
    }
}

/// A visitor over the fields of a record instance: the consumer's side of a
/// traversal.  One of the two methods is invoked per field — the first where
/// the field's type was found to satisfy the interface, the second where it
/// was not — with the choice fixed when the mirror was built.
///
/// The two spec functions give the visitor's transition on each path, over
/// its view; every implementation states through them what its methods do.
/// The identity token distinguishes visitor types at dispatch time.
pub trait FieldVisitor: View + Sized {
    /// The identity token of this visitor type.
    spec fn spec_visitor_tag() -> u64;

    /// The transition [`Self::visit_implemented`] performs on the view.
    spec fn on_implemented(s: Self::V, value: Val, name: Option<Seq<char>>, ty: TypeNameV)
        -> Self::V;

    /// The transition [`Self::visit_any`] performs on the view.
    spec fn on_any(s: Self::V, value: Val, name: Option<Seq<char>>, ty: TypeNameV) -> Self::V;

    /// The live identity token, for the dispatcher's runtime check.
    fn visitor_tag() -> (t: u64)
        ensures
            t == Self::spec_visitor_tag(),
    ;

    /// Visits a field whose type satisfies the interface.
    fn visit_implemented(&mut self, value: &Value, name: Option<&FieldName>, ty: &TypeName)
        ensures
            final(self)@ == Self::on_implemented(
                old(self)@,
                value@,
                spec_opt_name_ref(name),
                ty@,
            ),
    ;

    /// Visits a field whose type does not.
    fn visit_any(&mut self, value: &Value, name: Option<&FieldName>, ty: &TypeName)
        ensures
            final(self)@ == Self::on_any(old(self)@, value@, spec_opt_name_ref(name), ty@),
    ;
}

/// The ghost identifier of an optional borrowed field name.
pub open spec fn spec_opt_name_ref(name: Option<&FieldName>) -> Option<Seq<char>> {
    match name {
        Some(n) => Some(n@),
        None => None,
    }
}

/// The call path for a field without the capability: hands the erased value
/// to the visitor's fallback method.
pub struct AnyVisitorAcceptor;

impl AnyVisitorAcceptor {
    pub fn accept<V: FieldVisitor>(
        self,
        field_value: &Value,
        field_name: Option<&FieldName>,
        field_type: &TypeName,
        visitor: &mut V,
    )
        ensures
            final(visitor)@ == V::on_any(
                old(visitor)@,
                field_value@,
                spec_opt_name_ref(field_name),
                field_type@,
            ),
    {
        visitor.visit_any(field_value, field_name, field_type);
    }
}

/// The call path for a field with the capability: hands the value to the
/// visitor's interface-aware method.
pub struct ImplementedVisitorAcceptor;

impl ImplementedVisitorAcceptor {
    pub fn accept<V: FieldVisitor>(
        self,
        field_value: &Value,
        field_name: Option<&FieldName>,
        field_type: &TypeName,
        visitor: &mut V,
    )
        ensures
            final(visitor)@ == V::on_implemented(
                old(visitor)@,
                field_value@,
                spec_opt_name_ref(field_name),
                field_type@,
            ),
    {
        visitor.visit_implemented(field_value, field_name, field_type);
    }
}

/// Which of the two call paths a step takes: committed when the mirror is
/// built, from the field's capability flag, never decided by the traversal.
#[derive(Debug, PartialEq, Eq, Clone, Copy)]
pub enum StepKind {
    Implemented,
    Any,
}

/// One per-field call of a traversal body: the field's position in the
/// instance, its declared identifier and type descriptor, and the call path.
#[derive(Debug)]
pub struct TraversalStep {
    pub index: usize,
    pub name: Option<FieldName>,
    pub ty: TypeName,
    pub kind: StepKind,
}

/// A traversal body: the per-field steps of a product type, run in order;
/// or the per-variant steps of a sum type, of which exactly one — the active
/// variant's — is run after discrimination.
#[derive(Debug)]
pub enum TraversalBody {
    Fields(Vec<TraversalStep>),
    Variants(Vec<TraversalStep>),
}

/// What one step does to a visitor's view, given the value it extracted.
pub open spec fn spec_apply_step<V: FieldVisitor>(
    step: TraversalStep,
    value: Val,
    s: V::V,
) -> V::V {
    match step.kind {
        StepKind::Implemented => V::on_implemented(s, value, spec_opt_name(step.name), step.ty@),
        StepKind::Any => V::on_any(s, value, spec_opt_name(step.name), step.ty@),
    }
}

/// The visitor's view after the first `n` steps over a record's fields.
pub open spec fn spec_run_prefix<V: FieldVisitor>(
    steps: Seq<TraversalStep>,
    fields: Seq<Val>,
    s0: V::V,
    n: int,
) -> V::V
    decreases n,
{
    if n <= 0 {
        s0
    } else {
        spec_apply_step::<V>(
            steps[n - 1],
            fields[steps[n - 1].index as int],
            spec_run_prefix::<V>(steps, fields, s0, n - 1),
        )
    }
}

/// The full replay of a traversal body on an instance: every field step in
/// order for a product type, the active variant's single step for a sum
/// type.
pub open spec fn spec_run<V: FieldVisitor>(body: TraversalBody, this: Val, s0: V::V) -> V::V {
    match body {
        TraversalBody::Fields(steps) => match this {
            Val::Record { fields, .. } => spec_run_prefix::<V>(
                steps@,
                fields,
                s0,
                steps@.len() as int,
            ),
            _ => s0,
        },
        TraversalBody::Variants(arms) => match this {
            Val::Choice { variant, payload, .. } => {
                if 0 <= variant < arms@.len() {
                    spec_apply_step::<V>(arms@[variant], payload[0], s0)
                } else {
                    s0
                }
            },
            _ => s0,
        },
    }
}

/// The identity token of [`RecordingVisitor`].
pub const RECORDING_VISITOR_TAG: u64 = 1;

/// Ghost shape of one recorded visit.
#[verifier::ext_equal]
pub struct VisitEventV {
    pub implemented: bool,
    pub value: Val,
    pub name: Option<Seq<char>>,
    pub ty: TypeNameV,
}

/// One recorded visit: which call path ran, and the value, identifier and
/// descriptor it was handed.
#[derive(Debug)]
pub struct VisitEvent {
    pub implemented: bool,
    pub value: Value,
    pub name: Option<FieldName>,
    pub ty: TypeName,
}

impl View for VisitEvent {
    type V = VisitEventV;

    open spec fn view(&self) -> VisitEventV {
        VisitEventV {
            implemented: self.implemented,
            value: self.value@,
            name: spec_opt_name(self.name),
            ty: self.ty@,
        }
    }
}

/// A visitor that does nothing but write down, in order, every visit it
/// receives: the observable trace of a traversal.
#[derive(Debug)]
pub struct RecordingVisitor {
    events: Vec<VisitEvent>,
}

impl View for RecordingVisitor {
    type V = Seq<VisitEventV>;

    closed spec fn view(&self) -> Seq<VisitEventV> {
        Seq::new(self.events@.len(), |i: int| self.events@[i]@)
    }
}

impl RecordingVisitor {
    /// A visitor with an empty trace.
    pub fn new() -> (r: RecordingVisitor)
        ensures
            r@ == Seq::<VisitEventV>::empty(),
    {
        let r = RecordingVisitor { events: Vec::new() };
        proof {
            assert(r@ =~= Seq::<VisitEventV>::empty());
        }
        r
    }

    /// The trace so far, in visit order.
    pub fn events(&self) -> (r: &Vec<VisitEvent>)
        ensures
            r@.len() == self@.len(),
            forall|i: int| 0 <= i < r@.len() ==> (#[trigger] r@[i])@ == self@[i],
    {
        &self.events
    }
}

impl FieldVisitor for RecordingVisitor {
    open spec fn spec_visitor_tag() -> u64 {
        RECORDING_VISITOR_TAG
    }

    open spec fn on_implemented(
        s: Seq<VisitEventV>,
        value: Val,
        name: Option<Seq<char>>,
        ty: TypeNameV,
    ) -> Seq<VisitEventV> {
        s.push(VisitEventV { implemented: true, value, name, ty })
    }

    open spec fn on_any(
        s: Seq<VisitEventV>,
        value: Val,
        name: Option<Seq<char>>,
        ty: TypeNameV,
    ) -> Seq<VisitEventV> {
        s.push(VisitEventV { implemented: false, value, name, ty })
    }

    fn visitor_tag() -> (t: u64) {
        RECORDING_VISITOR_TAG
    }

    fn visit_implemented(&mut self, value: &Value, name: Option<&FieldName>, ty: &TypeName) {
        self.events.push(
            VisitEvent {
                implemented: true,
                value: value.clone(),
                name: match name {
                    Some(n) => Some(n.clone()),
                    None => None,
                },
                ty: ty.clone(),
            },
        );
        proof {
            assert(self@ =~= Self::on_implemented(old(self)@, value@, spec_opt_name_ref(name), ty@));
        }
    }

    fn visit_any(&mut self, value: &Value, name: Option<&FieldName>, ty: &TypeName) {
        self.events.push(
            VisitEvent {
                implemented: false,
                value: value.clone(),
                name: match name {
                    Some(n) => Some(n.clone()),
                    None => None,
                },
                ty: ty.clone(),
            },
        );
        proof {
            assert(self@ =~= Self::on_any(old(self)@, value@, spec_opt_name_ref(name), ty@));
        }
    }
}

/// A pairing-mismatch report: a traversal entry was invoked with a record or
/// visitor other than the pair it was built for.  This marks a broken
/// caller, not a data condition; callers outside generated code stop on it.
#[derive(Debug, PartialEq, Eq, Clone, Copy)]
pub struct IdentityMismatch;

/// An erased traversal entry: the per-field call sequence of one record
/// type, stored as plain data behind the identity tags of the exact
/// (record type, visitor type) pairing it was built for.
#[derive(Debug)]
pub struct FieldTraverser {
    pub record_tag: u64,
    pub visitor_tag: u64,
    pub body: TraversalBody,
}

impl FieldTraverser {
    /// Whether an instance has the shape this entry's body was built
    /// against: the record's identity and every step's field position, or
    /// the sum type's identity and active variant.
    pub open spec fn spec_fits(&self, this: Val) -> bool {
        match self.body {
            TraversalBody::Fields(steps) => {
                &&& this matches Val::Record { tag, fields }
                &&& tag == self.record_tag
                &&& forall|i: int|
                    0 <= i < steps@.len() ==> (#[trigger] steps@[i]).index < fields.len()
            },
            TraversalBody::Variants(arms) => {
                &&& this matches Val::Choice { tag, variant, payload }
                &&& tag == self.record_tag
                &&& 0 <= variant < arms@.len()
                &&& payload.len() == 1
            },
        }
    }

    /// Erases a traversal body: the steps refer to fields by position only,
    /// and the pairing they were generated for survives only in the two
    /// identity tags.
    pub fn new(record_tag: u64, visitor_tag: u64, body: TraversalBody) -> (r: FieldTraverser)
        ensures
            r == (FieldTraverser { record_tag, visitor_tag, body }),
    {
        FieldTraverser { record_tag, visitor_tag, body }
    }

    /// The runtime shape check behind [`FieldTraverser::try_accept`].
    pub fn fits(&self, this: &Value) -> (b: bool)
        ensures
            b == self.spec_fits(this@),
    {
        match (&self.body, this) {
            (TraversalBody::Fields(steps), Value::Record { tag, fields }) => {
                proof {
                    lemma_vals_of_len(fields@);
                }
                if *tag != self.record_tag {
                    return false;
                }
                let n = steps.len();
                let mut i: usize = 0;
                while i < n
                    invariant
                        n == steps@.len(),
                        0 <= i <= n,
                        self.body matches TraversalBody::Fields(s) && s@ == steps@,
                        this@ matches Val::Record { tag: rtag, fields: rfields } && rtag
                            == self.record_tag && rfields == vals_of(fields@),
                        vals_of(fields@).len() == fields@.len(),
                        forall|j: int|
                            0 <= j < i ==> (#[trigger] steps@[j]).index < fields@.len(),
                    decreases n - i,
                {
                    if steps[i].index >= fields.len() {
                        return false;
                    }
                    i = i + 1;
                }
                true
            },
            (TraversalBody::Variants(arms), Value::Choice { tag, variant, payload }) => {
                proof {
                    lemma_vals_of_len(payload@);
                }
                *tag == self.record_tag && *variant < arms.len() && payload.len() == 1
            },
            _ => false,
        }
    }

    /// Replays the stored body on an instance of the exact pairing the entry
    /// was built for: every step reaches the visitor with the original
    /// references, through the call path committed at build time.
    ///
    /// The pairing is a precondition here; generated code meets it by
    /// construction.  [`FieldTraverser::try_accept`] is the entry that
    /// checks it at runtime.
    pub fn accept<V: FieldVisitor>(&self, field_visitor: &mut V, this: &Value)
        requires
            V::spec_visitor_tag() == self.visitor_tag,
            self.spec_fits(this@),
        ensures
            final(field_visitor)@ == spec_run::<V>(self.body, this@, old(field_visitor)@),
    {
        match (&self.body, this) {
            (TraversalBody::Fields(steps), Value::Record { fields, .. }) => {
                let ghost s0 = field_visitor@;
                let ghost fvals = vals_of(fields@);
                proof {
                    lemma_vals_of_len(fields@);
                }
                let n = steps.len();
                let mut i: usize = 0;
                while i < n
                    invariant
                        n == steps@.len(),
                        0 <= i <= n,
                        fvals == vals_of(fields@),
                        fvals.len() == fields@.len(),
                        forall|j: int|
                            0 <= j < n ==> (#[trigger] steps@[j]).index < fields@.len(),
                        field_visitor@ == spec_run_prefix::<V>(steps@, fvals, s0, i as int),
                    decreases n - i,
                {
                    let step = &steps[i];
                    let fv = &fields[step.index];
                    proof {
                        lemma_vals_of_index(fields@, step.index as int);
                    }
                    match step.kind {
                        StepKind::Implemented => {
                            ImplementedVisitorAcceptor.accept(
                                fv,
                                step.name.as_ref(),
                                &step.ty,
                                field_visitor,
                            );
                        },
                        StepKind::Any => {
                            AnyVisitorAcceptor.accept(
                                fv,
                                step.name.as_ref(),
                                &step.ty,
                                field_visitor,
                            );
                        },
                    }
                    proof {
                        assert(field_visitor@ == spec_apply_step::<V>(
                            steps@[i as int],
                            fvals[steps@[i as int].index as int],
                            spec_run_prefix::<V>(steps@, fvals, s0, i as int),
                        ));
                    }
                    i = i + 1;
                }
            },
            (TraversalBody::Variants(arms), Value::Choice { variant, payload, .. }) => {
                proof {
                    lemma_vals_of_len(payload@);
                    lemma_vals_of_index(payload@, 0);
                }
                let step = &arms[*variant];
                let pv = &payload[0];
                match step.kind {
                    StepKind::Implemented => {
                        ImplementedVisitorAcceptor.accept(
                            pv,
                            step.name.as_ref(),
                            &step.ty,
                            field_visitor,
                        );
                    },
                    StepKind::Any => {
                        AnyVisitorAcceptor.accept(pv, step.name.as_ref(), &step.ty, field_visitor);
                    },
                }
            },
            _ => {
                proof {
                    assert(false);
                }
            },
        }
    }

    /// The identity-checked entry point: holds the live identities of both
    /// arguments against the stored pairing, refuses on any difference
    /// — leaving the visitor untouched, never running a step against the
    /// wrong pairing — and otherwise replays the body exactly as
    /// [`FieldTraverser::accept`] does.
    pub fn try_accept<V: FieldVisitor>(&self, field_visitor: &mut V, this: &Value) -> (r: Result<
        (),
        IdentityMismatch,
    >)
        ensures
            r is Ok <==> V::spec_visitor_tag() == self.visitor_tag && spec_tag_of(this@)
                == self.record_tag && self.spec_fits(this@),
            r is Ok ==> final(field_visitor)@ == spec_run::<V>(
                self.body,
                this@,
                old(field_visitor)@,
            ),
            r is Err ==> final(field_visitor)@ == old(field_visitor)@,
    {
        if V::visitor_tag() != self.visitor_tag {
            return Err(IdentityMismatch);
        }
        if this.type_tag() != self.record_tag {
            return Err(IdentityMismatch);
        }
        if !self.fits(this) {
            return Err(IdentityMismatch);
        }
        self.accept(field_visitor, this);
        Ok(())
    }
}

} // verus!
