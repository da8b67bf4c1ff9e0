//! The per-type metadata table: one mirror per (record type, interface)
//! pair, enumerating every declared field or variant in declaration order
//! with its identifier, its type descriptor, its extractor and its probed
//! capability, together with the erased traversal entry.
//!
//! A mirror is built once, when the reflected type is declared, and never
//! mutated after; traversal only reads it.

use vstd::prelude::*;

use crate::capability::{CapabilityTable, ImplExtractor};
use crate::names::{FieldName, TypeName, TypeNameV};
use crate::traverse::{
    spec_opt_name, FieldTraverser, FieldVisitor, IdentityMismatch, StepKind, TraversalBody,
    TraversalStep,
};
use crate::value::{
    lemma_vals_of_index, lemma_vals_of_len, spec_tag_of, vals_of, TypeError, Val, Value,
};

verus! {

/// Where a field extractor projects from: a record's field list, or the
/// payload of one variant of a sum type, reached only when that variant is
/// the active one.
#[derive(Debug, PartialEq, Eq, Clone, Copy)]
pub enum ExtractorKind {
    RecordField,
    VariantPayload,
}

/// A pure projection from an instance of the owning type to one of its
/// field values.  It borrows, never copies, and it answers with a mismatch
/// report — never by halting — when handed an instance of any other type.
#[derive(Debug, PartialEq, Eq, Clone, Copy)]
pub struct FieldExtractor {
    pub owner_tag: u64,
    pub index: usize,
    pub kind: ExtractorKind,
}

impl FieldExtractor {
    /// Whether the projection is defined on `owner`: the instance belongs
    /// to the owning type and has the projected position — for a variant
    /// payload, that the variant is the active one.
    pub open spec fn spec_applies(&self, owner: Val) -> bool {
        match self.kind {
            ExtractorKind::RecordField => {
                &&& owner matches Val::Record { tag, fields }
                &&& tag == self.owner_tag
                &&& self.index < fields.len()
            },
            ExtractorKind::VariantPayload => {
                &&& owner matches Val::Choice { tag, variant, payload }
                &&& tag == self.owner_tag
                &&& variant == self.index
                &&& payload.len() == 1
            },
        }
    }

    /// The projected value, where the projection is defined.
    pub open spec fn spec_project(&self, owner: Val) -> Val {
        match self.kind {
            ExtractorKind::RecordField => owner->Record_fields[self.index as int],
            ExtractorKind::VariantPayload => owner->Choice_payload[0],
        }
    }

    pub fn new(owner_tag: u64, index: usize, kind: ExtractorKind) -> (r: FieldExtractor)
        ensures
            r == (FieldExtractor { owner_tag, index, kind }),
    {
        FieldExtractor { owner_tag, index, kind }
    }

    /// Projects the field value out of an instance of the owning type; the
    /// reference lives as long as the instance's.  An instance of the wrong
    /// type, shape or active variant is reported as a mismatch.
    pub fn extract<'a>(&self, owner: &'a Value) -> (r: Result<&'a Value, TypeError>)
        ensures
            r is Ok <==> self.spec_applies(owner@),
            r matches Ok(v) ==> v@ == self.spec_project(owner@),
    {
        match (self.kind, owner) {
            (ExtractorKind::RecordField, Value::Record { tag, fields }) => {
                proof {
                    lemma_vals_of_len(fields@);
                }
                if *tag == self.owner_tag && self.index < fields.len() {
                    proof {
                        lemma_vals_of_index(fields@, self.index as int);
                    }
                    Ok(&fields[self.index])
                } else {
                    Err(TypeError)
                }
            },
            (ExtractorKind::VariantPayload, Value::Choice { tag, variant, payload }) => {
                proof {
                    lemma_vals_of_len(payload@);
                }
                if *tag == self.owner_tag && *variant == self.index && payload.len() == 1 {
                    proof {
                        lemma_vals_of_index(payload@, 0);
                    }
                    Ok(&payload[0])
                } else {
                    Err(TypeError)
                }
            },
            _ => Err(TypeError),
        }
    }
}

/// One row of a mirror: a field's (or variant's) identifier, its declared
/// type's descriptor, its extractor, and its capability record.
#[derive(Debug)]
pub struct FieldMeta {
    pub name: Option<FieldName>,
    pub ty: TypeName,
    pub extractor: FieldExtractor,
    pub capability: ImplExtractor,
}

/// The shape of a reflected type: a product type with named fields, one
/// with positional fields, or a sum type with variants.
#[derive(Debug)]
pub enum FieldsOrVariants {
    Struct { fields: Vec<FieldMeta> },
    TupleStruct { fields: Vec<FieldMeta> },
    Enum { variants: Vec<FieldMeta> },
}

impl FieldsOrVariants {
    /// The rows, whichever shape holds them.
    pub open spec fn spec_metas(&self) -> Seq<FieldMeta> {
        match self {
            FieldsOrVariants::Struct { fields } => fields@,
            FieldsOrVariants::TupleStruct { fields } => fields@,
            FieldsOrVariants::Enum { variants } => variants@,
        }
    }

    /// Whether the shape is a sum type, whose traversal discriminates on
    /// the active variant instead of walking every row.
    pub open spec fn spec_is_enum(&self) -> bool {
        self matches FieldsOrVariants::Enum { .. }
    }
}

/// Ghost shape of one traversal yield.
#[verifier::ext_equal]
pub struct FieldEntryV {
    pub name: Option<Seq<char>>,
    pub ty: TypeNameV,
    pub view: Option<Val>,
}

/// One yield of [`Mirror::fields`]: the field's identifier, its type
/// descriptor, and its interface view — present exactly when the field's
/// capability flag was set when the mirror was built.
#[derive(Debug)]
pub struct FieldEntry {
    pub name: Option<FieldName>,
    pub ty: TypeName,
    pub view: Option<Value>,
}

impl View for FieldEntry {
    type V = FieldEntryV;

    open spec fn view(&self) -> FieldEntryV {
        FieldEntryV {
            name: spec_opt_name(self.name),
            ty: self.ty@,
            view: match self.view {
                Some(v) => Some(v@),
                None => None,
            },
        }
    }
}

/// The static per-type metadata table of one (record type, interface) pair:
/// the type's descriptor, the erased traversal entry, and the shape.
#[derive(Debug)]
pub struct Mirror {
    pub name: TypeName,
    pub field_traverser: FieldTraverser,
    pub fields_or_variants: FieldsOrVariants,
}

impl Mirror {
    /// The rows of the shape.
    pub open spec fn spec_metas(&self) -> Seq<FieldMeta> {
        self.fields_or_variants.spec_metas()
    }

    /// The steps of the traversal entry's body, whichever form holds them.
    pub open spec fn spec_steps(&self) -> Seq<TraversalStep> {
        match self.field_traverser.body {
            TraversalBody::Fields(s) => s@,
            TraversalBody::Variants(s) => s@,
        }
    }

    /// Internal consistency, established by the builders and assumed
    /// nowhere: every row's extractor projects exactly its own position out
    /// of the mirrored type; the traversal entry is tagged with the
    /// mirrored type and replays the rows in order, each step committed to
    /// the call path its capability flag selects; named shapes name every
    /// row, the positional shape none.
    pub open spec fn wf(&self) -> bool {
        let metas = self.spec_metas();
        let steps = self.spec_steps();
        &&& self.field_traverser.record_tag == self.name@.tag
        &&& ((self.field_traverser.body is Variants) == self.fields_or_variants.spec_is_enum())
        &&& steps.len() == metas.len()
        &&& forall|i: int|
            0 <= i < metas.len() ==> {
                let e = (#[trigger] metas[i]).extractor;
                &&& e.owner_tag == self.name@.tag
                &&& e.index == i
                &&& e.kind == (if self.fields_or_variants.spec_is_enum() {
                    ExtractorKind::VariantPayload
                } else {
                    ExtractorKind::RecordField
                })
            }
        &&& forall|i: int|
            0 <= i < metas.len() ==> (#[trigger] metas[i]).capability.field_tag == metas[i].ty@.tag
        &&& forall|i: int|
            0 <= i < steps.len() ==> {
                let step = #[trigger] steps[i];
                &&& step.index == i
                &&& spec_opt_name(step.name) == spec_opt_name(metas[i].name)
                &&& step.ty@ == metas[i].ty@
                &&& step.kind == (if metas[i].capability.has_impl {
                    StepKind::Implemented
                } else {
                    StepKind::Any
                })
            }
        &&& match self.fields_or_variants {
            FieldsOrVariants::Struct { .. } => forall|i: int|
                0 <= i < metas.len() ==> (#[trigger] metas[i]).name is Some,
            FieldsOrVariants::TupleStruct { .. } => forall|i: int|
                0 <= i < metas.len() ==> (#[trigger] metas[i]).name is None,
            FieldsOrVariants::Enum { .. } => forall|i: int|
                0 <= i < metas.len() ==> (#[trigger] metas[i]).name is Some,
        }
    }

    /// Agreement with a capability registry: every row's flag is exactly
    /// what probing the row's declared type against that registry yields.
    pub open spec fn wf_for(&self, table: &CapabilityTable) -> bool {
        forall|i: int|
            0 <= i < self.spec_metas().len() ==> (#[trigger] self.spec_metas()[i]).capability.has_impl
                == table.spec_registered(self.spec_metas()[i].ty@.tag)
    }

    /// Whether an instance belongs to the mirrored type and is well-typed
    /// against the shape: a product instance has one value of the declared
    /// type per row, a sum instance an active variant among the rows whose
    /// payload has that variant's declared type.
    pub open spec fn spec_matches(&self, this: Val) -> bool {
        let metas = self.spec_metas();
        if self.fields_or_variants.spec_is_enum() {
            &&& this matches Val::Choice { tag, variant, payload }
            &&& tag == self.name@.tag
            &&& 0 <= variant < metas.len()
            &&& payload.len() == 1
            &&& spec_tag_of(payload[0]) == metas[variant].ty@.tag
        } else {
            &&& this matches Val::Record { tag, fields }
            &&& tag == self.name@.tag
            &&& fields.len() == metas.len()
            &&& forall|i: int|
                0 <= i < metas.len() ==> spec_tag_of(#[trigger] fields[i]) == metas[i].ty@.tag
        }
    }

    /// The entry row `i` yields on `this`.
    pub open spec fn spec_field_entry(&self, this: Val, i: int) -> FieldEntryV {
        let meta = self.spec_metas()[i];
        FieldEntryV {
            name: spec_opt_name(meta.name),
            ty: meta.ty@,
            view: if meta.capability.has_impl {
                Some(meta.extractor.spec_project(this))
            } else {
                None
            },
        }
    }

    /// What traversing `this` yields: one entry per field in declaration
    /// order for a product type; for a sum type, the active variant's entry
    /// alone, after discrimination.
    pub open spec fn spec_fields(&self, this: Val) -> Seq<FieldEntryV> {
        if self.fields_or_variants.spec_is_enum() {
            seq![self.spec_field_entry(this, this->Choice_variant)]
        } else {
            Seq::new(self.spec_metas().len(), |i: int| self.spec_field_entry(this, i))
        }
    }

    /// The rows of the shape.
    pub fn metas(&self) -> (r: &Vec<FieldMeta>)
        ensures
            r@ == self.spec_metas(),
    {
        match &self.fields_or_variants {
            FieldsOrVariants::Struct { fields } => fields,
            FieldsOrVariants::TupleStruct { fields } => fields,
            FieldsOrVariants::Enum { variants } => variants,
        }
    }

    /// Whether `this` belongs to the mirrored type and fits the shape.
    pub fn matches_instance(&self, this: &Value) -> (b: bool)
        ensures
            b == self.spec_matches(this@),
    {
        match (&self.fields_or_variants, this) {
            (FieldsOrVariants::Enum { variants }, Value::Choice { tag, variant, payload }) => {
                proof {
                    lemma_vals_of_len(payload@);
                }
                if *tag != self.name.tag() || *variant >= variants.len() || payload.len() != 1 {
                    return false;
                }
                proof {
                    lemma_vals_of_index(payload@, 0);
                }
                payload[0].type_tag() == variants[*variant].ty.tag()
            },
            (FieldsOrVariants::Struct { fields: metas }, Value::Record { tag, fields })
            | (FieldsOrVariants::TupleStruct { fields: metas }, Value::Record { tag, fields }) => {
                proof {
                    lemma_vals_of_len(fields@);
                }
                if *tag != self.name.tag() || fields.len() != metas.len() {
                    return false;
                }
                let n = metas.len();
                let mut i: usize = 0;
                while i < n
                    invariant
                        n == metas@.len(),
                        0 <= i <= n,
                        n == fields@.len(),
                        self.spec_metas() == metas@,
                        this@ matches Val::Record { tag: rtag, fields: rfields } && rtag
                            == self.name@.tag && rfields == vals_of(fields@),
                        vals_of(fields@).len() == fields@.len(),
                        forall|j: int|
                            0 <= j < i ==> spec_tag_of(#[trigger] vals_of(fields@)[j])
                                == metas@[j].ty@.tag,
                    decreases n - i,
                {
                    proof {
                        lemma_vals_of_index(fields@, i as int);
                    }
                    if fields[i].type_tag() != metas[i].ty.tag() {
                        return false;
                    }
                    i = i + 1;
                }
                true
            },
            _ => false,
        }
    }

    /// The public traversal sequence: one entry per field in declaration
    /// order — identifier, type descriptor, and the interface view exactly
    /// where the field's capability flag was set — derived by applying each
    /// row's extractor and then its capability record.  For a sum type, the
    /// single entry of the active variant.  Restartable: the instance and
    /// the mirror are only read, and the yield is a function of the two.
    pub fn fields(&self, this: &Value) -> (r: Result<Vec<FieldEntry>, TypeError>)
        requires
            self.wf(),
        ensures
            r is Ok <==> self.spec_matches(this@),
            r matches Ok(entries) ==> {
                &&& entries@.len() == self.spec_fields(this@).len()
                &&& forall|i: int|
                    0 <= i < entries@.len() ==> (#[trigger] entries@[i])@ == self.spec_fields(
                        this@,
                    )[i]
            },
    {
        if !self.matches_instance(this) {
            return Err(TypeError);
        }
        match &self.fields_or_variants {
            FieldsOrVariants::Enum { variants } => {
                let active: usize = match this {
                    Value::Choice { variant, .. } => *variant,
                    _ => {
                        proof {
                            assert(false);
                        }
                        0
                    },
                };
                let meta = &variants[active];
                let entry = self.entry_of(meta, this);
                let mut entries: Vec<FieldEntry> = Vec::new();
                entries.push(entry);
                proof {
                    assert(entries@.len() == self.spec_fields(this@).len());
                }
                Ok(entries)
            },
            FieldsOrVariants::Struct { fields: metas } | FieldsOrVariants::TupleStruct {
                fields: metas,
            } => {
                let n = metas.len();
                let mut entries: Vec<FieldEntry> = Vec::new();
                let mut i: usize = 0;
                while i < n
                    invariant
                        n == metas@.len(),
                        0 <= i <= n,
                        self.wf(),
                        self.spec_metas() == metas@,
                        !self.fields_or_variants.spec_is_enum(),
                        self.spec_matches(this@),
                        entries@.len() == i,
                        forall|j: int|
                            0 <= j < i ==> (#[trigger] entries@[j])@ == self.spec_field_entry(
                                this@,
                                j,
                            ),
                    decreases n - i,
                {
                    let entry = self.entry_of(&metas[i], this);
                    entries.push(entry);
                    i = i + 1;
                }
                Ok(entries)
            },
        }
    }

    /// Applies one row to an instance it is known to fit: the extractor
    /// projects the field value, the capability record turns it into the
    /// optional interface view.
    fn entry_of(&self, meta: &FieldMeta, this: &Value) -> (entry: FieldEntry)
        requires
            meta.extractor.spec_applies(this@),
            spec_tag_of(meta.extractor.spec_project(this@)) == meta.capability.field_tag,
        ensures
            entry@ == (FieldEntryV {
                name: spec_opt_name(meta.name),
                ty: meta.ty@,
                view: if meta.capability.has_impl {
                    Some(meta.extractor.spec_project(this@))
                } else {
                    None
                },
            }),
    {
        let field_value = match meta.extractor.extract(this) {
            Ok(v) => v,
            Err(_) => {
                proof {
                    assert(false);
                }
                this
            },
        };
        let view = match meta.capability.extract(field_value) {
            Ok(w) => match w {
                Some(v) => Some(v.clone()),
                None => None,
            },
            Err(_) => {
                proof {
                    assert(false);
                }
                None
            },
        };
        FieldEntry {
            name: match &meta.name {
                Some(n) => Some(n.clone()),
                None => None,
            },
            ty: meta.ty.clone(),
            view,
        }
    }

    /// Hands the instance and the visitor to the mirror's traversal entry:
    /// the per-field calls committed when the mirror was built are replayed
    /// on them, and the visitor comes back with every transition applied.
    /// A record or visitor outside the entry's pairing is refused untouched.
    pub fn visit_fields<V: FieldVisitor>(&self, this: &Value, visitor: V) -> (r: Result<
        V,
        IdentityMismatch,
    >)
        ensures
            r is Ok <==> V::spec_visitor_tag() == self.field_traverser.visitor_tag && spec_tag_of(
                this@,
            ) == self.field_traverser.record_tag && self.field_traverser.spec_fits(this@),
            r matches Ok(v) ==> v@ == crate::traverse::spec_run::<V>(
                self.field_traverser.body,
                this@,
                visitor@,
            ),
    {
        let mut v = visitor;
        match self.field_traverser.try_accept(&mut v, this) {
            Ok(()) => Ok(v),
            Err(e) => Err(e),
        }
    }
}

/// Which shape a mirror is built with.
#[derive(Debug, PartialEq, Eq, Clone, Copy)]
pub enum ShapeKind {
    Struct,
    TupleStruct,
    Enum,
}

/// A field's (or variant's) declaration, as the build-time generator hands
/// it over: the identifier — absent for positional fields — and the
/// declared type's descriptor.
#[derive(Debug)]
pub struct FieldDecl {
    pub name: Option<FieldName>,
    pub ty: TypeName,
}

impl Mirror {
    /// Builds the mirror of one (record type, interface) pair from the
    /// type's declaration: one row per declared field or variant, in
    /// declaration order.  Each row's capability flag is probed here, once,
    /// against the interface registry, and each traversal step is committed
    /// to the call path that flag selects; nothing is re-evaluated at
    /// traversal time.
    pub fn build(
        name: TypeName,
        visitor_tag: u64,
        shape: ShapeKind,
        decls: &Vec<FieldDecl>,
        table: &CapabilityTable,
    ) -> (m: Mirror)
        requires
            shape == ShapeKind::TupleStruct ==> forall|i: int|
                0 <= i < decls@.len() ==> (#[trigger] decls@[i]).name is None,
            shape != ShapeKind::TupleStruct ==> forall|i: int|
                0 <= i < decls@.len() ==> (#[trigger] decls@[i]).name is Some,
        ensures
            m.wf(),
            m.wf_for(table),
            m.name@ == name@,
            m.field_traverser.visitor_tag == visitor_tag,
            m.fields_or_variants.spec_is_enum() <==> shape == ShapeKind::Enum,
            (m.fields_or_variants is Struct) <==> shape == ShapeKind::Struct,
            (m.fields_or_variants is TupleStruct) <==> shape == ShapeKind::TupleStruct,
            m.spec_metas().len() == decls@.len(),
            forall|i: int|
                0 <= i < decls@.len() ==> {
                    let meta = #[trigger] m.spec_metas()[i];
                    &&& spec_opt_name(meta.name) == spec_opt_name(decls@[i].name)
                    &&& meta.ty@ == decls@[i].ty@
                    &&& meta.capability.has_impl == table.spec_registered(decls@[i].ty@.tag)
                },
    {
        let rec_tag = name.tag();
        let kind = match shape {
            ShapeKind::Enum => ExtractorKind::VariantPayload,
            _ => ExtractorKind::RecordField,
        };
        let n = decls.len();
        let mut metas: Vec<FieldMeta> = Vec::new();
        let mut steps: Vec<TraversalStep> = Vec::new();
        let mut i: usize = 0;
        while i < n
            invariant
                n == decls@.len(),
                0 <= i <= n,
                rec_tag == name@.tag,
                kind == (if shape == ShapeKind::Enum {
                    ExtractorKind::VariantPayload
                } else {
                    ExtractorKind::RecordField
                }),
                metas@.len() == i,
                steps@.len() == i,
                forall|j: int|
                    0 <= j < i ==> {
                        let meta = #[trigger] metas@[j];
                        &&& spec_opt_name(meta.name) == spec_opt_name(decls@[j].name)
                        &&& meta.ty@ == decls@[j].ty@
                        &&& meta.extractor == (FieldExtractor {
                            owner_tag: rec_tag,
                            index: meta.extractor.index,
                            kind,
                        })
                        &&& meta.extractor.index == j
                        &&& meta.capability.field_tag == decls@[j].ty@.tag
                        &&& meta.capability.has_impl == table.spec_registered(decls@[j].ty@.tag)
                    },
                forall|j: int|
                    0 <= j < i ==> {
                        let step = #[trigger] steps@[j];
                        &&& step.index == j
                        &&& spec_opt_name(step.name) == spec_opt_name(decls@[j].name)
                        &&& step.ty@ == decls@[j].ty@
                        &&& step.kind == (if metas@[j].capability.has_impl {
                            StepKind::Implemented
                        } else {
                            StepKind::Any
                        })
                    },
            decreases n - i,
        {
            let decl = &decls[i];
            let cap = table.probe(decl.ty.tag());
            let meta_name = match &decl.name {
                Some(nm) => Some(nm.clone()),
                None => None,
            };
            let step_name = match &decl.name {
                Some(nm) => Some(nm.clone()),
                None => None,
            };
            metas.push(
                FieldMeta {
                    name: meta_name,
                    ty: decl.ty.clone(),
                    extractor: FieldExtractor::new(rec_tag, i, kind),
                    capability: ImplExtractor::new(decl.ty.tag(), cap.has_impl),
                },
            );
            steps.push(
                TraversalStep {
                    index: i,
                    name: step_name,
                    ty: decl.ty.clone(),
                    kind: if cap.has_impl {
                        StepKind::Implemented
                    } else {
                        StepKind::Any
                    },
                },
            );
            i = i + 1;
        }
        let body = match shape {
            ShapeKind::Enum => TraversalBody::Variants(steps),
            _ => TraversalBody::Fields(steps),
        };
        let field_traverser = FieldTraverser::new(rec_tag, visitor_tag, body);
        let fields_or_variants = match shape {
            ShapeKind::Struct => FieldsOrVariants::Struct { fields: metas },
            ShapeKind::TupleStruct => FieldsOrVariants::TupleStruct { fields: metas },
            ShapeKind::Enum => FieldsOrVariants::Enum { variants: metas },
        };
        Mirror { name, field_traverser, fields_or_variants }
    }
}

/// Ghost lookup: the mirror whose type has the first occurrence of `tag` at
/// or after position `i`, if any.
pub open spec fn mirror_from(ms: Seq<Mirror>, tag: u64, i: int) -> Option<Mirror>
    decreases ms.len() - i,
{
    if i < 0 || i >= ms.len() {
        None
    } else if ms[i].name@.tag == tag {
        Some(ms[i])
    } else {
        mirror_from(ms, tag, i + 1)
    }
}

/// A later registration never disturbs what an earlier one resolves to.
proof fn lemma_mirror_from_push(ms: Seq<Mirror>, m: Mirror, tag: u64, i: int)
    requires
        0 <= i <= ms.len(),
    ensures
        mirror_from(ms.push(m), tag, i) == (if mirror_from(ms, tag, i) is Some {
            mirror_from(ms, tag, i)
        } else if m.name@.tag == tag {
            Some(m)
        } else {
            None
        }),
    decreases ms.len() - i,
{
    if i == ms.len() {
        assert(ms.push(m)[i] == m);
        assert(mirror_from(ms.push(m), tag, i + 1) is None);
    } else {
        assert(ms.push(m)[i] == ms[i]);
        lemma_mirror_from_push(ms, m, tag, i + 1);
    }
}

/// The table of mirrors, keyed by the mirrored type's identity token: the
/// engine's stand-in for per-type static data.  Filled once, when the
/// reflected types are declared; only read after.
pub struct MirrorRegistry {
    pub mirrors: Vec<Mirror>,
}

impl MirrorRegistry {
    /// The mirror registered for the type `tag` identifies, if any.
    pub open spec fn spec_get(&self, tag: u64) -> Option<Mirror> {
        mirror_from(self.mirrors@, tag, 0)
    }

    /// Every registered mirror is internally consistent.
    pub open spec fn spec_all_wf(&self) -> bool {
        forall|i: int| 0 <= i < self.mirrors@.len() ==> (#[trigger] self.mirrors@[i]).wf()
    }

    pub fn new() -> (r: MirrorRegistry)
        ensures
            forall|tag: u64| r.spec_get(tag) is None,
            r.spec_all_wf(),
    {
        MirrorRegistry { mirrors: Vec::new() }
    }

    /// Registers a mirror under its type's token.  An earlier registration
    /// of the same token keeps precedence.
    pub fn register(&mut self, m: Mirror)
        requires
            m.wf(),
        ensures
            final(self).spec_get(m.name@.tag) == (if old(self).spec_get(m.name@.tag) is Some {
                old(self).spec_get(m.name@.tag)
            } else {
                Some(m)
            }),
            forall|t: u64|
                t != m.name@.tag ==> final(self).spec_get(t) == old(self).spec_get(t),
            old(self).spec_all_wf() ==> final(self).spec_all_wf(),
    {
        let ghost ms0 = self.mirrors@;
        let ghost tag = m.name@.tag;
        self.mirrors.push(m);
        proof {
            let x = self.mirrors@.last();
            assert(self.mirrors@ =~= ms0.push(x));
            lemma_mirror_from_push(ms0, x, tag, 0);
            assert forall|t: u64| t != tag implies self.spec_get(t) == mirror_from(
                ms0,
                t,
                0,
            ) by {
                lemma_mirror_from_push(ms0, x, t, 0);
            }
        }
    }

    /// Looks the token up, yielding the first mirror registered for it.
    pub fn get<'a>(&'a self, tag: u64) -> (r: Option<&'a Mirror>)
        ensures
            match r {
                Some(m) => self.spec_get(tag) == Some(*m),
                None => self.spec_get(tag) is None,
            },
    {
        let n = self.mirrors.len();
        let mut i: usize = 0;
        while i < n
            invariant
                n == self.mirrors@.len(),
                0 <= i <= n,
                mirror_from(self.mirrors@, tag, 0) == mirror_from(self.mirrors@, tag, i as int),
            decreases n - i,
        {
            if self.mirrors[i].name.tag() == tag {
                return Some(&self.mirrors[i]);
            }
            i = i + 1;
        }
        None
    }
}

/// The trace of the first `k` committed per-field calls: one event per row,
/// in row order.
proof fn lemma_record_prefix(m: Mirror, fields: Seq<Val>, k: int)
    requires
        m.wf(),
        m.field_traverser.body is Fields,
        0 <= k <= m.spec_metas().len(),
        fields.len() == m.spec_metas().len(),
    ensures
        ({
            let r = crate::traverse::spec_run_prefix::<crate::traverse::RecordingVisitor>(
                m.spec_steps(),
                fields,
                Seq::<crate::traverse::VisitEventV>::empty(),
                k,
            );
            &&& r.len() == k
            &&& forall|i: int|
                0 <= i < k ==> r[i] == (crate::traverse::VisitEventV {
                    implemented: m.spec_metas()[i].capability.has_impl,
                    value: fields[i],
                    name: spec_opt_name(m.spec_metas()[i].name),
                    ty: m.spec_metas()[i].ty@,
                })
        }),
    decreases k,
{
    if k > 0 {
        lemma_record_prefix(m, fields, k - 1);
        let steps = m.spec_steps();
        let prev = crate::traverse::spec_run_prefix::<crate::traverse::RecordingVisitor>(
            steps,
            fields,
            Seq::<crate::traverse::VisitEventV>::empty(),
            k - 1,
        );
        let r = crate::traverse::spec_run_prefix::<crate::traverse::RecordingVisitor>(
            steps,
            fields,
            Seq::<crate::traverse::VisitEventV>::empty(),
            k,
        );
        let step = steps[k - 1];
        let meta = m.spec_metas()[k - 1];
        assert(step.index == k - 1 && spec_opt_name(step.name) == spec_opt_name(meta.name)
            && step.ty@ == meta.ty@);
        assert(r == crate::traverse::spec_apply_step::<crate::traverse::RecordingVisitor>(
            step,
            fields[k - 1],
            prev,
        ));
        assert(r =~= prev.push(
            crate::traverse::VisitEventV {
                implemented: meta.capability.has_impl,
                value: fields[k - 1],
                name: spec_opt_name(meta.name),
                ty: meta.ty@,
            },
        ));
    }
}

/// A traversal is the mirror's rows replayed in declaration order: recording
/// a product instance's traversal yields exactly one event per declared
/// field — that field's value out of the instance, its identifier and its
/// descriptor — on the call path the row's capability flag committed when
/// the mirror was built.
pub proof fn lemma_traversal_replays_rows(m: Mirror, this: Val)
    requires
        m.wf(),
        m.spec_matches(this),
        !m.fields_or_variants.spec_is_enum(),
    ensures
        ({
            let trace = crate::traverse::spec_run::<crate::traverse::RecordingVisitor>(
                m.field_traverser.body,
                this,
                Seq::<crate::traverse::VisitEventV>::empty(),
            );
            &&& trace.len() == m.spec_metas().len()
            &&& forall|i: int|
                0 <= i < trace.len() ==> trace[i] == (crate::traverse::VisitEventV {
                    implemented: m.spec_metas()[i].capability.has_impl,
                    value: this->Record_fields[i],
                    name: spec_opt_name(m.spec_metas()[i].name),
                    ty: m.spec_metas()[i].ty@,
                })
        }),
{
    let fields = this->Record_fields;
    lemma_record_prefix(m, fields, m.spec_metas().len() as int);
}

/// The sum-type counterpart: recording a traversal yields the one event of
/// the active variant, after discrimination, on its committed call path.
pub proof fn lemma_traversal_replays_active_variant(m: Mirror, this: Val)
    requires
        m.wf(),
        m.spec_matches(this),
        m.fields_or_variants.spec_is_enum(),
    ensures
        ({
            let trace = crate::traverse::spec_run::<crate::traverse::RecordingVisitor>(
                m.field_traverser.body,
                this,
                Seq::<crate::traverse::VisitEventV>::empty(),
            );
            let variant = this->Choice_variant;
            trace =~= seq![
                crate::traverse::VisitEventV {
                    implemented: m.spec_metas()[variant].capability.has_impl,
                    value: this->Choice_payload[0],
                    name: spec_opt_name(m.spec_metas()[variant].name),
                    ty: m.spec_metas()[variant].ty@,
                },
            ]
        }),
{
    let variant = this->Choice_variant;
    let step = m.spec_steps()[variant];
    let meta = m.spec_metas()[variant];
    assert(step.index == variant && spec_opt_name(step.name) == spec_opt_name(meta.name)
        && step.ty@ == meta.ty@);
}

/// Traversal yields are a function of the mirror and the instance alone:
/// any two yields for the same pair are one.  Both arguments are only read
/// — the signatures of [`Mirror::fields`] take them by shared reference —
/// so repeating a traversal can disturb neither the instance nor the table.
pub proof fn lemma_fields_repeatable(m: Mirror, this: Val, r1: Seq<FieldEntryV>, r2: Seq<
    FieldEntryV,
>)
    requires
        r1 == m.spec_fields(this),
        r2 == m.spec_fields(this),
    ensures
        r1 == r2,
{
}

/// A product instance's traversal yields exactly one entry per declared
/// field, in declaration order, each carrying that field's identifier and
/// type descriptor.
pub proof fn lemma_fields_shape(m: Mirror, this: Val)
    requires
        m.wf(),
        m.spec_matches(this),
        !m.fields_or_variants.spec_is_enum(),
    ensures
        m.spec_fields(this).len() == m.spec_metas().len(),
        forall|i: int|
            0 <= i < m.spec_metas().len() ==> (#[trigger] m.spec_fields(this)[i]).ty
                == m.spec_metas()[i].ty@ && m.spec_fields(this)[i].name == spec_opt_name(
                m.spec_metas()[i].name,
            ),
{
}

} // verus!
