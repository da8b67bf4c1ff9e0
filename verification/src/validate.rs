//! Validation of an interface derivation: the check that every field of a
//! mirrored type carries the capability the derivation demands.
//!
//! The check runs when the derivation is applied — before any traversal,
//! and before the derived interface is registered for the type — so a type
//! that fails it never becomes a working implementation.  Its failure names
//! the first offending field, that field's declared type, and the
//! interface.

use vstd::prelude::*;

use crate::capability::CapabilityTable;
use crate::mirror::Mirror;
use crate::names::{FieldName, TypeName};
use crate::traverse::spec_opt_name;

verus! {

/// The opaque success marker of a validation: holding one is holding the
/// statement that the checked derivation was admissible.
#[derive(Debug, PartialEq, Eq, Clone, Copy)]
pub struct Validation;

/// A failed validation: either the bare failure, or the report naming the
/// first field whose declared type does not implement the derived
/// interface.
#[derive(Debug)]
pub enum ValidationError {
    Failed,
    DoesntImplement {
        field: Option<FieldName>,
        index: usize,
        field_type: TypeName,
        trait_name: String,
    },
}

/// The diagnostic text of a validation failure.
pub open spec fn spec_message(e: ValidationError) -> Seq<char> {
    match e {
        ValidationError::Failed => "Validation failed"@,
        ValidationError::DoesntImplement { field, field_type, trait_name, .. } => "Field `"@ + (
        match field {
            Some(n) => n@,
            None => "?"@,
        }) + "` of type `"@ + field_type@.in_source + "` does not implement `"@ + trait_name@
            + "`"@,
    }
}

impl ValidationError {
    /// The diagnostic, naming the offending field (`?` for a positional
    /// field), its declared type's source spelling, and the interface.
    pub fn message(&self) -> (r: String)
        ensures
            r@ == spec_message(*self),
    {
        match self {
            ValidationError::Failed => {
                let mut s = String::new();
                s.append("Validation failed");
                s
            },
            ValidationError::DoesntImplement { field, field_type, trait_name, .. } => {
                let mut s = String::new();
                s.append("Field `");
                match field {
                    Some(n) => s.append(n.as_str()),
                    None => s.append("?"),
                }
                s.append("` of type `");
                s.append(field_type.compiletime());
                s.append("` does not implement `");
                s.append(trait_name.as_str());
                s.append("`");
                proof {
                    assert(s@ =~= spec_message(*self));
                }
                s
            },
        }
    }
}

impl Validation {
    /// The marker of a derivation that needs no field check.
    pub fn ok() -> (r: Validation)
        ensures
            r == Validation,
    {
        Validation
    }

    /// The bare failure, for callers with nothing to name.
    pub fn err() -> (r: ValidationError)
        ensures
            r is Failed,
    {
        ValidationError::Failed
    }

    /// The named failure: the offending field's identifier, position, its
    /// declared type, and the interface it lacks.
    pub fn doesnt_implement(
        field_name: Option<&FieldName>,
        index: usize,
        field_type: &TypeName,
        trait_name: &str,
    ) -> (r: ValidationError)
        ensures
            r matches ValidationError::DoesntImplement {
                field,
                index: ri,
                field_type: rt,
                trait_name: rn,
            } && spec_opt_name(field) == crate::traverse::spec_opt_name_ref(field_name) && ri
                == index && rt@ == field_type@ && rn@ == trait_name@,
    {
        ValidationError::DoesntImplement {
            field: match field_name {
                Some(n) => Some(n.clone()),
                None => None,
            },
            index,
            field_type: field_type.clone(),
            trait_name: trait_name.to_owned(),
        }
    }

    /// Walks the mirror's rows in declaration order and succeeds exactly
    /// when every capability flag is set; otherwise fails on the first row
    /// without it, naming the field, its declared type, and the interface
    /// of the given registry.  The flags were fixed when the mirror was
    /// built, so the outcome is decided before any traversal runs.
    pub fn all_fields_impl(mirror: &Mirror, table: &CapabilityTable) -> (r: Result<
        Validation,
        ValidationError,
    >)
        ensures
            r is Ok <==> forall|i: int|
                0 <= i < mirror.spec_metas().len() ==> (#[trigger] mirror.spec_metas()[i])
                    .capability.has_impl,
            r matches Err(e) ==> e matches ValidationError::DoesntImplement {
                field,
                index,
                field_type,
                trait_name,
            } && {
                &&& 0 <= index < mirror.spec_metas().len()
                &&& !mirror.spec_metas()[index as int].capability.has_impl
                &&& forall|i: int|
                    0 <= i < index ==> (#[trigger] mirror.spec_metas()[i]).capability.has_impl
                &&& spec_opt_name(field) == spec_opt_name(
                    mirror.spec_metas()[index as int].name,
                )
                &&& field_type@ == mirror.spec_metas()[index as int].ty@
                &&& trait_name@ == table.spec_trait_name()
            },
    {
        let metas = match &mirror.fields_or_variants {
            crate::mirror::FieldsOrVariants::Struct { fields } => fields,
            crate::mirror::FieldsOrVariants::TupleStruct { fields } => fields,
            crate::mirror::FieldsOrVariants::Enum { variants } => variants,
        };
        let n = metas.len();
        let mut i: usize = 0;
        while i < n
            invariant
                n == metas@.len(),
                0 <= i <= n,
                metas@ == mirror.spec_metas(),
                forall|j: int|
                    0 <= j < i ==> (#[trigger] metas@[j]).capability.has_impl,
            decreases n - i,
        {
            let meta = &metas[i];
            if !meta.capability.has_impl {
                return Err(
                    Validation::doesnt_implement(
                        meta.name.as_ref(),
                        i,
                        &meta.ty,
                        table.trait_name(),
                    ),
                );
            }
            i = i + 1;
        }
        Ok(Validation)
    }
}

/// Applies an interface derivation to a mirrored type in the default,
/// require-all mode: the derivation is admitted exactly when every field
/// carries the capability.  On admission the mirrored type itself is
/// registered as implementing the interface; on failure nothing is
/// registered and the report names the first offending field, its declared
/// type, and the interface.
pub fn derive_interface(table: &mut CapabilityTable, mirror: &Mirror) -> (r: Result<
    Validation,
    ValidationError,
>)
    ensures
        r is Ok <==> forall|i: int|
            0 <= i < mirror.spec_metas().len() ==> (#[trigger] mirror.spec_metas()[i])
                .capability.has_impl,
        r is Ok ==> {
            &&& final(table).spec_registered(mirror.name@.tag)
            &&& forall|t: u64|
                t != mirror.name@.tag ==> final(table).spec_registered(t) == old(
                    table,
                ).spec_registered(t)
            &&& final(table).spec_trait_name() == old(table).spec_trait_name()
        },
        r is Err ==> *final(table) == *old(table),
        r matches Err(e) ==> e matches ValidationError::DoesntImplement {
            field,
            index,
            field_type,
            trait_name,
        } && {
            &&& 0 <= index < mirror.spec_metas().len()
            &&& !mirror.spec_metas()[index as int].capability.has_impl
            &&& forall|i: int|
                0 <= i < index ==> (#[trigger] mirror.spec_metas()[i]).capability.has_impl
            &&& spec_opt_name(field) == spec_opt_name(mirror.spec_metas()[index as int].name)
            &&& field_type@ == mirror.spec_metas()[index as int].ty@
            &&& trait_name@ == old(table).spec_trait_name()
        },
{
    match Validation::all_fields_impl(mirror, table) {
        Ok(v) => {
            table.register(mirror.name.tag());
            Ok(v)
        },
        Err(e) => Err(e),
    }
}

/// The explicit opt-in, permit-missing mode: fields without the capability
/// are admitted — traversal already routes each of them to the visitor's
/// fallback method — and the mirrored type is registered unconditionally.
pub fn derive_interface_permissive(table: &mut CapabilityTable, mirror: &Mirror) -> (r:
    Validation)
    ensures
        final(table).spec_registered(mirror.name@.tag),
        forall|t: u64|
            t != mirror.name@.tag ==> final(table).spec_registered(t) == old(
                table,
            ).spec_registered(t),
        final(table).spec_trait_name() == old(table).spec_trait_name(),
{
    table.register(mirror.name.tag());
    Validation::ok()
}

} // verus!
