//! A reflection and capability-dispatch engine over a closed universe of
//! erased values.
//!
//! Given a record type (a product type with named or positional fields, or a
//! sum type with variants), the engine holds a static description of the
//! type's shape — a mirror — and, for each field, a capability flag saying
//! whether the field's type satisfies a chosen interface.  A caller can then
//! traverse the fields of any instance in declaration order and have one of
//! two callbacks invoked per field, with the choice fixed when the mirror was
//! built rather than decided by the traversal.
//!
//! Type identity is carried by plain tokens; capability detection goes
//! through an explicit registry, queried once per field when a mirror is
//! built.

pub mod capability;
pub mod fmt;
pub mod mirror;
pub mod mode;
pub mod names;
pub mod show;
pub mod traverse;
pub mod validate;
pub mod value;
pub mod zerde;

pub use capability::{Capability, CapabilityTable, ImplExtractor};
pub use mirror::{
    ExtractorKind, FieldDecl, FieldEntry, FieldExtractor, FieldMeta, FieldsOrVariants, Mirror,
    MirrorRegistry, ShapeKind,
};
pub use mode::ReflectionMode;
pub use names::{FieldName, TypeName, TypeRegistry};
pub use show::{print_record, print_value, DeriveShowVisitor, Show};
pub use traverse::{
    AnyVisitorAcceptor, FieldTraverser, FieldVisitor, IdentityMismatch,
    ImplementedVisitorAcceptor, RecordingVisitor, StepKind, TraversalBody, TraversalStep,
    VisitEvent,
};
pub use validate::{derive_interface, derive_interface_permissive, Validation, ValidationError};
pub use value::{TypeError, Val, Value};
pub use zerde::{to_json, NoOpVisitor, Zerde};
