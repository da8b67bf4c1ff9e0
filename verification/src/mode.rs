//! The modes a reflection declaration can name for the build-time
//! generator.

use vstd::prelude::*;

verus! {

/// A flag of a reflection declaration: derive recursively into field types,
/// or go through dynamic (object-safe) dispatch.
#[derive(Debug, Clone, Copy, PartialEq, Eq, Hash)]
pub enum ReflectionMode {
    Recursive,
    Dyn,
}

impl ReflectionMode {
    /// Reads a mode from the identifier that names it; any other identifier
    /// names none.
    pub fn from_ident(ident: &str) -> (r: Option<ReflectionMode>)
        ensures
            r == Some(ReflectionMode::Recursive) <==> ident@ == "recursive"@,
            r == Some(ReflectionMode::Dyn) <==> ident@ == "dyn"@,
            r is None <==> (ident@ != "recursive"@ && ident@ != "dyn"@),
    {
        proof {
            reveal_strlit("recursive");
            reveal_strlit("dyn");
            assert("recursive"@.len() == 9);
            assert("dyn"@.len() == 3);
        }
        let o = ident.to_owned();
        let is_rec = o == String::from_str("recursive");
        let is_dyn = o == String::from_str("dyn");
        if is_rec {
            Some(ReflectionMode::Recursive)
        } else if is_dyn {
            Some(ReflectionMode::Dyn)
        } else {
            None
        }
    }
}

} // verus!
