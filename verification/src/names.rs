//! Names and identity: field identifiers, type descriptors, and the registry
//! that resolves a type's canonical runtime name from its identity token.

use vstd::prelude::*;

verus! {

/// The identifier a field or variant carries at its declaration site.
/// Positional (tuple) fields have none, so shapes hold an `Option<FieldName>`.
#[derive(Debug)]
pub struct FieldName(pub String);

impl View for FieldName {
    type V = Seq<char>;

    open spec fn view(&self) -> Seq<char> {
        self.0@
    }
}

impl Clone for FieldName {
    fn clone(&self) -> (res: Self)
        ensures
            res@ == self@,
    {
        FieldName(self.0.clone())
    }
}

impl FieldName {
    pub fn from_str(name: &str) -> (r: FieldName)
        ensures
            r@ == name@,
    {
        FieldName(name.to_owned())
    }

    pub fn as_str(&self) -> (r: &str)
        ensures
            r@ == self@,
    {
        self.0.as_str()
    }
}

/// Ghost shape of a [`TypeName`]: the declaration-site spelling and the
/// identity token of the type it names.
#[verifier::ext_equal]
pub struct TypeNameV {
    pub in_source: Seq<char>,
    pub tag: u64,
}

/// A compile-time name paired with the identity token through which the
/// canonical runtime name is resolved.
///
/// Invariant: both names denote one type, the one the token identifies.  The
/// source spelling is fixed at construction; the runtime name is resolved
/// lazily, on demand, through a [`TypeRegistry`].
#[derive(Debug)]
pub struct TypeName {
    in_source: String,
    tag: u64,
}

impl View for TypeName {
    type V = TypeNameV;

    closed spec fn view(&self) -> TypeNameV {
        TypeNameV { in_source: self.in_source@, tag: self.tag }
    }
}

impl Clone for TypeName {
    fn clone(&self) -> (res: Self)
        ensures
            res@ == self@,
    {
        TypeName { in_source: self.in_source.clone(), tag: self.tag }
    }
}

impl TypeName {
    /// Builds the descriptor from a type's identity token and its
    /// declaration-site spelling.
    pub fn from_source(tag: u64, source_name: &str) -> (r: TypeName)
        ensures
            r@ == (TypeNameV { in_source: source_name@, tag }),
    {
        TypeName { in_source: source_name.to_owned(), tag }
    }

    /// The source-level spelling, always available, with no resolution cost.
    pub fn compiletime(&self) -> (r: &str)
        ensures
            r@ == self@.in_source,
    {
        self.in_source.as_str()
    }

    /// The identity token of the named type.
    pub fn tag(&self) -> (t: u64)
        ensures
            t == self@.tag,
    {
        self.tag
    }

    /// Resolves the canonical runtime name of the named type through the
    /// registry.  A type the registry does not know keeps its source
    /// spelling.
    pub fn runtime<'a>(&'a self, names: &'a TypeRegistry) -> (r: &'a str)
        ensures
            r@ == names.spec_runtime_name(self@),
    {
        match names.resolve(self.tag) {
            Some(n) => n,
            None => self.in_source.as_str(),
        }
    }
}

/// Ghost lookup: the name paired with the first occurrence of `tag` at or
/// after position `i`, if any.
pub open spec fn name_from(entries: Seq<(u64, String)>, tag: u64, i: int) -> Option<Seq<char>>
    decreases entries.len() - i,
{
    if i < 0 || i >= entries.len() {
        None
    } else if entries[i].0 == tag {
        Some(entries[i].1@)
    } else {
        name_from(entries, tag, i + 1)
    }
}

/// Registering a name never disturbs what an earlier registration resolves
/// to: a later entry is only reached when no earlier entry has the token.
proof fn lemma_name_from_push(entries: Seq<(u64, String)>, x: (u64, String), tag: u64, i: int)
    requires
        0 <= i <= entries.len(),
    ensures
        name_from(entries.push(x), tag, i) == (if name_from(entries, tag, i) is Some {
            name_from(entries, tag, i)
        } else if x.0 == tag {
            Some(x.1@)
        } else {
            None
        }),
    decreases entries.len() - i,
{
    if i == entries.len() {
        assert(name_from(entries, tag, i) is None);
        assert(entries.push(x)[i] == x);
        assert(name_from(entries.push(x), tag, i + 1) is None);
    } else {
        assert(entries.push(x)[i] == entries[i]);
        lemma_name_from_push(entries, x, tag, i + 1);
    }
}

/// The registry of canonical runtime names, keyed by identity token.  It is
/// filled once, when the reflected types are declared, and only read after.
pub struct TypeRegistry {
    entries: Vec<(u64, String)>,
}

impl TypeRegistry {
    /// The canonical name registered for `tag`, if any.
    pub closed spec fn spec_resolve(&self, tag: u64) -> Option<Seq<char>> {
        name_from(self.entries@, tag, 0)
    }

    /// What resolving a descriptor through this registry yields: the
    /// registered canonical name, or the descriptor's own source spelling.
    pub open spec fn spec_runtime_name(&self, ty: TypeNameV) -> Seq<char> {
        match self.spec_resolve(ty.tag) {
            Some(n) => n,
            None => ty.in_source,
        }
    }

    pub fn new() -> (r: TypeRegistry)
        ensures
            forall|tag: u64| r.spec_resolve(tag) is None,
    {
        TypeRegistry { entries: Vec::new() }
    }

    /// Registers the canonical runtime name for `tag`.  An earlier
    /// registration of the same token keeps precedence.
    pub fn register(&mut self, tag: u64, name: &str)
        ensures
            final(self).spec_resolve(tag) == (if old(self).spec_resolve(tag) is Some {
                old(self).spec_resolve(tag)
            } else {
                Some(name@)
            }),
            forall|t: u64| t != tag ==> final(self).spec_resolve(t) == old(self).spec_resolve(t),
    {
        let ghost entries0 = self.entries@;
        self.entries.push((tag, name.to_owned()));
        proof {
            let x = self.entries@.last();
            assert(self.entries@ =~= entries0.push(x));
            lemma_name_from_push(entries0, x, tag, 0);
            assert forall|t: u64| t != tag implies self.spec_resolve(t) == name_from(
                entries0,
                t,
                0,
            ) by {
                lemma_name_from_push(entries0, x, t, 0);
            }
        }
    }

    /// Looks the token up, yielding the first name registered for it.
    pub fn resolve<'a>(&'a self, tag: u64) -> (r: Option<&'a str>)
        ensures
            match r {
                Some(n) => self.spec_resolve(tag) == Some(n@),
                None => self.spec_resolve(tag) is None,
            },
    {
        let n = self.entries.len();
        let mut i: usize = 0;
        while i < n
            invariant
                n == self.entries@.len(),
                0 <= i <= n,
                name_from(self.entries@, tag, 0) == name_from(self.entries@, tag, i as int),
            decreases n - i,
        {
            if self.entries[i].0 == tag {
                return Some(self.entries[i].1.as_str());
            }
            i = i + 1;
        }
        None
    }
}

} // verus!
