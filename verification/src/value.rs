//! The erased-value universe the engine traverses.
//!
//! A value carries its concrete type only as an identity token; the engine
//! recovers structure by matching on the universe's cases and comparing
//! tokens, never by language-level casts.

use vstd::prelude::*;

verus! {

/// Identity token of the unit type.
pub const TAG_UNIT: u64 = 0;

/// Identity token of `bool`.
pub const TAG_BOOL: u64 = 1;

/// Identity token of `i64`.
pub const TAG_INT: u64 = 2;

/// Identity token of `u64`.
pub const TAG_NAT: u64 = 3;

/// Identity token of `String`.
pub const TAG_TEXT: u64 = 4;

/// The least identity token available to record and sum types; smaller
/// tokens are reserved for the universe's built-in cases.
pub const TAG_USER_MIN: u64 = 16;

/// Ghost shape of a [`Value`]: the same tree with mathematical leaves.
#[verifier::ext_equal]
pub enum Val {
    Unit,
    Bool(bool),
    Int(i64),
    Nat(u64),
    Text(Seq<char>),
    Record { tag: u64, fields: Seq<Val> },
    Choice { tag: u64, variant: int, payload: Seq<Val> },
}

/// A value with its concrete type erased: an opaque handle paired with an
/// identity token.
///
/// A record instance carries its type's token and its field values in
/// declaration order.  A sum-type instance carries the token, the index of
/// the active variant, and that variant's payload (one value; a variant with
/// several fields nests a record, a unit variant carries `Value::Unit`).
#[derive(Debug, PartialEq)]
pub enum Value {
    Unit,
    Bool(bool),
    Int(i64),
    Nat(u64),
    Text(String),
    Record { tag: u64, fields: Vec<Value> },
    Choice { tag: u64, variant: usize, payload: Vec<Value> },
}

/// The ghost shape of a value.
pub open spec fn val_of(v: Value) -> Val
    decreases v,
{
    match v {
        Value::Unit => Val::Unit,
        Value::Bool(b) => Val::Bool(b),
        Value::Int(i) => Val::Int(i),
        Value::Nat(n) => Val::Nat(n),
        Value::Text(s) => Val::Text(s@),
        Value::Record { tag, fields } => Val::Record { tag, fields: vals_of(fields@) },
        Value::Choice { tag, variant, payload } => Val::Choice {
            tag,
            variant: variant as int,
            payload: vals_of(payload@),
        },
    }
}

/// The ghost shapes of a sequence of values, in order.
pub open spec fn vals_of(vs: Seq<Value>) -> Seq<Val>
    decreases vs, vs.len(),
{
    if vs.len() == 0 {
        Seq::empty()
    } else {
        vals_of(vs.drop_last()).push(val_of(vs.last()))
    }
}

impl View for Value {
    type V = Val;

    open spec fn view(&self) -> Val {
        val_of(*self)
    }
}

/// Element `i` of the ghost shapes is the ghost shape of element `i`.
pub broadcast proof fn lemma_vals_of_index(vs: Seq<Value>, i: int)
    requires
        0 <= i < vs.len(),
    ensures
        vals_of(vs).len() == vs.len(),
        #[trigger] vals_of(vs)[i] == vs[i]@,
    decreases vs.len(),
{
    lemma_vals_of_len(vs);
    if i == vs.len() - 1 {
        assert(vals_of(vs)[i] == val_of(vs.last()));
    } else {
        lemma_vals_of_index(vs.drop_last(), i);
        assert(vs.drop_last()[i] == vs[i]);
    }
}

/// The ghost shapes keep the sequence's length.
pub broadcast proof fn lemma_vals_of_len(vs: Seq<Value>)
    ensures
        #[trigger] vals_of(vs).len() == vs.len(),
    decreases vs.len(),
{
    if vs.len() != 0 {
        lemma_vals_of_len(vs.drop_last());
    }
}

/// The identity token of a value's concrete type.
pub open spec fn spec_tag_of(v: Val) -> u64 {
    match v {
        Val::Unit => TAG_UNIT,
        Val::Bool(_) => TAG_BOOL,
        Val::Int(_) => TAG_INT,
        Val::Nat(_) => TAG_NAT,
        Val::Text(_) => TAG_TEXT,
        Val::Record { tag, .. } => tag,
        Val::Choice { tag, .. } => tag,
    }
}

impl Value {
    /// The identity token of this value's concrete type.
    pub fn type_tag(&self) -> (t: u64)
        ensures
            t == spec_tag_of(self@),
    {
        match self {
            Value::Unit => TAG_UNIT,
            Value::Bool(_) => TAG_BOOL,
            Value::Int(_) => TAG_INT,
            Value::Nat(_) => TAG_NAT,
            Value::Text(_) => TAG_TEXT,
            Value::Record { tag, .. } => *tag,
            Value::Choice { tag, .. } => *tag,
        }
    }
}

impl Clone for Value {
    fn clone(&self) -> (res: Self)
        ensures
            res@ == self@,
        decreases self,
    {
        match self {
            Value::Unit => Value::Unit,
            Value::Bool(b) => Value::Bool(*b),
            Value::Int(i) => Value::Int(*i),
            Value::Nat(n) => Value::Nat(*n),
            Value::Text(s) => Value::Text(s.clone()),
            Value::Record { tag, fields } => {
                let cloned = clone_values(fields);
                proof {
                    broadcast use lemma_vals_of_index, lemma_vals_of_len;

                    assert(vals_of(cloned@) =~= vals_of(fields@));
                }
                Value::Record { tag: *tag, fields: cloned }
            },
            Value::Choice { tag, variant, payload } => {
                let cloned = clone_values(payload);
                proof {
                    broadcast use lemma_vals_of_index, lemma_vals_of_len;

                    assert(vals_of(cloned@) =~= vals_of(payload@));
                }
                Value::Choice { tag: *tag, variant: *variant, payload: cloned }
            },
        }
    }
}

/// Duplicates every value of the sequence, keeping order.
fn clone_values(vs: &Vec<Value>) -> (res: Vec<Value>)
    ensures
        res@.len() == vs@.len(),
        forall|i: int| 0 <= i < vs@.len() ==> #[trigger] res@[i]@ == vs@[i]@,
    decreases vs@,
{
    let n = vs.len();
    let mut res: Vec<Value> = Vec::new();
    let mut i: usize = 0;
    while i < n
        invariant
            n == vs@.len(),
            0 <= i <= n,
            res@.len() == i,
            forall|j: int| 0 <= j < i ==> #[trigger] res@[j]@ == vs@[j]@,
        decreases n - i,
    {
        proof {
            assert(decreases_to!(vs@ => vs@[i as int]));
        }
        res.push(vs[i].clone());
        i = i + 1;
    }
    res
}

/// A type-mismatch report: an extractor was handed a value whose identity
/// token is not the one it was built against.
#[derive(Debug, PartialEq, Eq, Clone, Copy)]
pub struct TypeError;

} // verus!
