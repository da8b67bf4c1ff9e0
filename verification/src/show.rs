//! A print-style interface over the universe, derived through mirrors: the
//! consumer-side demonstration of the engine.
//!
//! A mirrored type's rendering opens with its runtime name, shows one line
//! per field — the field's number, its identifier, and either the field's
//! own rendering, where its type carries the interface, or a marker naming
//! the runtime type that does not — and closes with a brace at the opening
//! indentation.

use vstd::prelude::*;

use crate::fmt::{spec_dec_int, spec_dec_nat, i64_to_string, spaces, u64_to_string};
use crate::mirror::{FieldMeta, Mirror, MirrorRegistry};
use crate::names::{TypeNameV, TypeRegistry};
use crate::traverse::spec_opt_name;
use crate::value::{Val, Value};

verus! {

/// A run of spaces.
pub open spec fn spec_spaces(n: nat) -> Seq<char> {
    Seq::new(n, |i: int| ' ')
}

/// A field's identifier as rendered: its name, or `?` for a positional
/// field.
pub open spec fn spec_name_or_query(name: Option<Seq<char>>) -> Seq<char> {
    match name {
        Some(n) => n,
        None => "?"@,
    }
}

/// The marker rendered for a field whose type does not carry the
/// interface, naming that type's runtime name.
pub open spec fn spec_missing_text(names: TypeRegistry, ty: TypeNameV) -> Seq<char> {
    "<value of type `"@ + names.spec_runtime_name(ty) + "` which does not implement Show>"@
}

/// The opening line of a mirrored type's rendering.
pub open spec fn spec_type_header(names: TypeRegistry, m: Mirror) -> Seq<char> {
    names.spec_runtime_name(m.name@) + " {\n"@
}

/// The marker rendered for a record or sum value without a usable mirror.
pub open spec fn spec_unmirrored_text() -> Seq<char> {
    "<unmirrored>"@
}

/// The rendering of a value at an indentation depth.
///
/// A string renders as its own text; numbers and booleans render as their
/// spellings; a mirrored record or sum value renders as a block, its fields
/// each on one line at two more spaces of depth; a record or sum value the
/// mirror table cannot place — no mirror under its token, or a shape the
/// mirror does not fit — renders as a marker.
pub open spec fn spec_show_value(
    names: TypeRegistry,
    mirrors: MirrorRegistry,
    v: Val,
    ind: nat,
) -> Seq<char>
    decreases v, 0int, 0int,
{
    match v {
        Val::Unit => "()"@,
        Val::Bool(b) => if b {
            "true"@
        } else {
            "false"@
        },
        Val::Int(i) => spec_dec_int(i as int),
        Val::Nat(n) => spec_dec_nat(n as nat),
        Val::Text(s) => s,
        Val::Record { tag, fields } => match mirrors.spec_get(tag) {
            Some(m) => {
                if fields.len() == m.spec_metas().len() {
                    spec_type_header(names, m) + spec_show_lines(names, mirrors, m, fields, 0, ind)
                        + spec_spaces(ind) + "}"@
                } else {
                    spec_unmirrored_text()
                }
            },
            None => spec_unmirrored_text(),
        },
        Val::Choice { tag, variant, payload } => match mirrors.spec_get(tag) {
            Some(m) => {
                if 0 <= variant < m.spec_metas().len() && payload.len() == 1 {
                    spec_type_header(names, m) + spec_show_line(
                        names,
                        mirrors,
                        m.spec_metas()[variant],
                        1,
                        payload[0],
                        ind,
                    ) + spec_spaces(ind) + "}"@
                } else {
                    spec_unmirrored_text()
                }
            },
            None => spec_unmirrored_text(),
        },
    }
}

/// One field line: number, identifier, and the field's rendering or the
/// missing-capability marker, at two more spaces of depth than the owner.
pub open spec fn spec_show_line(
    names: TypeRegistry,
    mirrors: MirrorRegistry,
    meta: FieldMeta,
    num: int,
    value: Val,
    ind: nat,
) -> Seq<char>
    decreases value, 1int, 0int,
{
    spec_spaces(ind + 2) + "field #"@ + spec_dec_nat(num as nat) + " "@ + spec_name_or_query(
        spec_opt_name(meta.name),
    ) + ": "@ + (if meta.capability.has_impl {
        spec_show_value(names, mirrors, value, ind + 2)
    } else {
        spec_missing_text(names, meta.ty@)
    }) + "\n"@
}

/// The field lines of a record's rendering, from row `i` on.
pub open spec fn spec_show_lines(
    names: TypeRegistry,
    mirrors: MirrorRegistry,
    m: Mirror,
    fields: Seq<Val>,
    i: int,
    ind: nat,
) -> Seq<char>
    decreases fields, 2int, m.spec_metas().len() - i,
{
    if 0 <= i < m.spec_metas().len() && i < fields.len() {
        spec_show_line(names, mirrors, m.spec_metas()[i], i + 1, fields[i], ind)
            + spec_show_lines(names, mirrors, m, fields, i + 1, ind)
    } else {
        Seq::empty()
    }
}

/// The print-style interface itself: what a type must offer to take part
/// in the rendering.  The engine detects it per field through the
/// capability registry; `String` carries it, rendering as its own text.
pub trait Show {
    /// The rendering [`Show::print`] yields.
    spec fn spec_print(&self, indentation: nat) -> Seq<char>;

    /// Renders the value at the given indentation depth.
    fn print(&self, indentation: usize) -> (r: String)
        ensures
            r@ == self.spec_print(indentation as nat),
    ;
}

impl Show for String {
    open spec fn spec_print(&self, indentation: nat) -> Seq<char> {
        self@
    }

    fn print(&self, _indentation: usize) -> (r: String) {
        self.clone()
    }
}

/// Renders one field line onto `out`, the field's own rendering handed in.
fn append_line(
    out: &mut String,
    pad: &String,
    num: u64,
    name: Option<&crate::names::FieldName>,
    rendered: &String,
)
    requires
        pad@ == spec_spaces(pad@.len()),
    ensures
        final(out)@ == old(out)@ + spec_spaces(pad@.len() + 2) + "field #"@ + spec_dec_nat(
            num as nat,
        ) + " "@ + spec_name_or_query(crate::traverse::spec_opt_name_ref(name)) + ": "@
            + rendered@ + "\n"@,
{
    out.append(pad.as_str());
    out.append("  ");
    out.append("field #");
    let n = u64_to_string(num);
    out.append(n.as_str());
    out.append(" ");
    match name {
        Some(nm) => out.append(nm.as_str()),
        None => out.append("?"),
    }
    out.append(": ");
    out.append(rendered.as_str());
    out.append("\n");
    proof {
        reveal_strlit("  ");
        assert(pad@ + "  "@ =~= spec_spaces(pad@.len() + 2));
        assert(out@ =~= old(out)@ + spec_spaces(pad@.len() + 2) + "field #"@ + spec_dec_nat(
            num as nat,
        ) + " "@ + spec_name_or_query(crate::traverse::spec_opt_name_ref(name)) + ": "@
            + rendered@ + "\n"@);
    }
}

/// Renders a value with the indentation carried as its run of spaces.
#[verifier::rlimit(60)]
fn print_value_pad(
    names: &TypeRegistry,
    mirrors: &MirrorRegistry,
    v: &Value,
    pad: &String,
) -> (r: String)
    requires
        pad@ == spec_spaces(pad@.len()),
    ensures
        r@ == spec_show_value(*names, *mirrors, v@, pad@.len()),
    decreases v,
{
    match v {
        Value::Unit => "()".to_owned(),
        Value::Bool(b) => if *b {
            "true".to_owned()
        } else {
            "false".to_owned()
        },
        Value::Int(i) => i64_to_string(*i),
        Value::Nat(n) => u64_to_string(*n),
        Value::Text(s) => s.clone(),
        Value::Record { tag, fields } => {
            let m = match mirrors.get(*tag) {
                Some(m) => m,
                None => {
                    return "<unmirrored>".to_owned();
                },
            };
            let metas = m.metas();
            let n = metas.len();
            proof {
                crate::value::lemma_vals_of_len(fields@);
            }
            if fields.len() != n {
                return "<unmirrored>".to_owned();
            }
            let ghost ind = pad@.len();
            let ghost fvals = crate::value::vals_of(fields@);
            let mut out = m.name.runtime(names).to_owned();
            out.append(" {\n");
            let ghost header = out@;
            let mut deeper = pad.clone();
            deeper.append("  ");
            proof {
                reveal_strlit("  ");
                assert(deeper@ =~= spec_spaces(deeper@.len()));
            }
            let ghost mut taken = Seq::<char>::empty();
            let mut i: usize = 0;
            while i < n
                invariant
                    n == metas@.len(),
                    n == fields@.len(),
                    0 <= i <= n,
                    ind == pad@.len(),
                    pad@ == spec_spaces(ind),
                    deeper@ == spec_spaces(ind + 2),
                    metas@ == m.spec_metas(),
                    fvals == crate::value::vals_of(fields@),
                    fvals.len() == fields@.len(),
                    *v == (Value::Record { tag: *tag, fields: *fields }),
                    v@ matches Val::Record { fields: vf, .. } && vf == fvals,
                    out@ == header + taken,
                    taken + spec_show_lines(*names, *mirrors, *m, fvals, i as int, ind)
                        == spec_show_lines(*names, *mirrors, *m, fvals, 0, ind),
                decreases n - i,
            {
                proof {
                    crate::value::lemma_vals_of_index(fields@, i as int);
                    assert(decreases_to!(*v => fields@[i as int])) by {
                        assert(v->Record_fields == *fields);
                        assert(decreases_to!(*v => v->Record_fields));
                        assert(decreases_to!(fields@ => fields@[i as int]));
                    }
                }
                let meta = &metas[i];
                let rendered = if meta.capability.has_impl {
                    print_value_pad(names, mirrors, &fields[i], &deeper)
                } else {
                    missing_text(names, &meta.ty)
                };
                let num: u64 = (i as u64) + 1;
                append_line(&mut out, pad, num, meta.name.as_ref(), &rendered);
                proof {
                    let line = spec_show_line(
                        *names,
                        *mirrors,
                        m.spec_metas()[i as int],
                        i + 1,
                        fvals[i as int],
                        ind,
                    );
                    assert(out@ =~= header + (taken + line));
                    assert((taken + line) + spec_show_lines(
                        *names,
                        *mirrors,
                        *m,
                        fvals,
                        i + 1,
                        ind,
                    ) =~= taken + spec_show_lines(*names, *mirrors, *m, fvals, i as int, ind));
                }
                proof {
                    taken = taken + spec_show_line(
                        *names,
                        *mirrors,
                        m.spec_metas()[i as int],
                        i + 1,
                        fvals[i as int],
                        ind,
                    );
                }
                i = i + 1;
            }
            out.append(pad.as_str());
            out.append("}");
            proof {
                assert(spec_show_lines(*names, *mirrors, *m, fvals, n as int, ind)
                    == Seq::<char>::empty());
                assert(taken =~= spec_show_lines(*names, *mirrors, *m, fvals, 0, ind));
                assert(out@ =~= spec_show_value(*names, *mirrors, v@, ind));
            }
            out
        },
        Value::Choice { tag, variant, payload } => {
            let m = match mirrors.get(*tag) {
                Some(m) => m,
                None => {
                    return "<unmirrored>".to_owned();
                },
            };
            let metas = m.metas();
            if *variant >= metas.len() || payload.len() != 1 {
                proof {
                    crate::value::lemma_vals_of_len(payload@);
                }
                return "<unmirrored>".to_owned();
            }
            let ghost ind = pad@.len();
            proof {
                crate::value::lemma_vals_of_len(payload@);
                crate::value::lemma_vals_of_index(payload@, 0);
            }
            let mut out = m.name.runtime(names).to_owned();
            out.append(" {\n");
            let ghost header = out@;
            let mut deeper = pad.clone();
            deeper.append("  ");
            proof {
                reveal_strlit("  ");
                assert(deeper@ =~= spec_spaces(deeper@.len()));
                assert(decreases_to!(*v => payload@[0])) by {
                    assert(v->Choice_payload == *payload);
                    assert(decreases_to!(*v => v->Choice_payload));
                    assert(decreases_to!(payload@ => payload@[0]));
                }
            }
            let meta = &metas[*variant];
            let rendered = if meta.capability.has_impl {
                print_value_pad(names, mirrors, &payload[0], &deeper)
            } else {
                missing_text(names, &meta.ty)
            };
            append_line(&mut out, pad, 1, meta.name.as_ref(), &rendered);
            out.append(pad.as_str());
            out.append("}");
            proof {
                assert(out@ =~= spec_show_value(*names, *mirrors, v@, ind));
            }
            out
        },
    }
}

/// The identity token of [`DeriveShowVisitor`].
pub const SHOW_VISITOR_TAG: u64 = 2;

/// Ghost shape of a [`DeriveShowVisitor`].
#[verifier::ext_equal]
pub struct DeriveShowVisitorV {
    pub names: TypeRegistry,
    pub mirrors: MirrorRegistry,
    pub output: Seq<char>,
    pub pad: Seq<char>,
    pub index: u64,
}

/// The visitor behind the derived rendering: it accumulates one line per
/// visited field — the field's own rendering where the capability holds,
/// the marker naming the runtime type where it does not — counting fields
/// from one.
pub struct DeriveShowVisitor<'a> {
    pub names: &'a TypeRegistry,
    pub mirrors: &'a MirrorRegistry,
    output: String,
    pad: String,
    index: u64,
}

impl<'a> View for DeriveShowVisitor<'a> {
    type V = DeriveShowVisitorV;

    closed spec fn view(&self) -> DeriveShowVisitorV {
        DeriveShowVisitorV {
            names: *self.names,
            mirrors: *self.mirrors,
            output: self.output@,
            pad: self.pad@,
            index: self.index,
        }
    }
}

impl<'a> DeriveShowVisitor<'a> {
    /// A visitor that renders field lines two spaces deeper than the given
    /// indentation, opening with the given text and counting from one.
    pub fn new(
        names: &'a TypeRegistry,
        mirrors: &'a MirrorRegistry,
        output: String,
        indentation: usize,
    ) -> (r: DeriveShowVisitor<'a>)
        ensures
            r@ == (DeriveShowVisitorV {
                names: *names,
                mirrors: *mirrors,
                output: output@,
                pad: spec_spaces(indentation as nat + 2),
                index: 1,
            }),
    {
        let mut pad = spaces(indentation);
        pad.append("  ");
        proof {
            reveal_strlit("  ");
            assert(pad@ =~= spec_spaces(indentation as nat + 2));
        }
        DeriveShowVisitor { names, mirrors, output, pad, index: 1 }
    }

    /// Hands the accumulated text back.
    pub fn into_output(self) -> (r: String)
        ensures
            r@ == self@.output,
    {
        self.output
    }
}

/// The line [`DeriveShowVisitor`] appends for one field: its number, its
/// identifier, and the given body, at the visitor's depth.
pub open spec fn spec_visitor_line(
    s: DeriveShowVisitorV,
    name: Option<Seq<char>>,
    body: Seq<char>,
) -> Seq<char> {
    s.pad + "field #"@ + spec_dec_nat(s.index as nat) + " "@ + spec_name_or_query(name) + ": "@
        + body + "\n"@
}

/// The visitor's count after one visit: one more field seen, the count
/// pinned at its ceiling in the unreachable case that it is exhausted.
pub open spec fn spec_next_index(i: u64) -> u64 {
    if i == u64::MAX {
        i
    } else {
        (i + 1) as u64
    }
}

/// The body of a line for a field that carries the interface: the field's
/// own rendering at the visitor's depth.  The visitor keeps its depth as a
/// run of spaces; were it anything else, no rendering is defined and the
/// body is empty — constructed visitors always carry a run of spaces.
pub open spec fn spec_rendered_body(s: DeriveShowVisitorV, value: Val) -> Seq<char> {
    if s.pad == spec_spaces(s.pad.len()) {
        spec_show_value(s.names, s.mirrors, value, s.pad.len())
    } else {
        Seq::empty()
    }
}

/// Whether the text is nothing but spaces.
fn check_spaces(s: &String) -> (b: bool)
    ensures
        b == (s@ == spec_spaces(s@.len())),
{
    let st = s.as_str();
    let n = st.unicode_len();
    let mut i: usize = 0;
    while i < n
        invariant
            n == st@.len(),
            st@ == s@,
            0 <= i <= n,
            forall|j: int| 0 <= j < i ==> s@[j] == ' ',
        decreases n - i,
    {
        if st.get_char(i) != ' ' {
            return false;
        }
        i = i + 1;
    }
    proof {
        assert(s@ =~= spec_spaces(s@.len()));
    }
    true
}

impl<'a> crate::traverse::FieldVisitor for DeriveShowVisitor<'a> {
    open spec fn spec_visitor_tag() -> u64 {
        SHOW_VISITOR_TAG
    }

    open spec fn on_implemented(
        s: DeriveShowVisitorV,
        value: Val,
        name: Option<Seq<char>>,
        ty: TypeNameV,
    ) -> DeriveShowVisitorV {
        DeriveShowVisitorV {
            output: s.output + spec_visitor_line(s, name, spec_rendered_body(s, value)),
            index: spec_next_index(s.index),
            ..s
        }
    }

    open spec fn on_any(
        s: DeriveShowVisitorV,
        value: Val,
        name: Option<Seq<char>>,
        ty: TypeNameV,
    ) -> DeriveShowVisitorV {
        DeriveShowVisitorV {
            output: s.output + spec_visitor_line(s, name, spec_missing_text(s.names, ty)),
            index: spec_next_index(s.index),
            ..s
        }
    }

    fn visitor_tag() -> (t: u64) {
        SHOW_VISITOR_TAG
    }

    fn visit_implemented(
        &mut self,
        value: &Value,
        name: Option<&crate::names::FieldName>,
        ty: &crate::names::TypeName,
    ) {
        let rendered = if check_spaces(&self.pad) {
            print_value_pad(self.names, self.mirrors, value, &self.pad)
        } else {
            String::new()
        };
        append_visitor_line(&mut self.output, &self.pad, self.index, name, &rendered);
        if self.index < u64::MAX {
            self.index = self.index + 1;
        }
        proof {
            assert(self@ =~= Self::on_implemented(
                old(self)@,
                value@,
                crate::traverse::spec_opt_name_ref(name),
                ty@,
            ));
        }
    }

    fn visit_any(
        &mut self,
        value: &Value,
        name: Option<&crate::names::FieldName>,
        ty: &crate::names::TypeName,
    ) {
        let rendered = missing_text(self.names, ty);
        append_visitor_line(&mut self.output, &self.pad, self.index, name, &rendered);
        if self.index < u64::MAX {
            self.index = self.index + 1;
        }
        proof {
            assert(self@ =~= Self::on_any(
                old(self)@,
                value@,
                crate::traverse::spec_opt_name_ref(name),
                ty@,
            ));
        }
    }
}

/// Appends one visitor line: the pad as given, then number, identifier and
/// body.
fn append_visitor_line(
    out: &mut String,
    pad: &String,
    num: u64,
    name: Option<&crate::names::FieldName>,
    rendered: &String,
)
    ensures
        final(out)@ == old(out)@ + pad@ + "field #"@ + spec_dec_nat(num as nat) + " "@
            + spec_name_or_query(crate::traverse::spec_opt_name_ref(name)) + ": "@ + rendered@
            + "\n"@,
{
    out.append(pad.as_str());
    out.append("field #");
    let n = u64_to_string(num);
    out.append(n.as_str());
    out.append(" ");
    match name {
        Some(nm) => out.append(nm.as_str()),
        None => out.append("?"),
    }
    out.append(": ");
    out.append(rendered.as_str());
    out.append("\n");
    proof {
        assert(out@ =~= old(out)@ + pad@ + "field #"@ + spec_dec_nat(num as nat) + " "@
            + spec_name_or_query(crate::traverse::spec_opt_name_ref(name)) + ": "@ + rendered@
            + "\n"@);
    }
}

/// Renders a mirrored instance through its traversal entry, as a derived
/// implementation of the interface does: the opening line, then every
/// field's line by replaying the mirror's committed per-field calls on a
/// [`DeriveShowVisitor`], then the closing brace.  An instance without a
/// registered mirror, or one outside its mirror's pairing, is refused.
pub fn print_record(
    names: &TypeRegistry,
    mirrors: &MirrorRegistry,
    this: &Value,
    indentation: usize,
) -> (r: Result<String, crate::traverse::IdentityMismatch>)
    ensures
        r is Ok <==> (mirrors.spec_get(crate::value::spec_tag_of(this@)) matches Some(m) && {
            &&& SHOW_VISITOR_TAG == m.field_traverser.visitor_tag
            &&& crate::value::spec_tag_of(this@) == m.field_traverser.record_tag
            &&& m.field_traverser.spec_fits(this@)
        }),
        r matches Ok(s) ==> (mirrors.spec_get(crate::value::spec_tag_of(this@)) matches Some(m)
            && s@ == crate::traverse::spec_run::<DeriveShowVisitor>(
            m.field_traverser.body,
            this@,
            DeriveShowVisitorV {
                names: *names,
                mirrors: *mirrors,
                output: spec_type_header(*names, m),
                pad: spec_spaces(indentation as nat + 2),
                index: 1,
            },
        ).output + spec_spaces(indentation as nat) + "}"@),
        r matches Ok(s) ==> (mirrors.spec_get(crate::value::spec_tag_of(this@)) matches Some(m)
            && m.wf() && m.spec_matches(this@) ==> s@ == spec_show_value(
            *names,
            *mirrors,
            this@,
            indentation as nat,
        )),
{
    let tag = this.type_tag();
    let m = match mirrors.get(tag) {
        Some(m) => m,
        None => {
            return Err(crate::traverse::IdentityMismatch);
        },
    };
    let mut header = m.name.runtime(names).to_owned();
    header.append(" {\n");
    let visitor = DeriveShowVisitor::new(names, mirrors, header, indentation);
    match m.visit_fields(this, visitor) {
        Ok(v) => {
            proof {
                if m.wf() && m.spec_matches(this@) {
                    lemma_derived_print_agrees(
                        *names,
                        *mirrors,
                        *m,
                        this@,
                        indentation as nat,
                    );
                }
            }
            let mut out = v.into_output();
            let closing = spaces(indentation);
            out.append(closing.as_str());
            out.append("}");
            Ok(out)
        },
        Err(e) => Err(e),
    }
}

/// After the first `k` committed per-field calls of a consistent mirror,
/// the visitor has appended exactly the first `k` field lines of the
/// direct rendering, and counts `k` fields seen.
proof fn lemma_run_prefix_lines(
    names: TypeRegistry,
    mirrors: MirrorRegistry,
    m: Mirror,
    fields: Seq<Val>,
    o0: Seq<char>,
    ind: nat,
    k: int,
)
    requires
        m.wf(),
        m.field_traverser.body is Fields,
        0 <= k <= m.spec_metas().len(),
        m.spec_metas().len() <= u64::MAX,
        fields.len() == m.spec_metas().len(),
    ensures
        ({
            let steps = m.spec_steps();
            let v0 = DeriveShowVisitorV {
                names,
                mirrors,
                output: o0,
                pad: spec_spaces(ind + 2),
                index: 1,
            };
            let r = crate::traverse::spec_run_prefix::<DeriveShowVisitor>(steps, fields, v0, k);
            &&& r.names == names
            &&& r.mirrors == mirrors
            &&& r.pad == spec_spaces(ind + 2)
            &&& (k < m.spec_metas().len() ==> r.index == 1 + k)
            &&& r.output + spec_show_lines(names, mirrors, m, fields, k, ind) == o0
                + spec_show_lines(names, mirrors, m, fields, 0, ind)
        }),
    decreases k,
{
    let steps = m.spec_steps();
    let v0 = DeriveShowVisitorV {
        names,
        mirrors,
        output: o0,
        pad: spec_spaces(ind + 2),
        index: 1,
    };
    if k > 0 {
        lemma_run_prefix_lines(names, mirrors, m, fields, o0, ind, k - 1);
        let prev = crate::traverse::spec_run_prefix::<DeriveShowVisitor>(
            steps,
            fields,
            v0,
            k - 1,
        );
        let r = crate::traverse::spec_run_prefix::<DeriveShowVisitor>(steps, fields, v0, k);
        let step = steps[k - 1];
        let meta = m.spec_metas()[k - 1];
        assert(prev.index == k);
        assert(step.index == k - 1 && spec_opt_name(step.name) == spec_opt_name(meta.name)
            && step.ty@ == meta.ty@);
        let value = fields[k - 1];
        let line = spec_show_line(names, mirrors, meta, k, value, ind);
        assert(r == crate::traverse::spec_apply_step::<DeriveShowVisitor>(step, value, prev));
        assert(spec_visitor_line(
            prev,
            spec_opt_name(step.name),
            if meta.capability.has_impl {
                spec_rendered_body(prev, value)
            } else {
                spec_missing_text(names, meta.ty@)
            },
        ) =~= line) by {
            assert(prev.pad.len() == ind + 2);
            assert(prev.index as nat == k as nat);
        }
        assert(r.output =~= prev.output + line);
        assert(spec_show_lines(names, mirrors, m, fields, k - 1, ind) == line + spec_show_lines(
            names,
            mirrors,
            m,
            fields,
            k,
            ind,
        ));
        assert(r.output + spec_show_lines(names, mirrors, m, fields, k, ind) =~= prev.output
            + spec_show_lines(names, mirrors, m, fields, k - 1, ind));
    }
}

/// The derived rendering agrees with the direct one: replaying a mirror's
/// committed per-field calls on a fresh rendering visitor — what
/// [`print_record`] does — yields, between the opening line and the
/// closing brace, exactly the field lines that [`spec_show_value`] gives
/// the instance.  The mirror must be the one registered for the instance's
/// type, internally consistent, and fitting the instance's shape.
pub proof fn lemma_derived_print_agrees(
    names: TypeRegistry,
    mirrors: MirrorRegistry,
    m: Mirror,
    this: Val,
    ind: nat,
)
    requires
        m.wf(),
        m.spec_matches(this),
        mirrors.spec_get(crate::value::spec_tag_of(this)) == Some(m),
    ensures
        crate::traverse::spec_run::<DeriveShowVisitor>(
            m.field_traverser.body,
            this,
            DeriveShowVisitorV {
                names,
                mirrors,
                output: spec_type_header(names, m),
                pad: spec_spaces(ind + 2),
                index: 1,
            },
        ).output + spec_spaces(ind) + "}"@ == spec_show_value(names, mirrors, this, ind),
{
    let v0 = DeriveShowVisitorV {
        names,
        mirrors,
        output: spec_type_header(names, m),
        pad: spec_spaces(ind + 2),
        index: 1,
    };
    let metas = m.spec_metas();
    match m.fields_or_variants {
        crate::mirror::FieldsOrVariants::Struct { fields: mv } => {
            assert(mv.len() == mv@.len());
        },
        crate::mirror::FieldsOrVariants::TupleStruct { fields: mv } => {
            assert(mv.len() == mv@.len());
        },
        crate::mirror::FieldsOrVariants::Enum { variants: mv } => {
            assert(mv.len() == mv@.len());
        },
    }
    if m.fields_or_variants.spec_is_enum() {
        let variant = this->Choice_variant;
        let payload = this->Choice_payload;
        let step = m.spec_steps()[variant];
        let meta = metas[variant];
        let r = crate::traverse::spec_run::<DeriveShowVisitor>(m.field_traverser.body, this, v0);
        assert(r == crate::traverse::spec_apply_step::<DeriveShowVisitor>(step, payload[0], v0));
        let line = spec_show_line(names, mirrors, meta, 1, payload[0], ind);
        assert(spec_visitor_line(
            v0,
            spec_opt_name(step.name),
            if meta.capability.has_impl {
                spec_rendered_body(v0, payload[0])
            } else {
                spec_missing_text(names, meta.ty@)
            },
        ) =~= line) by {
            assert(v0.pad.len() == ind + 2);
        }
        assert(r.output =~= v0.output + line);
        assert(r.output + spec_spaces(ind) + "}"@ =~= spec_type_header(names, m) + line
            + spec_spaces(ind) + "}"@);
        assert(spec_show_value(names, mirrors, this, ind) == spec_type_header(names, m) + line
            + spec_spaces(ind) + "}"@);
    } else {
        let fields = this->Record_fields;
        let n = metas.len() as int;
        lemma_run_prefix_lines(names, mirrors, m, fields, v0.output, ind, n);
        let steps = m.spec_steps();
        let r = crate::traverse::spec_run_prefix::<DeriveShowVisitor>(steps, fields, v0, n);
        assert(spec_show_lines(names, mirrors, m, fields, n, ind) == Seq::<char>::empty());
        assert(r.output =~= v0.output + spec_show_lines(names, mirrors, m, fields, 0, ind));
        assert(crate::traverse::spec_run::<DeriveShowVisitor>(m.field_traverser.body, this, v0)
            == r);
        assert(r.output + spec_spaces(ind) + "}"@ =~= spec_type_header(names, m)
            + spec_show_lines(names, mirrors, m, fields, 0, ind) + spec_spaces(ind) + "}"@);
        assert(spec_show_value(names, mirrors, this, ind) == spec_type_header(names, m)
            + spec_show_lines(names, mirrors, m, fields, 0, ind) + spec_spaces(ind) + "}"@);
    }
}

/// The marker for a field whose type does not carry the interface.
fn missing_text(names: &TypeRegistry, ty: &crate::names::TypeName) -> (r: String)
    ensures
        r@ == spec_missing_text(*names, ty@),
{
    let mut s = "<value of type `".to_owned();
    s.append(ty.runtime(names));
    s.append("` which does not implement Show>");
    proof {
        assert(s@ =~= spec_missing_text(*names, ty@));
    }
    s
}

/// Renders a value at an indentation depth, exactly as [`spec_show_value`]
/// spells it: the engine's own implementation of the interface over the
/// whole universe, used for fields whose types carry it.
pub fn print_value(
    names: &TypeRegistry,
    mirrors: &MirrorRegistry,
    v: &Value,
    indentation: usize,
) -> (r: String)
    ensures
        r@ == spec_show_value(*names, *mirrors, v@, indentation as nat),
{
    let pad = spaces(indentation);
    proof {
        assert(pad@ == spec_spaces(indentation as nat));
        assert(pad@.len() == indentation as nat);
    }
    print_value_pad(names, mirrors, v, &pad)
}

} // verus!
