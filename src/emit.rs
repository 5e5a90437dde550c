use vstd::prelude::*;
use crate::token::{Tok, Delim, is_ident, is_alone};
use crate::model::{Model, ModelView, FieldView, model_wf, strs_view};

verus! {

/// The six tokens `target : binding . source ,` of one initializer start at `6 * k`.
pub open spec fn initializer_at(out: Seq<Tok>, k: int, b: Seq<char>, f: FieldView) -> bool {
    &&& is_ident(out[6 * k], f.target)
    &&& is_alone(out[6 * k + 1], ':')
    &&& is_ident(out[6 * k + 2], b)
    &&& is_alone(out[6 * k + 3], '.')
    &&& is_ident(out[6 * k + 4], f.source)
    &&& is_alone(out[6 * k + 5], ',')
}

/// The initializer list of `m`: one initializer per field, in order.
pub open spec fn initializers(out: Seq<Tok>, m: ModelView) -> bool {
    &&& out.len() == 6 * m.fields.len()
    &&& forall|k: int| 0 <= k < m.fields.len() ==> initializer_at(out, k, m.source_binding, #[trigger] m.fields[k])
}

/// The tokens of a path: segment `k` at `3 * k`, joined by `::`.
pub open spec fn path_tokens(out: Seq<Tok>, p: Seq<Seq<char>>) -> bool {
    &&& p.len() > 0
    &&& out.len() == 3 * p.len() - 2
    &&& forall|k: int| 0 <= k < p.len() ==> is_ident(#[trigger] out[3 * k], p[k])
    &&& forall|k: int| 1 <= k < p.len() ==> out[3 * k - 2] == Tok::Punct(':', true) && #[trigger] out[3 * k - 1] == Tok::Punct(':', false)
}

/// The statement `let target = TargetType { initializers };`.
pub open spec fn emitted(out: Seq<Tok>, m: ModelView) -> bool {
    let n = 3 * m.target_type.len() - 2;
    &&& out.len() == n + 5
    &&& is_ident(out[0], seq!['l', 'e', 't'])
    &&& is_ident(out[1], m.target_binding)
    &&& is_alone(out[2], '=')
    &&& path_tokens(out.subrange(3, 3 + n), m.target_type)
    &&& match out[3 + n] {
        Tok::Group(d, inner) => d == Delim::Brace && initializers(inner@, m),
        _ => false,
    }
    &&& is_alone(out[4 + n], ';')
}

fn copy_string(s: &String) -> (r: String)
    ensures
        r@ == s@,
{
    s.clone()
}

fn push_path(out: &mut Vec<Tok>, p: &Vec<String>)
    requires
        p@.len() > 0,
    ensures
        final(out)@.len() == old(out)@.len() + 3 * p@.len() - 2,
        final(out)@.subrange(0, old(out)@.len() as int) == old(out)@,
        path_tokens(final(out)@.subrange(old(out)@.len() as int, final(out)@.len() as int), strs_view(p@)),
{
    let ghost start = out@.len();
    let ghost pv = strs_view(p@);
    let mut i: usize = 0;
    while i < p.len()
        invariant
            i <= p@.len(),
            p@.len() > 0,
            pv == strs_view(p@),
            out@.len() == start + if i == 0 { 0 } else { 3 * i - 2 },
            out@.subrange(0, start as int) == old(out)@,
            start == old(out)@.len(),
            forall|k: int| 0 <= k < i ==> is_ident(#[trigger] out@[start + 3 * k], pv[k]),
            forall|k: int| 1 <= k < i ==> out@[start + 3 * k - 2] == Tok::Punct(':', true) && #[trigger] out@[start + 3 * k - 1] == Tok::Punct(':', false),
        decreases p@.len() - i,
    {
        if i > 0 {
            out.push(Tok::Punct(':', true));
            out.push(Tok::Punct(':', false));
        }
        out.push(Tok::Ident(copy_string(&p[i])));
        i = i + 1;
    }
    let ghost seg = out@.subrange(start as int, out@.len() as int);
    assert forall|k: int| 0 <= k < pv.len() implies is_ident(#[trigger] seg[3 * k], pv[k]) by {
        assert(seg[3 * k] == out@[start + 3 * k]);
    }
    assert forall|k: int| 1 <= k < pv.len() implies seg[3 * k - 2] == Tok::Punct(':', true) && #[trigger] seg[3 * k - 1] == Tok::Punct(':', false) by {
        assert(seg[3 * k - 1] == out@[start + 3 * k - 1]);
        assert(seg[3 * k - 2] == out@[start + 3 * k - 2]);
    }
}

/// Renders the binding statement that builds the target value from the source binding.
pub fn emit(m: &Model) -> (out: Vec<Tok>)
    requires
        model_wf(m@),
    ensures
        emitted(out@, m@),
{
    let mut inner: Vec<Tok> = Vec::new();
    let mut i: usize = 0;
    while i < m.fields.len()
        invariant
            i <= m.fields@.len(),
            inner@.len() == 6 * i,
            forall|k: int| 0 <= k < i ==> initializer_at(inner@, k, m@.source_binding, #[trigger] m@.fields[k]),
        decreases m.fields@.len() - i,
    {
        let f = &m.fields[i];
        let ghost before = inner@;
        inner.push(Tok::Ident(copy_string(&f.target)));
        inner.push(Tok::Punct(':', false));
        inner.push(Tok::Ident(copy_string(&m.source_binding)));
        inner.push(Tok::Punct('.', false));
        inner.push(Tok::Ident(copy_string(&f.source)));
        inner.push(Tok::Punct(',', false));
        assert forall|k: int| 0 <= k < i + 1 implies initializer_at(inner@, k, m@.source_binding, #[trigger] m@.fields[k]) by {
            if k < i {
                assert(initializer_at(before, k, m@.source_binding, m@.fields[k]));
            }
        }
        i = i + 1;
    }
    let mut out: Vec<Tok> = Vec::new();
    let kw = String::from_str("let");
    proof {
        reveal_strlit("let");
    }
    assert(kw@ == seq!['l', 'e', 't']);
    out.push(Tok::Ident(kw));
    out.push(Tok::Ident(copy_string(&m.target_binding)));
    out.push(Tok::Punct('=', false));
    let ghost pre = out@;
    push_path(&mut out, &m.target_type);
    assert(out@[0] == out@.subrange(0, 3)[0]);
    assert(out@[1] == out@.subrange(0, 3)[1]);
    assert(out@[2] == out@.subrange(0, 3)[2]);
    let ghost n = 3 * m@.target_type.len() - 2;
    let ghost mid = out@;
    out.push(Tok::Group(Delim::Brace, inner));
    out.push(Tok::Punct(';', false));
    assert(out@.subrange(3, 3 + n) =~= mid.subrange(3, 3 + n));
    assert(is_ident(pre[0], seq!['l', 'e', 't']));
    out
}

} // verus!
