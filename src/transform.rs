use vstd::prelude::*;
use crate::token::{Tok, Delim, is_punct};
use crate::model::{FieldView, ModelView, model_wf};
use crate::parse::{parse, parse_spec, path_spec, fields_spec, arrow_break, ident_tok, segment_tok, error_at, name_of, Expected, ParseError};
use crate::emit::{emit, emitted};

verus! {

/// A path that parses has at least one segment.
pub proof fn lemma_path_nonempty(t: Seq<Tok>, i: int)
    ensures
        path_spec(t, i) matches Ok((p, _)) ==> p.len() > 0,
{
}

/// Every model that parses is well formed.
pub proof fn lemma_parsed_wf(t: Seq<Tok>)
    ensures
        parse_spec(t) matches Ok(m) ==> model_wf(m),
{
    if let Ok(m) = parse_spec(t) {
        lemma_path_nonempty(t, 5);
        let (sp, i) = path_spec(t, 5)->Ok_0;
        lemma_path_nonempty(t, i + 2);
    }
}

/// Parses a declaration and renders the statement it describes; a parse error
/// is handed back unchanged.
pub fn transform(t: &Vec<Tok>) -> (r: Result<Vec<Tok>, ParseError>)
    ensures
        match parse_spec(t@) {
            Ok(m) => r matches Ok(o) && emitted(o@, m),
            Err(e) => r == Err::<Vec<Tok>, ParseError>(e),
        },
{
    let m = parse(t)?;
    proof {
        lemma_parsed_wf(t@);
    }
    Ok(emit(&m))
}

/// The source type never affects what is emitted: two models that differ only
/// in it describe the same output.
pub proof fn source_type_unused(out: Seq<Tok>, m1: ModelView, m2: ModelView)
    requires
        m1.source_binding == m2.source_binding,
        m1.target_binding == m2.target_binding,
        m1.target_type == m2.target_type,
        m1.fields == m2.fields,
    ensures
        emitted(out, m1) == emitted(out, m2),
{
}

/// A trailing comma after the last field does not change the parsed fields.
pub proof fn trailing_comma_ignored(t: Seq<Tok>, i: int, comma: Tok)
    requires
        0 <= i < t.len(),
        !is_punct(t.last(), ','),
        is_punct(comma, ','),
    ensures
        fields_spec(t, i) is Ok ==> fields_spec(t.push(comma), i) == fields_spec(t, i),
    decreases t.len() - i,
{
    let u = t.push(comma);
    assert forall|k: int| 0 <= k < t.len() implies u[k] == t[k] by {}
    if fields_spec(t, i) is Ok && ident_tok(t, i) && arrow_break(t, i + 1) is None && ident_tok(t, i + 3) {
        assert(arrow_break(u, i + 1) == arrow_break(t, i + 1));
        if i + 4 < t.len() && i + 5 < t.len() {
            trailing_comma_ignored(t, i + 5, comma);
        } else if i + 4 >= t.len() {
            assert(fields_spec(u, i + 5) == Ok::<Seq<FieldView>, ParseError>(Seq::empty()));
            let f = FieldView { source: name_of(t[i]), target: name_of(t[i + 3]) };
            assert(seq![f] + Seq::<FieldView>::empty() =~= seq![f]);
        }
    }
}

/// `a -> b : S -> T {}` parses to a model without fields.
pub proof fn empty_field_list(t: Seq<Tok>)
    requires
        t.len() == 10,
        ident_tok(t, 0),
        arrow_break(t, 1) is None,
        ident_tok(t, 3),
        is_punct(t[4], ':'),
        segment_tok(t, 5),
        arrow_break(t, 6) is None,
        segment_tok(t, 8),
        t[9] matches Tok::Group(Delim::Brace, inner) && inner@.len() == 0,
    ensures
        parse_spec(t) matches Ok(m) && m.fields.len() == 0 && m.source_binding == name_of(t[0])
            && m.target_binding == name_of(t[3]) && m.target_type == seq![name_of(t[8])],
{
    assert(path_spec(t, 5) == Ok::<(Seq<Seq<char>>, int), ParseError>((seq![name_of(t[5])], 6)));
    assert(path_spec(t, 8) == Ok::<(Seq<Seq<char>>, int), ParseError>((seq![name_of(t[8])], 9)));
}

/// Two fields with the same target are both kept, in order: no duplicate is
/// rejected or merged.
pub proof fn duplicate_targets_kept(t: Seq<Tok>)
    requires
        t.len() == 9,
        ident_tok(t, 0),
        arrow_break(t, 1) is None,
        ident_tok(t, 3),
        is_punct(t[4], ','),
        ident_tok(t, 5),
        arrow_break(t, 6) is None,
        ident_tok(t, 8),
        name_of(t[3]) == name_of(t[8]),
    ensures
        fields_spec(t, 0) == Ok::<Seq<FieldView>, ParseError>(seq![
            FieldView { source: name_of(t[0]), target: name_of(t[3]) },
            FieldView { source: name_of(t[5]), target: name_of(t[3]) },
        ]),
{
    reveal_with_fuel(fields_spec, 3);
    let f1 = FieldView { source: name_of(t[0]), target: name_of(t[3]) };
    let f2 = FieldView { source: name_of(t[5]), target: name_of(t[8]) };
    assert(fields_spec(t, 5) == Ok::<Seq<FieldView>, ParseError>(seq![f2]));
    assert(seq![f1] + seq![f2] =~= seq![f1, f2]);
}

/// Parsing stops at the first token that does not fit: with the colon missing
/// after `src -> dst`, the error names that position, whatever follows.
pub proof fn missing_colon_reported_first(t: Seq<Tok>)
    requires
        ident_tok(t, 0),
        arrow_break(t, 1) is None,
        ident_tok(t, 3),
        !(4 < t.len() && is_punct(t[4], ':')),
    ensures
        parse_spec(t) == Err::<ModelView, ParseError>(error_at(t, false, 4, Expected::Colon)),
{
}

} // verus!
