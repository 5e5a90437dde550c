use vstd::prelude::*;
use crate::token::{Tok, Delim, is_punct};
use crate::model::{Field, FieldView, Model, ModelView, strs_view, fields_view};

verus! {

/// The token category that the parser wanted at the failing position.
#[derive(Clone, Copy, Debug, PartialEq, Eq, Structural)]
pub enum Expected {
    Ident,
    Arrow,
    Colon,
    Braces,
    Comma,
    End,
}

/// What stood at the failing position.
#[derive(Clone, Copy, Debug, PartialEq, Eq, Structural)]
pub enum Found {
    End,
    Ident,
    Punct(char),
    Literal,
    Group(Delim),
}

/// Where parsing stopped: the index of the first token that does not fit,
/// counted in the declaration or, when `in_braces` holds, in the field list;
/// what was wanted there, and what was found.
#[derive(Clone, Copy, Debug, PartialEq, Eq, Structural)]
pub struct ParseError {
    pub in_braces: bool,
    pub index: usize,
    pub expected: Expected,
    pub found: Found,
}

/// Words that are reserved and so are no identifier.
pub open spec fn keyword(s: Seq<char>) -> bool {
    s == "_"@
        || s == "abstract"@
        || s == "as"@
        || s == "async"@
        || s == "await"@
        || s == "become"@
        || s == "box"@
        || s == "break"@
        || s == "const"@
        || s == "continue"@
        || s == "crate"@
        || s == "do"@
        || s == "dyn"@
        || s == "else"@
        || s == "enum"@
        || s == "extern"@
        || s == "false"@
        || s == "final"@
        || s == "fn"@
        || s == "for"@
        || s == "if"@
        || s == "impl"@
        || s == "in"@
        || s == "let"@
        || s == "loop"@
        || s == "macro"@
        || s == "match"@
        || s == "mod"@
        || s == "move"@
        || s == "mut"@
        || s == "override"@
        || s == "priv"@
        || s == "pub"@
        || s == "ref"@
        || s == "return"@
        || s == "Self"@
        || s == "self"@
        || s == "static"@
        || s == "struct"@
        || s == "super"@
        || s == "trait"@
        || s == "true"@
        || s == "try"@
        || s == "type"@
        || s == "typeof"@
        || s == "unsafe"@
        || s == "unsized"@
        || s == "use"@
        || s == "virtual"@
        || s == "where"@
        || s == "while"@
        || s == "yield"@
}

/// An identifier token that is not a reserved word.
pub open spec fn ident_tok(t: Seq<Tok>, i: int) -> bool {
    0 <= i < t.len() && match t[i] {
        Tok::Ident(x) => !keyword(x@),
        _ => false,
    }
}

/// A path segment: an identifier, or one of `super`, `self`, `Self`, `crate`.
pub open spec fn segment_tok(t: Seq<Tok>, i: int) -> bool {
    0 <= i < t.len() && match t[i] {
        Tok::Ident(x) => !keyword(x@) || x@ == "super"@ || x@ == "self"@ || x@ == "Self"@ || x@ == "crate"@,
        _ => false,
    }
}

pub open spec fn name_of(t: Tok) -> Seq<char> {
    match t {
        Tok::Ident(x) => x@,
        _ => Seq::empty(),
    }
}

pub open spec fn found_at(t: Seq<Tok>, i: int) -> Found {
    if i < 0 || i >= t.len() {
        Found::End
    } else {
        match t[i] {
            Tok::Ident(_) => Found::Ident,
            Tok::Punct(c, _) => Found::Punct(c),
            Tok::Literal(_) => Found::Literal,
            Tok::Group(d, _) => Found::Group(d),
        }
    }
}

pub open spec fn error_at(t: Seq<Tok>, in_braces: bool, i: int, expected: Expected) -> ParseError {
    ParseError { in_braces, index: i as usize, expected, found: found_at(t, i) }
}

/// `->` at `i`: `-` joined to a following `>`. Otherwise the index of the token
/// that breaks it.
pub open spec fn arrow_break(t: Seq<Tok>, i: int) -> Option<int> {
    if !(0 <= i < t.len() && t[i] == Tok::Punct('-', true)) {
        Some(i)
    } else if !(i + 1 < t.len() && is_punct(t[i + 1], '>')) {
        Some(i + 1)
    } else {
        None
    }
}

pub open spec fn is_path_sep_at(t: Seq<Tok>, i: int) -> bool {
    &&& 0 <= i && i + 1 < t.len()
    &&& t[i] == Tok::Punct(':', true)
    &&& is_punct(t[i + 1], ':')
}

/// A path `seg (:: seg)*` starting at `i`: its segments and the index after it.
pub open spec fn path_spec(t: Seq<Tok>, i: int) -> Result<(Seq<Seq<char>>, int), ParseError>
    decreases t.len() - i,
{
    if !segment_tok(t, i) {
        Err(error_at(t, false, i, Expected::Ident))
    } else if is_path_sep_at(t, i + 1) {
        match path_spec(t, i + 3) {
            Ok((p, j)) => Ok((seq![name_of(t[i])] + p, j)),
            Err(e) => Err(e),
        }
    } else {
        Ok((seq![name_of(t[i])], i + 1))
    }
}

/// The field list `(src -> dst),*` with an optional trailing comma, from `i`.
pub open spec fn fields_spec(t: Seq<Tok>, i: int) -> Result<Seq<FieldView>, ParseError>
    decreases t.len() - i,
{
    if i < 0 || i >= t.len() {
        Ok(Seq::empty())
    } else if !ident_tok(t, i) {
        Err(error_at(t, true, i, Expected::Ident))
    } else if arrow_break(t, i + 1) is Some {
        Err(error_at(t, true, arrow_break(t, i + 1)->Some_0, Expected::Arrow))
    } else if !ident_tok(t, i + 3) {
        Err(error_at(t, true, i + 3, Expected::Ident))
    } else {
        let f = FieldView { source: name_of(t[i]), target: name_of(t[i + 3]) };
        if i + 4 >= t.len() {
            Ok(seq![f])
        } else if !is_punct(t[i + 4], ',') {
            Err(error_at(t, true, i + 4, Expected::Comma))
        } else {
            match fields_spec(t, i + 5) {
                Ok(r) => Ok(seq![f] + r),
                Err(e) => Err(e),
            }
        }
    }
}

/// The declaration `src -> dst : SrcType -> DstType { fields }`: its model, or
/// the error at the first token that does not fit.
pub open spec fn parse_spec(t: Seq<Tok>) -> Result<ModelView, ParseError> {
    if !ident_tok(t, 0) {
        Err(error_at(t, false, 0, Expected::Ident))
    } else if arrow_break(t, 1) is Some {
        Err(error_at(t, false, arrow_break(t, 1)->Some_0, Expected::Arrow))
    } else if !ident_tok(t, 3) {
        Err(error_at(t, false, 3, Expected::Ident))
    } else if !(4 < t.len() && is_punct(t[4], ':')) {
        Err(error_at(t, false, 4, Expected::Colon))
    } else {
        match path_spec(t, 5) {
            Err(e) => Err(e),
            Ok((sp, i)) => if arrow_break(t, i) is Some {
                Err(error_at(t, false, arrow_break(t, i)->Some_0, Expected::Arrow))
            } else {
                match path_spec(t, i + 2) {
                    Err(e) => Err(e),
                    Ok((tp, j)) => if j >= t.len() {
                        Err(error_at(t, false, j, Expected::Braces))
                    } else {
                        match t[j] {
                            Tok::Group(Delim::Brace, inner) => match fields_spec(inner@, 0) {
                                Err(e) => Err(e),
                                Ok(fs) => if j + 1 < t.len() {
                                    Err(error_at(t, false, j + 1, Expected::End))
                                } else {
                                    Ok(ModelView {
                                        source_binding: name_of(t[0]),
                                        target_binding: name_of(t[3]),
                                        source_type: sp,
                                        target_type: tp,
                                        fields: fs,
                                    })
                                },
                            },
                            _ => Err(error_at(t, false, j, Expected::Braces)),
                        }
                    },
                }
            },
        }
    }
}

fn is_word(s: &String, w: &str) -> (r: bool)
    ensures
        r == (s@ == w@),
{
    let o = w.to_owned();
    *s == o
}

/// Whether `s` is a reserved word.
pub fn is_keyword(s: &String) -> (r: bool)
    ensures
        r == keyword(s@),
{
    is_word(s, "_")
        || is_word(s, "abstract")
        || is_word(s, "as")
        || is_word(s, "async")
        || is_word(s, "await")
        || is_word(s, "become")
        || is_word(s, "box")
        || is_word(s, "break")
        || is_word(s, "const")
        || is_word(s, "continue")
        || is_word(s, "crate")
        || is_word(s, "do")
        || is_word(s, "dyn")
        || is_word(s, "else")
        || is_word(s, "enum")
        || is_word(s, "extern")
        || is_word(s, "false")
        || is_word(s, "final")
        || is_word(s, "fn")
        || is_word(s, "for")
        || is_word(s, "if")
        || is_word(s, "impl")
        || is_word(s, "in")
        || is_word(s, "let")
        || is_word(s, "loop")
        || is_word(s, "macro")
        || is_word(s, "match")
        || is_word(s, "mod")
        || is_word(s, "move")
        || is_word(s, "mut")
        || is_word(s, "override")
        || is_word(s, "priv")
        || is_word(s, "pub")
        || is_word(s, "ref")
        || is_word(s, "return")
        || is_word(s, "Self")
        || is_word(s, "self")
        || is_word(s, "static")
        || is_word(s, "struct")
        || is_word(s, "super")
        || is_word(s, "trait")
        || is_word(s, "true")
        || is_word(s, "try")
        || is_word(s, "type")
        || is_word(s, "typeof")
        || is_word(s, "unsafe")
        || is_word(s, "unsized")
        || is_word(s, "use")
        || is_word(s, "virtual")
        || is_word(s, "where")
        || is_word(s, "while")
        || is_word(s, "yield")
}

fn found(t: &Vec<Tok>, i: usize) -> (r: Found)
    ensures
        r == found_at(t@, i as int),
{
    if i >= t.len() {
        return Found::End;
    }
    match &t[i] {
        Tok::Ident(_) => Found::Ident,
        Tok::Punct(c, _) => Found::Punct(*c),
        Tok::Literal(_) => Found::Literal,
        Tok::Group(d, _) => Found::Group(*d),
    }
}

fn error(t: &Vec<Tok>, in_braces: bool, i: usize, expected: Expected) -> (r: ParseError)
    ensures
        r == error_at(t@, in_braces, i as int, expected),
{
    ParseError { in_braces, index: i, expected, found: found(t, i) }
}

fn ident_at(t: &Vec<Tok>, i: usize, segment: bool) -> (r: Option<String>)
    ensures
        r is Some <==> (if segment { segment_tok(t@, i as int) } else { ident_tok(t@, i as int) }),
        r matches Some(s) ==> s@ == name_of(t@[i as int]),
{
    if i < t.len() {
        match &t[i] {
            Tok::Ident(s) => {
                let ok = !is_keyword(s) || (segment && (is_word(s, "super") || is_word(s, "self")
                    || is_word(s, "Self") || is_word(s, "crate")));
                if ok {
                    return Some(s.clone());
                }
            },
            _ => {},
        }
    }
    None
}

fn punct_at(t: &Vec<Tok>, i: usize, c: char) -> (r: bool)
    ensures
        r <==> (i < t@.len() && is_punct(t@[i as int], c)),
{
    if i < t.len() {
        match &t[i] {
            Tok::Punct(x, _) => *x == c,
            _ => false,
        }
    } else {
        false
    }
}

fn joint_at(t: &Vec<Tok>, i: usize, c: char) -> (r: bool)
    ensures
        r <==> (i < t@.len() && t@[i as int] == Tok::Punct(c, true)),
{
    if i < t.len() {
        match &t[i] {
            Tok::Punct(x, j) => *x == c && *j,
            _ => false,
        }
    } else {
        false
    }
}

fn arrow_at(t: &Vec<Tok>, i: usize, in_braces: bool) -> (r: Result<(), ParseError>)
    ensures
        r is Ok <==> arrow_break(t@, i as int) is None,
        r matches Err(e) ==> e == error_at(t@, in_braces, arrow_break(t@, i as int)->Some_0, Expected::Arrow),
{
    let _n = t.len();
    if !joint_at(t, i, '-') {
        return Err(error(t, in_braces, i, Expected::Arrow));
    }
    if !punct_at(t, i + 1, '>') {
        return Err(error(t, in_braces, i + 1, Expected::Arrow));
    }
    Ok(())
}

fn path_at(t: &Vec<Tok>, i: usize) -> (r: Result<(Vec<String>, usize), ParseError>)
    ensures
        match path_spec(t@, i as int) {
            Ok((p, j)) => r matches Ok((v, k)) && strs_view(v@) == p && k == j,
            Err(e) => r == Err::<(Vec<String>, usize), ParseError>(e),
        },
    decreases t@.len() - i,
{
    let _n = t.len();
    let s = match ident_at(t, i, true) {
        Some(s) => s,
        None => {
            return Err(error(t, false, i, Expected::Ident));
        },
    };
    if joint_at(t, i + 1, ':') && punct_at(t, i + 2, ':') {
        let (mut v, k) = path_at(t, i + 3)?;
        let ghost rest = v@;
        v.insert(0, s);
        assert(strs_view(v@) =~= seq![name_of(t@[i as int])] + strs_view(rest));
        Ok((v, k))
    } else {
        let mut v: Vec<String> = Vec::new();
        v.push(s);
        assert(strs_view(v@) =~= seq![name_of(t@[i as int])]);
        Ok((v, i + 1))
    }
}

fn fields_at(t: &Vec<Tok>, i: usize) -> (r: Result<Vec<Field>, ParseError>)
    ensures
        match fields_spec(t@, i as int) {
            Ok(fs) => r matches Ok(v) && fields_view(v@) == fs,
            Err(e) => r == Err::<Vec<Field>, ParseError>(e),
        },
    decreases t@.len() - i,
{
    if i >= t.len() {
        let v: Vec<Field> = Vec::new();
        assert(fields_view(v@) =~= Seq::empty());
        return Ok(v);
    }
    let source = match ident_at(t, i, false) {
        Some(s) => s,
        None => {
            return Err(error(t, true, i, Expected::Ident));
        },
    };
    arrow_at(t, i + 1, true)?;
    let target = match ident_at(t, i + 3, false) {
        Some(s) => s,
        None => {
            return Err(error(t, true, i + 3, Expected::Ident));
        },
    };
    let f = Field { source, target };
    if i + 4 >= t.len() {
        let mut v: Vec<Field> = Vec::new();
        v.push(f);
        assert(fields_view(v@) =~= seq![v@[0]@]);
        return Ok(v);
    }
    if !punct_at(t, i + 4, ',') {
        return Err(error(t, true, i + 4, Expected::Comma));
    }
    let mut v = fields_at(t, i + 5)?;
    let ghost rest = v@;
    v.insert(0, f);
    assert(fields_view(v@) =~= seq![v@[0]@] + fields_view(rest));
    Ok(v)
}

/// Parses `src -> dst : SrcType -> DstType { fields }`, stopping at the first
/// token that does not fit the grammar.
pub fn parse(t: &Vec<Tok>) -> (r: Result<Model, ParseError>)
    ensures
        match parse_spec(t@) {
            Ok(m) => r matches Ok(v) && v@ == m,
            Err(e) => r == Err::<Model, ParseError>(e),
        },
{
    let _n = t.len();
    let source_binding = match ident_at(t, 0, false) {
        Some(s) => s,
        None => {
            return Err(error(t, false, 0, Expected::Ident));
        },
    };
    arrow_at(t, 1, false)?;
    let target_binding = match ident_at(t, 3, false) {
        Some(s) => s,
        None => {
            return Err(error(t, false, 3, Expected::Ident));
        },
    };
    if !punct_at(t, 4, ':') {
        return Err(error(t, false, 4, Expected::Colon));
    }
    let (source_type, i) = path_at(t, 5)?;
    arrow_at(t, i, false)?;
    let (target_type, j) = path_at(t, i + 2)?;
    if j >= t.len() {
        return Err(error(t, false, j, Expected::Braces));
    }
    let fields = match &t[j] {
        Tok::Group(Delim::Brace, inner) => fields_at(inner, 0)?,
        _ => {
            return Err(error(t, false, j, Expected::Braces));
        },
    };
    if j + 1 < t.len() {
        return Err(error(t, false, j + 1, Expected::End));
    }
    Ok(Model { source_binding, target_binding, source_type, target_type, fields })
}

} // verus!
