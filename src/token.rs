use vstd::prelude::*;

verus! {

/// Bracket kind of a delimited group of tokens.
#[derive(Clone, Copy, Debug, PartialEq, Eq, Structural)]
pub enum Delim {
    Paren,
    Brace,
    Bracket,
    Invisible,
}

/// One token tree: a word, a punctuation character (with whether it is
/// joined to the next one), a literal, or a delimited group.
#[derive(Debug)]
pub enum Tok {
    Ident(String),
    Punct(char, bool),
    Literal(String),
    Group(Delim, Vec<Tok>),
}

pub open spec fn is_ident(t: Tok, s: Seq<char>) -> bool {
    match t {
        Tok::Ident(x) => x@ == s,
        _ => false,
    }
}

pub open spec fn is_punct(t: Tok, c: char) -> bool {
    match t {
        Tok::Punct(x, _) => x == c,
        _ => false,
    }
}

pub open spec fn is_alone(t: Tok, c: char) -> bool {
    t == Tok::Punct(c, false)
}

} // verus!
