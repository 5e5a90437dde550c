use macro_copy::model::{Field, Model};
use macro_copy::parse::{is_keyword, parse, Expected, Found, ParseError};
use macro_copy::emit::emit;
use macro_copy::token::{Delim, Tok};
use macro_copy::transform::transform;

fn id(s: &str) -> Tok {
    Tok::Ident(s.to_string())
}

fn p(c: char) -> Tok {
    Tok::Punct(c, false)
}

fn arrow() -> Vec<Tok> {
    vec![Tok::Punct('-', true), Tok::Punct('>', false)]
}

fn field_toks(a: &str, b: &str) -> Vec<Tok> {
    let mut v = vec![id(a)];
    v.extend(arrow());
    v.push(id(b));
    v
}

fn decl(sb: &str, tb: &str, st: &str, tt: &str, inner: Vec<Tok>) -> Vec<Tok> {
    let mut v = vec![id(sb)];
    v.extend(arrow());
    v.push(id(tb));
    v.push(p(':'));
    v.push(id(st));
    v.extend(arrow());
    v.push(id(tt));
    v.push(Tok::Group(Delim::Brace, inner));
    v
}

fn fields(pairs: &[(&str, &str)], trailing: bool) -> Vec<Tok> {
    let mut v = Vec::new();
    for (k, (a, b)) in pairs.iter().enumerate() {
        v.extend(field_toks(a, b));
        if k + 1 < pairs.len() || trailing {
            v.push(p(','));
        }
    }
    v
}

fn f(a: &str, b: &str) -> Field {
    Field { source: a.to_string(), target: b.to_string() }
}

fn sample_model() -> Model {
    Model {
        source_binding: "sarah".to_string(),
        target_binding: "hooman".to_string(),
        source_type: vec!["BigPerson".to_string()],
        target_type: vec!["Hooman".to_string()],
        fields: vec![f("name", "first_name"), f("age", "years_old")],
    }
}

fn render(t: &[Tok]) -> String {
    let mut out = Vec::new();
    for x in t {
        match x {
            Tok::Ident(s) | Tok::Literal(s) => out.push(s.clone()),
            Tok::Punct(c, _) => out.push(c.to_string()),
            Tok::Group(_, inner) => out.push(format!("{{ {} }}", render(inner))),
        }
    }
    out.join(" ")
}

#[test]
fn field_input() {
    let t = decl("s", "t", "S", "T", field_toks("name", "first_name"));
    let m = parse(&t).unwrap();
    assert_eq!(m.fields, vec![f("name", "first_name")]);
}

#[test]
fn model_input() {
    let t = decl("sarah", "hooman", "BigPerson", "Hooman",
        fields(&[("name", "first_name"), ("age", "years_old")], true));
    assert_eq!(parse(&t).unwrap(), sample_model());
}

#[test]
fn model_output() {
    let out = emit(&sample_model());
    assert_eq!(render(&out),
        "let hooman = Hooman { first_name : sarah . name , years_old : sarah . age , } ;");
}

#[test]
fn empty_field_list() {
    let t = decl("a", "b", "S", "T", vec![]);
    let m = parse(&t).unwrap();
    assert_eq!(m.fields.len(), 0);
    assert_eq!(render(&emit(&m)), "let b = T {  } ;");
}

#[test]
fn order_is_kept() {
    let t = decl("s", "t", "S", "T", fields(&[("f1", "g1"), ("f2", "g2"), ("f3", "g3")], false));
    let out = transform(&t).unwrap();
    assert_eq!(render(&out), "let t = T { g1 : s . f1 , g2 : s . f2 , g3 : s . f3 , } ;");
}

#[test]
fn trailing_comma_same_model() {
    let a = decl("s", "t", "S", "T", fields(&[("a", "x"), ("b", "y")], true));
    let b = decl("s", "t", "S", "T", fields(&[("a", "x"), ("b", "y")], false));
    assert_eq!(parse(&a).unwrap(), parse(&b).unwrap());
}

#[test]
fn missing_colon_fails_at_colon() {
    let mut t = decl("a", "b", "S", "T", vec![]);
    t.remove(4);
    assert_eq!(parse(&t).unwrap_err(),
        ParseError { in_braces: false, index: 4, expected: Expected::Colon, found: Found::Ident });
}

#[test]
fn duplicate_targets_accepted() {
    let t = decl("s", "t", "S", "T", fields(&[("a", "x"), ("b", "x")], false));
    let out = transform(&t).unwrap();
    assert_eq!(render(&out), "let t = T { x : s . a , x : s . b , } ;");
}

#[test]
fn source_type_does_not_matter() {
    let a = decl("s", "t", "One", "T", fields(&[("a", "x")], false));
    let b = decl("s", "t", "Other", "T", fields(&[("a", "x")], false));
    assert_eq!(render(&transform(&a).unwrap()), render(&transform(&b).unwrap()));
}

#[test]
fn path_types_and_errors() {
    let mut t = vec![id("s")];
    t.extend(arrow());
    t.push(id("t"));
    t.push(p(':'));
    t.push(id("S"));
    t.extend(arrow());
    t.extend(vec![id("a"), Tok::Punct(':', true), p(':'), id("T")]);
    t.push(Tok::Group(Delim::Brace, vec![]));
    assert_eq!(render(&transform(&t).unwrap()), "let t = a : : T {  } ;");
    t.push(p(';'));
    assert_eq!(parse(&t).unwrap_err().expected, Expected::End);
    assert_eq!(parse(&vec![]).unwrap_err().expected, Expected::Ident);
    let bad = decl("s", "t", "S", "T", vec![id("a"), id("b")]);
    assert_eq!(parse(&bad).unwrap_err(),
        ParseError { in_braces: true, index: 1, expected: Expected::Arrow, found: Found::Ident });
    let bad2 = decl("s", "t", "S", "T", vec![id("a"), Tok::Punct('-', true), p('>'), id("x"), id("y")]);
    assert_eq!(parse(&bad2).unwrap_err(),
        ParseError { in_braces: true, index: 4, expected: Expected::Comma, found: Found::Ident });
}

#[test]
fn missing_comma_between_fields() {
    let mut inner = field_toks("a", "x");
    inner.extend(field_toks("b", "y"));
    let t = decl("s", "t", "S", "T", inner);
    assert_eq!(parse(&t).unwrap_err(),
        ParseError { in_braces: true, index: 4, expected: Expected::Comma, found: Found::Ident });
}

#[test]
fn broken_arrow_names_second_token() {
    let t = vec![id("a"), Tok::Punct('-', true), p('<'), id("b")];
    assert_eq!(parse(&t).unwrap_err(),
        ParseError { in_braces: false, index: 2, expected: Expected::Arrow, found: Found::Punct('<') });
    let u = vec![id("a"), p('-'), p('>'), id("b")];
    assert_eq!(parse(&u).unwrap_err(),
        ParseError { in_braces: false, index: 1, expected: Expected::Arrow, found: Found::Punct('-') });
}

#[test]
fn keywords_are_not_identifiers() {
    assert!(is_keyword(&"fn".to_string()));
    assert!(is_keyword(&"_".to_string()));
    assert!(!is_keyword(&"name".to_string()));
    let t = decl("a", "fn", "S", "T", vec![]);
    assert_eq!(parse(&t).unwrap_err(),
        ParseError { in_braces: false, index: 3, expected: Expected::Ident, found: Found::Ident });
    let u = decl("s", "t", "S", "T", field_toks("a", "let"));
    assert_eq!(parse(&u).unwrap_err(),
        ParseError { in_braces: true, index: 3, expected: Expected::Ident, found: Found::Ident });
}

#[test]
fn namespaced_paths_kept() {
    let mut t = vec![id("a")];
    t.extend(arrow());
    t.push(id("b"));
    t.push(p(':'));
    t.extend(vec![id("x"), Tok::Punct(':', true), p(':'), id("y"), Tok::Punct(':', true), p(':'), id("NoSuchType")]);
    t.extend(arrow());
    t.extend(vec![id("crate"), Tok::Punct(':', true), p(':'), id("T")]);
    t.push(Tok::Group(Delim::Brace, vec![]));
    let m = parse(&t).unwrap();
    assert_eq!(m.source_type, vec!["x".to_string(), "y".to_string(), "NoSuchType".to_string()]);
    assert_eq!(m.target_type, vec!["crate".to_string(), "T".to_string()]);
    assert_eq!(render(&emit(&m)), "let b = crate : : T {  } ;");
}

#[test]
fn missing_braces_and_extra_tokens() {
    let mut t = decl("a", "b", "S", "T", vec![]);
    t.pop();
    assert_eq!(parse(&t).unwrap_err(),
        ParseError { in_braces: false, index: 9, expected: Expected::Braces, found: Found::End });
    t.push(Tok::Group(Delim::Paren, vec![]));
    assert_eq!(parse(&t).unwrap_err(),
        ParseError { in_braces: false, index: 9, expected: Expected::Braces, found: Found::Group(Delim::Paren) });
    let mut u = decl("a", "b", "S", "T", vec![]);
    u.push(p(';'));
    assert_eq!(parse(&u).unwrap_err(),
        ParseError { in_braces: false, index: 10, expected: Expected::End, found: Found::Punct(';') });
}
