use pgx_utils::extern_args::strip_quotes;
use pgx_utils::{parse_extern_attributes, ExternArgs, TokenTree};
use std::str::FromStr;

fn convert(ts: proc_macro2::TokenStream) -> Vec<TokenTree> {
    ts.into_iter()
        .map(|t| match t {
            proc_macro2::TokenTree::Group(g) => TokenTree::Group(convert(g.stream())),
            proc_macro2::TokenTree::Ident(i) => TokenTree::Ident(i.to_string()),
            proc_macro2::TokenTree::Punct(p) => TokenTree::Punct(p.as_char()),
            proc_macro2::TokenTree::Literal(l) => TokenTree::Literal(l.to_string()),
        })
        .collect()
}

fn tokens(s: &str) -> Vec<TokenTree> {
    convert(proc_macro2::TokenStream::from_str(s).unwrap())
}

fn ident(s: &str) -> TokenTree {
    TokenTree::Ident(s.to_string())
}

#[test]
fn parse_args() {
    let s = "error = \"syntax error at or near \\\"THIS\\\"\"";
    let ts = tokens(s);

    let args = parse_extern_attributes(&ts).unwrap();
    assert!(args.contains(&ExternArgs::Error(
        "syntax error at or near \"THIS\"".to_string()
    )));
}

#[test]
fn error_payload_built_by_hand() {
    let ts = vec![
        ident("error"),
        TokenTree::Punct('='),
        TokenTree::Literal("\"syntax error at or near \\\"THIS\\\"\"".to_string()),
    ];
    let args = parse_extern_attributes(&ts).unwrap();
    assert_eq!(
        args,
        vec![ExternArgs::Error("syntax error at or near \"THIS\"".to_string())]
    );
}

#[test]
fn every_keyword_is_recognised() {
    let ts = tokens(
        "immutable, strict, stable, volatile, raw, no_guard, parallel_safe, parallel_unsafe, parallel_restricted",
    );
    let args = parse_extern_attributes(&ts).unwrap();
    assert_eq!(
        args,
        vec![
            ExternArgs::Immutable,
            ExternArgs::Strict,
            ExternArgs::Stable,
            ExternArgs::Volatile,
            ExternArgs::Raw,
            ExternArgs::NoGuard,
            ExternArgs::ParallelSafe,
            ExternArgs::ParallelUnsafe,
            ExternArgs::ParallelRestricted,
        ]
    );
}

#[test]
fn duplicate_tags_collapse() {
    let ts = tokens("strict, immutable, strict, strict, error = \"a\", error = \"b\"");
    let args = parse_extern_attributes(&ts).unwrap();
    assert_eq!(
        args,
        vec![
            ExternArgs::Strict,
            ExternArgs::Immutable,
            ExternArgs::Error("a".to_string()),
        ]
    );
}

#[test]
fn reparsing_gives_the_same_set() {
    let ts = tokens("immutable, (parallel_safe, strict), immutable");
    let first = parse_extern_attributes(&ts).unwrap();
    let second = parse_extern_attributes(&ts).unwrap();
    assert_eq!(first, second);
    let mut twice = ts.clone_tokens();
    twice.extend(ts.clone_tokens());
    assert_eq!(parse_extern_attributes(&twice).unwrap(), first);
}

trait CloneTokens {
    fn clone_tokens(&self) -> Vec<TokenTree>;
}

impl CloneTokens for Vec<TokenTree> {
    fn clone_tokens(&self) -> Vec<TokenTree> {
        self.iter()
            .map(|t| match t {
                TokenTree::Group(g) => TokenTree::Group(g.clone_tokens()),
                TokenTree::Ident(i) => TokenTree::Ident(i.clone()),
                TokenTree::Punct(p) => TokenTree::Punct(*p),
                TokenTree::Literal(l) => TokenTree::Literal(l.clone()),
            })
            .collect()
    }
}

#[test]
fn nested_groups_are_flattened() {
    let ts = tokens("(strict, [raw, {no_guard}]), volatile");
    let args = parse_extern_attributes(&ts).unwrap();
    assert_eq!(
        args,
        vec![
            ExternArgs::Strict,
            ExternArgs::Raw,
            ExternArgs::NoGuard,
            ExternArgs::Volatile,
        ]
    );
}

#[test]
fn unknown_tokens_are_ignored() {
    let ts = tokens("sql = \"x\", 42, whatever, stable");
    let args = parse_extern_attributes(&ts).unwrap();
    assert_eq!(args, vec![ExternArgs::Stable]);
}

#[test]
fn empty_list_gives_empty_set() {
    let args = parse_extern_attributes(&Vec::new()).unwrap();
    assert!(args.is_empty());
}

#[test]
fn error_without_literal_is_malformed() {
    assert!(parse_extern_attributes(&tokens("error")).is_err());
    assert!(parse_extern_attributes(&tokens("error =")).is_err());
    assert!(parse_extern_attributes(&tokens("error = strict")).is_err());
}

#[test]
fn error_with_bad_escape_is_malformed() {
    let ts = vec![
        ident("error"),
        TokenTree::Punct('='),
        TokenTree::Literal("\"bad \\q escape\"".to_string()),
    ];
    assert!(parse_extern_attributes(&ts).is_err());
}

#[test]
fn error_with_unquoted_literal_is_malformed() {
    assert!(parse_extern_attributes(&tokens("error = 5")).is_err());
}

#[test]
fn malformed_error_inside_group_fails_the_list() {
    assert!(parse_extern_attributes(&tokens("strict, (error)")).is_err());
}

#[test]
fn quotes_are_stripped_once() {
    assert_eq!(strip_quotes("\"abc\"").as_deref(), Some("abc"));
    assert_eq!(strip_quotes("\"\"").as_deref(), Some(""));
    assert_eq!(strip_quotes("\"say \"hi\"\"").as_deref(), Some("say \"hi\""));
    assert_eq!(strip_quotes("abc"), None);
    assert_eq!(strip_quotes("\""), None);
    assert_eq!(strip_quotes(""), None);
}
