use minimal_logging_core::attributes::{marked_statements, stub_statements, to_be_implemented, wip};
use minimal_logging_core::function::{select_attributes, FnAttribute};
use minimal_logging_core::statement::warning_statement;
use proc_macro2::{Delimiter, Group, Spacing, TokenStream, TokenTree};
use std::str::FromStr;

fn stream(text: &str) -> TokenStream {
    TokenStream::from_str(text).unwrap()
}

fn written(text: &str) -> String {
    stream(text).to_string()
}

fn without_spaces(text: &str) -> String {
    text.chars().filter(|c| !c.is_whitespace()).collect()
}

#[test]
fn warning_statement_names_the_signature() {
    let statement = warning_statement("`{}` is not yet implemented", stream("fn foo(a: i32)"));
    assert_eq!(
        statement.to_string(),
        written(
            "minimal_logging::macros::warnln!(\"`{}` is not yet implemented\", stringify!(fn foo(a: i32)));"
        )
    );
}

#[test]
fn warning_statement_has_the_tokens_of_a_macro_call() {
    let trees: Vec<TokenTree> = warning_statement("m", TokenStream::new()).into_iter().collect();
    assert_eq!(trees.len(), 10);
    match (&trees[1], &trees[2]) {
        (TokenTree::Punct(first), TokenTree::Punct(second)) => {
            assert_eq!(first.as_char(), ':');
            assert_eq!(first.spacing(), Spacing::Joint);
            assert_eq!(second.as_char(), ':');
            assert_eq!(second.spacing(), Spacing::Alone);
        }
        _ => panic!("the path separator is two punctuation tokens"),
    }
    match &trees[8] {
        TokenTree::Group(arguments) => {
            let inner: Vec<TokenTree> = arguments.stream().into_iter().collect();
            assert_eq!(inner.len(), 5);
            assert_eq!(inner[0].to_string(), "\"m\"");
            assert_eq!(inner[2].to_string(), "stringify");
            match &inner[4] {
                TokenTree::Group(signature) => assert!(signature.stream().is_empty()),
                _ => panic!("the signature stands in a group"),
            }
        }
        _ => panic!("the arguments stand in a group"),
    }
    assert_eq!(trees[9].to_string(), ";");
}

#[test]
fn warning_statement_keeps_a_format_with_quotes() {
    let statement = warning_statement("say \"hi\"", stream("fn f()"));
    assert_eq!(
        statement.to_string(),
        written("minimal_logging::macros::warnln!(\"say \\\"hi\\\"\", stringify!(fn f()));")
    );
}

#[test]
fn stub_statements_end_in_the_fallback() {
    let body = stub_statements(stream("fn f() -> u8"), stream("7"));
    assert_eq!(
        body.to_string(),
        written(
            "minimal_logging::macros::warnln!(\"`{}` is not yet implemented\", stringify!(fn f() -> u8)); 7"
        )
    );
}

#[test]
fn marked_statements_end_in_the_old_statements() {
    let body = marked_statements(stream("fn f()"), stream("let a = 1; a"));
    assert_eq!(
        body.to_string(),
        written(
            "minimal_logging::macros::warnln!(\"`{}` is a work-in-progress\", stringify!(fn f())); let a = 1; a"
        )
    );
}

#[test]
fn attributes_are_selected_by_their_place() {
    let attributes = vec![
        FnAttribute { inner: false, tokens: stream("#[inline]") },
        FnAttribute { inner: true, tokens: stream("#![allow(unused)]") },
        FnAttribute { inner: false, tokens: stream("#[must_use]") },
    ];
    assert_eq!(select_attributes(&attributes, false).to_string(), written("#[inline] #[must_use]"));
    assert_eq!(select_attributes(&attributes, true).to_string(), written("#![allow(unused)]"));
    assert!(select_attributes(&Vec::new(), true).is_empty());
}

#[test]
fn stub_of_foo_warns_and_returns_zero() {
    let stub = to_be_implemented(stream("0"), stream("fn foo(a: i32) -> i32;")).unwrap();
    assert_eq!(
        stub.to_string(),
        written(
            "fn foo(a: i32) -> i32 { \
             minimal_logging::macros::warnln!(\"`{}` is not yet implemented\", stringify!(fn foo(a: i32) -> i32)); \
             0 }"
        )
    );
}

#[test]
fn stub_without_fallback_only_warns() {
    let stub =
        to_be_implemented(TokenStream::new(), stream("fn foo(a: i32, b: f32, c: &str);")).unwrap();
    assert_eq!(
        stub.to_string(),
        written(
            "fn foo(a: i32, b: f32, c: &str) { \
             minimal_logging::macros::warnln!(\"`{}` is not yet implemented\", stringify!(fn foo(a: i32, b: f32, c: &str))); \
             }"
        )
    );
}

#[test]
fn stub_keeps_the_visibility() {
    let stub = to_be_implemented(stream("69"), stream("pub fn checksum(bytes: &[u8]) -> u64;"))
        .unwrap();
    assert_eq!(
        stub.to_string(),
        written(
            "pub fn checksum(bytes: &[u8]) -> u64 { \
             minimal_logging::macros::warnln!(\"`{}` is not yet implemented\", stringify!(fn checksum(bytes: &[u8]) -> u64)); \
             69 }"
        )
    );
}

#[test]
fn stub_takes_an_expression_for_fallback() {
    let stub = to_be_implemented(stream("Vec::new()"), stream("fn all() -> Vec<u8>;")).unwrap();
    assert_eq!(
        stub.to_string(),
        written(
            "fn all() -> Vec<u8> { \
             minimal_logging::macros::warnln!(\"`{}` is not yet implemented\", stringify!(fn all() -> Vec<u8>)); \
             Vec::new() }"
        )
    );
}

#[test]
fn stub_refuses_what_is_no_declaration() {
    assert!(to_be_implemented(stream("0"), stream("fn foo(a: i32) -> i32 { a }")).is_err());
    assert!(to_be_implemented(stream("0"), stream("fn foo(a: i32) -> i32")).is_err());
    assert!(to_be_implemented(stream("0"), stream("let x = 1;")).is_err());
    let refusal = to_be_implemented(stream("0"), TokenStream::new()).unwrap_err();
    assert_eq!(refusal.message, "Expected function declaration");
}

#[test]
fn stub_refuses_tokens_behind_the_declaration() {
    let refusal = to_be_implemented(stream("0"), stream("fn foo() -> i32; fn bar();")).unwrap_err();
    assert_eq!(refusal.message, "unexpected token");
    assert_eq!(refusal.source.to_string(), "unexpected token");
}

#[test]
fn stub_passes_over_an_empty_invisible_group() {
    let mut input = stream("fn foo() -> i32;");
    input.extend(std::iter::once(TokenTree::Group(Group::new(Delimiter::None, TokenStream::new()))));
    let stub = to_be_implemented(stream("0"), input).unwrap();
    assert_eq!(
        stub.to_string(),
        written(
            "fn foo() -> i32 { \
             minimal_logging::macros::warnln!(\"`{}` is not yet implemented\", stringify!(fn foo() -> i32)); \
             0 }"
        )
    );
}

#[test]
fn stub_refuses_a_fallback_that_is_no_expression() {
    assert!(to_be_implemented(stream("let"), stream("fn foo() -> i32;")).is_err());
    assert!(to_be_implemented(stream("1 2"), stream("fn foo() -> i32;")).is_err());
}

#[test]
fn marked_bar_warns_and_keeps_its_body() {
    let marked = wip(TokenStream::new(), stream("fn bar() { return 1; }")).unwrap();
    assert_eq!(
        marked.to_string(),
        written(
            "fn bar() { \
             minimal_logging::macros::warnln!(\"`{}` is a work-in-progress\", stringify!(fn bar())); \
             return 1; }"
        )
    );
}

#[test]
fn marked_function_without_statements_only_warns() {
    let marked = wip(TokenStream::new(), stream("fn f() {}")).unwrap();
    assert_eq!(
        marked.to_string(),
        written(
            "fn f() { \
             minimal_logging::macros::warnln!(\"`{}` is a work-in-progress\", stringify!(fn f())); }"
        )
    );
}

#[test]
fn marked_function_keeps_the_order_of_its_statements() {
    let marked = wip(
        TokenStream::new(),
        stream("pub fn checksum(bytes: &[u8]) -> u64 { let mut sum: u64 = 0; sum += 1; sum }"),
    )
    .unwrap();
    assert_eq!(
        marked.to_string(),
        written(
            "pub fn checksum(bytes: &[u8]) -> u64 { \
             minimal_logging::macros::warnln!(\"`{}` is a work-in-progress\", stringify!(fn checksum(bytes: &[u8]) -> u64)); \
             let mut sum: u64 = 0; sum += 1; sum }"
        )
    );
}

#[test]
fn marked_function_keeps_its_attributes() {
    let marked = wip(
        TokenStream::new(),
        stream("#[inline] #[must_use] pub(crate) fn f() -> u8 { #![allow(unused)] let a = 1; a }"),
    )
    .unwrap();
    assert_eq!(
        without_spaces(&marked.to_string()),
        without_spaces(
            "#[inline] #[must_use] pub(crate) fn f() -> u8 { #![allow(unused)] \
             minimal_logging::macros::warnln!(\"`{}` is a work-in-progress\", stringify!(fn f() -> u8)); \
             let a = 1; a }"
        )
    );
}

#[test]
fn marked_function_adds_one_statement_in_front() {
    let marked = wip(TokenStream::new(), stream("fn f() { a(); b(); c() }")).unwrap();
    let trees: Vec<TokenTree> = marked.into_iter().collect();
    let body = match trees.last() {
        Some(TokenTree::Group(body)) => body.stream().to_string(),
        _ => panic!("the function ends in its body"),
    };
    assert_eq!(body.matches(';').count(), 3);
    assert!(body.ends_with(written("a(); b(); c()").as_str()));
}

#[test]
fn marking_does_not_use_the_arguments() {
    let with = wip(stream("anything at all"), stream("fn f() {}")).unwrap();
    let without = wip(TokenStream::new(), stream("fn f() {}")).unwrap();
    assert_eq!(with.to_string(), without.to_string());
}

#[test]
fn marking_refuses_what_is_no_function() {
    assert!(wip(TokenStream::new(), stream("fn bar();")).is_err());
    assert!(wip(TokenStream::new(), stream("struct Bar;")).is_err());
    assert!(wip(TokenStream::new(), stream("fn bar() {} fn baz() {}")).is_err());
    let refusal = wip(TokenStream::new(), TokenStream::new()).unwrap_err();
    assert_eq!(refusal.message, "expected function");
}
