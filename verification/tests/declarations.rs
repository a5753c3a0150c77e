use minimal_logging_core::declaration::FnDeclaration;
use minimal_logging_core::definition::join_streams;
use proc_macro2::TokenStream;
use std::str::FromStr;

fn stream(text: &str) -> TokenStream {
    TokenStream::from_str(text).unwrap()
}

fn written(text: &str) -> String {
    stream(text).to_string()
}

#[test]
fn private_declaration_is_read() {
    let declaration = FnDeclaration::parse(stream("fn foo(a: i32) -> i32;")).unwrap();
    assert!(declaration.visibility.is_empty());
    assert_eq!(declaration.signature.to_string(), written("fn foo(a: i32) -> i32"));
}

#[test]
fn public_declaration_keeps_its_visibility() {
    let declaration = FnDeclaration::parse(stream("pub fn checksum(bytes: &[u8]) -> u64;")).unwrap();
    assert_eq!(declaration.visibility.to_string(), "pub");
    assert_eq!(declaration.signature.to_string(), written("fn checksum(bytes: &[u8]) -> u64"));
}

#[test]
fn restricted_visibility_is_read() {
    let declaration = FnDeclaration::parse(stream("pub(crate) fn f();")).unwrap();
    assert_eq!(declaration.visibility.to_string(), written("pub(crate)"));
    assert_eq!(declaration.signature.to_string(), written("fn f()"));
}

#[test]
fn generic_declaration_with_bounds_is_read() {
    let text = "fn dot_product<T>(a: &[T], b: &[T]) -> T where T: Copy + Default";
    let declaration = FnDeclaration::parse(stream(&format!("{};", text))).unwrap();
    assert_eq!(declaration.signature.to_string(), written(text));
}

#[test]
fn qualified_declaration_is_read() {
    let declaration = FnDeclaration::parse(stream("pub unsafe extern \"C\" fn raw(p: *const u8);"))
        .unwrap();
    assert_eq!(declaration.visibility.to_string(), "pub");
    assert_eq!(
        declaration.signature.to_string(),
        written("unsafe extern \"C\" fn raw(p: *const u8)")
    );
}

#[test]
fn empty_input_is_refused() {
    let refusal = FnDeclaration::parse(TokenStream::new()).unwrap_err();
    assert_eq!(refusal.message, "Expected function declaration");
}

#[test]
fn body_in_place_of_terminator_is_refused() {
    assert!(FnDeclaration::parse(stream("fn foo(a: i32) -> i32 { a }")).is_err());
    assert!(FnDeclaration::parse(stream("pub fn foo() {}")).is_err());
}

#[test]
fn missing_terminator_is_refused() {
    assert!(FnDeclaration::parse(stream("fn foo(a: i32) -> i32")).is_err());
}

#[test]
fn tokens_behind_the_terminator_are_left_unread() {
    let declaration = FnDeclaration::parse(stream("fn foo(); fn bar();")).unwrap();
    assert_eq!(declaration.signature.to_string(), written("fn foo()"));
    let (declaration, rest) = FnDeclaration::parse_front(stream("pub fn foo(); fn bar();")).unwrap();
    assert_eq!(declaration.visibility.to_string(), "pub");
    assert_eq!(declaration.signature.to_string(), written("fn foo()"));
    assert_eq!(rest.to_string(), written("fn bar();"));
}

#[test]
fn nothing_is_left_behind_a_lone_declaration() {
    let (declaration, rest) = FnDeclaration::parse_front(stream("fn foo(a: i32) -> i32;")).unwrap();
    assert_eq!(declaration.signature.to_string(), written("fn foo(a: i32) -> i32"));
    assert!(rest.is_empty());
}

#[test]
fn front_is_refused_as_the_whole_is() {
    assert!(FnDeclaration::parse_front(stream("fn foo() {}")).is_err());
    assert!(FnDeclaration::parse_front(stream("fn foo()")).is_err());
    let refusal = FnDeclaration::parse_front(TokenStream::new()).unwrap_err();
    assert_eq!(refusal.message, "Expected function declaration");
}

#[test]
fn malformed_signature_is_refused() {
    assert!(FnDeclaration::parse(stream("fn (a: i32);")).is_err());
    assert!(FnDeclaration::parse(stream("struct Foo;")).is_err());
    assert!(FnDeclaration::parse(stream(";")).is_err());
}

#[test]
fn attribute_in_front_is_refused() {
    assert!(FnDeclaration::parse(stream("#[inline] fn foo();")).is_err());
}

#[test]
fn unreadable_visibility_is_refused_with_the_signature() {
    assert!(FnDeclaration::parse(stream("pub(in 5) fn foo();")).is_err());
}

#[test]
fn definition_takes_the_parts_of_the_declaration() {
    let declaration = FnDeclaration::parse(stream("pub fn answer() -> u8;")).unwrap();
    let definition = declaration.create_definition(Vec::new(), stream("42")).unwrap();
    assert!(definition.attributes.is_empty());
    assert_eq!(definition.visibility.to_string(), "pub");
    assert_eq!(definition.signature.to_string(), written("fn answer() -> u8"));
    assert_eq!(definition.block.to_string(), written("{ 42 }"));
    assert_eq!(
        FnDeclaration::parse(stream("pub fn answer() -> u8;"))
            .unwrap()
            .create_definition(Vec::new(), stream("42"))
            .unwrap()
            .into_stream()
            .to_string(),
        written("pub fn answer() -> u8 { 42 }")
    );
}

#[test]
fn definition_writes_attributes_first_and_in_order() {
    let declaration = FnDeclaration::parse(stream("fn f();")).unwrap();
    let attrs = vec![stream("#[inline]"), stream("#[must_use]")];
    let definition = declaration.create_definition(attrs, TokenStream::new()).unwrap();
    assert_eq!(definition.attributes.to_string(), written("#[inline] #[must_use]"));
    assert_eq!(definition.into_stream().to_string(), written("#[inline] #[must_use] fn f() {}"));
}

#[test]
fn definition_with_an_empty_body_has_an_empty_block() {
    let declaration = FnDeclaration::parse(stream("fn f();")).unwrap();
    let definition = declaration.create_definition(Vec::new(), TokenStream::new()).unwrap();
    assert_eq!(definition.block.to_string(), written("{}"));
}

#[test]
fn body_that_is_no_block_is_refused() {
    let declaration = FnDeclaration::parse(stream("fn f();")).unwrap();
    assert!(declaration.create_definition(Vec::new(), stream("let")).is_err());
    let declaration = FnDeclaration::parse(stream("fn f();")).unwrap();
    assert!(declaration.create_definition(Vec::new(), stream("1 2")).is_err());
}

#[test]
fn with_block_takes_the_block_as_given() {
    let declaration = FnDeclaration::parse(stream("pub fn f();")).unwrap();
    let definition = declaration.with_block(vec![stream("#[cold]")], stream("{ 1 }"));
    assert_eq!(definition.into_stream().to_string(), written("#[cold] pub fn f() { 1 }"));
}

#[test]
fn joined_streams_keep_their_order() {
    assert!(join_streams(Vec::new()).is_empty());
    assert_eq!(join_streams(vec![stream("a b")]).to_string(), written("a b"));
    assert_eq!(
        join_streams(vec![stream("a"), stream("b c"), TokenStream::new(), stream("d")]).to_string(),
        written("a b c d")
    );
}

#[test]
fn refusal_carries_the_words_of_the_parser() {
    let refusal = FnDeclaration::parse(stream("fn foo() {}")).unwrap_err();
    assert_eq!(refusal.message, "expected `;`");
    let refusal = FnDeclaration::parse(stream("fn f();"))
        .unwrap()
        .create_definition(Vec::new(), stream("let"))
        .unwrap_err();
    assert!(!refusal.message.is_empty());
}

#[test]
fn refusal_keeps_the_error_of_the_parser() {
    let refusal = FnDeclaration::parse(stream("fn foo() {}")).unwrap_err();
    assert_eq!(refusal.source.to_string(), "expected `;`");
    assert_eq!(refusal.source.to_string(), refusal.message);
    let refusal = FnDeclaration::parse(TokenStream::new()).unwrap_err();
    assert_eq!(refusal.source.to_string(), "Expected function declaration");
}
