//! The two rewritings: a declaration becomes a function that warns and
//! hands back a fallback value, and a function gets a warning in front of
//! its body.

use crate::declaration::{declaration_front, empty_input_text, FnDeclaration, ParseError};
use crate::function::{
    function_parts, parse_wrapped, select_attributes, wrapped_attributes, wrapped_signature,
    wrapped_statements, wrapped_visibility, FunctionTokens,
};
use crate::statement::{
    not_implemented_text, warning_statement, warning_tokens, work_in_progress_text,
};
use crate::syntax::{block_statements, expect_end, nothing_left};
use crate::tokens::{
    append_stream, copy_stream, enclosed, group_stream, stream_tokens, Bracket, Token,
};
use vstd::prelude::*;

verus! {

/// The statements of a stub: the warning that the function of `signature` is
/// not yet implemented, then the tokens of the fallback value.
pub open spec fn stub_body(signature: Seq<Token>, fallback: Seq<Token>) -> Seq<Token> {
    warning_tokens(not_implemented_text(), signature) + fallback
}

/// The stub of the declaration `input` with `fallback`, where there is one:
/// `input` is a declaration with nothing readable behind it, and the stub is
/// the declaration's visibility and signature, and for the body the block
/// that `stub_body` between braces reads as.
pub open spec fn stub_of(fallback: Seq<Token>, input: Seq<Token>) -> Option<Seq<Token>> {
    match declaration_front(input) {
        None => None,
        Some((declaration, rest)) => if !nothing_left(rest) {
            None
        } else {
            match block_statements(
                enclosed(Bracket::Brace, stub_body(declaration.signature, fallback)),
            ) {
                None => None,
                Some(statements) => Some(
                    declaration.visibility + declaration.signature + enclosed(
                        Bracket::Brace,
                        statements,
                    ),
                ),
            }
        },
    }
}

/// The statements of a function marked as unfinished: the warning that the
/// function of `signature` is a work in progress, then the function's own
/// statements.
pub open spec fn marked_body(signature: Seq<Token>, statements: Seq<Token>) -> Seq<Token> {
    warning_tokens(work_in_progress_text(), signature) + statements
}

/// The function of `parts` marked as unfinished: the function as it was,
/// with `marked_body` for its statements.
pub open spec fn marked(parts: FunctionTokens) -> Seq<Token> {
    parts.written_with(marked_body(parts.signature, parts.statements))
}

/// The statements of the stub for `signature` with the fallback value
/// `fallback`.
pub fn stub_statements(
    signature: proc_macro2::TokenStream,
    fallback: proc_macro2::TokenStream,
) -> (body: proc_macro2::TokenStream)
    ensures
        stream_tokens(body) == stub_body(stream_tokens(signature), stream_tokens(fallback)),
{
    let mut body = warning_statement("`{}` is not yet implemented", signature);
    append_stream(&mut body, fallback);
    body
}

/// The statements of a function marked as unfinished, for its `signature`
/// and its own `statements`.
pub fn marked_statements(
    signature: proc_macro2::TokenStream,
    statements: proc_macro2::TokenStream,
) -> (body: proc_macro2::TokenStream)
    ensures
        stream_tokens(body) == marked_body(stream_tokens(signature), stream_tokens(statements)),
{
    let mut body = warning_statement("`{}` is a work-in-progress", signature);
    append_stream(&mut body, statements);
    body
}

/// Turns the declaration `input` into a function that warns that it is not
/// yet implemented and then evaluates `args`, the fallback value.
///
/// `input` must be a declaration and nothing more, and the warning followed
/// by `args` must read as the inside of a block; else the input is refused.
/// An input without tokens is refused with the words "Expected function
/// declaration". Whether `args` suits the declared return type is not looked
/// at.
pub fn to_be_implemented(args: proc_macro2::TokenStream, input: proc_macro2::TokenStream) -> (outcome:
    Result<proc_macro2::TokenStream, ParseError>)
    ensures
        match outcome {
            Ok(stream) => stub_of(stream_tokens(args), stream_tokens(input)) == Some(
                stream_tokens(stream),
            ),
            Err(_) => stub_of(stream_tokens(args), stream_tokens(input)) is None,
        },
        stream_tokens(input).len() == 0 ==> outcome is Err && outcome->Err_0.message@
            == empty_input_text(),
{
    let (declaration, rest) = match FnDeclaration::parse_front(input) {
        Ok(pair) => pair,
        Err(refusal) => {
            return Err(refusal);
        },
    };
    match expect_end(rest) {
        Ok(_) => {},
        Err(error) => {
            return Err(ParseError::from_parser(error));
        },
    }
    let body = stub_statements(copy_stream(&declaration.signature), args);
    match declaration.create_definition(Vec::new(), body) {
        Ok(definition) => {
            let stream = definition.into_stream();
            assert(stream_tokens(stream) =~= stub_of(stream_tokens(args), stream_tokens(input))->0);
            Ok(stream)
        },
        Err(refusal) => Err(refusal),
    }
}

/// Puts the warning that the function is a work in progress in front of the
/// statements of the function `input`. The statements themselves stay as
/// they are and in their order, each one place later than before.
///
/// `input` must be a function with a body; else it is refused. Every
/// function with a body is rewritten. The attribute's own arguments are not
/// used.
pub fn wip(_args: proc_macro2::TokenStream, input: proc_macro2::TokenStream) -> (outcome: Result<
    proc_macro2::TokenStream,
    ParseError,
>)
    ensures
        match function_parts(stream_tokens(input)) {
            Some(parts) => outcome is Ok && stream_tokens(outcome->Ok_0) == marked(parts),
            None => outcome is Err,
        },
{
    let wrapped = match parse_wrapped(input) {
        Ok(wrapped) => wrapped,
        Err(error) => {
            return Err(ParseError::from_parser(error));
        },
    };
    let attributes = wrapped_attributes(&wrapped);
    let signature = wrapped_signature(&wrapped);
    let mut stream = select_attributes(&attributes, false);
    append_stream(&mut stream, wrapped_visibility(&wrapped));
    append_stream(&mut stream, copy_stream(&signature));
    let mut body = select_attributes(&attributes, true);
    append_stream(&mut body, marked_statements(signature, wrapped_statements(&wrapped)));
    append_stream(&mut stream, group_stream(Bracket::Brace, body));
    Ok(stream)
}

} // verus!
