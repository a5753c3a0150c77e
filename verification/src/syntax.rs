//! What the parser of the language's own grammar decides: where a
//! visibility, a signature and a terminator end at the front of a stream,
//! and whether a stream is a block.
//!
//! The grammar is not restated here. The outcome of each parser run is given
//! a name, and the functions of this module tie what they return to it.

use crate::tokens::{enclosed, stream_tokens, Bracket, Token};
use vstd::prelude::*;

verus! {

#[verifier::external_type_specification]
#[verifier::external_body]
pub struct ExSyntaxError(syn::Error);

/// A stream cut in two: what a parser read at its front, written back as
/// tokens, and what it left.
pub struct Front {
    pub parsed: proc_macro2::TokenStream,
    pub rest: proc_macro2::TokenStream,
}

/// The outcome of reading a visibility at the front of `tokens`: nothing
/// where the run as a whole fails; else the visibility's own tokens, if one
/// could be read, and the tokens that the reading left.
pub uninterp spec fn visibility_front(tokens: Seq<Token>) -> Option<
    (Option<Seq<Token>>, Seq<Token>),
>;

/// The outcome of reading a function signature at the front of `tokens`:
/// nothing where none can be read; else the signature's own tokens and the
/// tokens that follow it.
pub uninterp spec fn signature_front(tokens: Seq<Token>) -> Option<(Seq<Token>, Seq<Token>)>;

/// The outcome of reading the terminator `;` at the front of `tokens` that
/// begin with an invisible group, which the parser looks into: nothing
/// where it finds none there; else the tokens that follow it.
pub uninterp spec fn terminator_front(tokens: Seq<Token>) -> Option<Seq<Token>>;

/// The outcome of reading all of `tokens` as one block: nothing where they
/// are none; else the tokens of the block's statements.
pub uninterp spec fn block_statements(tokens: Seq<Token>) -> Option<Seq<Token>>;

/// Whether `token` is the terminator: the punctuation character `;`.
pub open spec fn is_terminator(token: Token) -> bool {
    token matches Token::Punct { ch, .. } && ch == ';'
}

/// Whether `tokens` hold nothing that a parser could still read: every one
/// of them is the bracket of an invisible group.
pub open spec fn nothing_left(tokens: Seq<Token>) -> bool {
    forall|i: int|
        0 <= i < tokens.len() ==> #[trigger] tokens[i] == Token::Open(Bracket::Invisible)
            || tokens[i] == Token::Close(Bracket::Invisible)
}

/// The words that an error of the parser holds: those of the first of its
/// messages.
pub uninterp spec fn error_words(error: syn::Error) -> Seq<char>;

/// The words of an error of the parser. Calls the `to_string` that
/// `syn::Error` has from its `Display`, which writes the first of the
/// error's messages and nothing else.
#[verifier::external_body]
pub(crate) fn error_text(error: &syn::Error) -> (text: String)
    ensures
        text@ == error_words(*error),
{
    error.to_string()
}

/// Reads a visibility at the front of `stream`.
///
/// Runs `syn::parse::Parser::parse2` on a closure that calls
/// `ParseBuffer::parse` for a `syn::Visibility` and once more for the stream
/// of what is left. A visibility that cannot be read is no failure of the
/// run: it comes back as `None` beside the rest.
#[verifier::external_body]
pub(crate) fn take_visibility(stream: proc_macro2::TokenStream) -> (outcome: Result<
    (Option<proc_macro2::TokenStream>, proc_macro2::TokenStream),
    syn::Error,
>)
    ensures
        match outcome {
            Ok((visibility, rest)) => visibility_front(stream_tokens(stream)) == Some(
                (
                    match visibility {
                        Some(read) => Some(stream_tokens(read)),
                        None => None,
                    },
                    stream_tokens(rest),
                ),
            ),
            Err(_) => visibility_front(stream_tokens(stream)) is None,
        },
{
    let front = |input: syn::parse::ParseStream| {
        let read = input.parse::<syn::Visibility>().ok();
        Ok((read, input.parse::<proc_macro2::TokenStream>()?))
    };
    let (read, rest) = syn::parse::Parser::parse2(front, stream)?;
    Ok((read.map(|visibility| quote::ToTokens::to_token_stream(&visibility)), rest))
}

/// Reads a function signature at the front of `stream`.
///
/// Runs `syn::parse::Parser::parse2` on a closure that calls
/// `ParseBuffer::parse` for a `syn::Signature` and once more for the stream
/// of what is left.
#[verifier::external_body]
pub(crate) fn take_signature(stream: proc_macro2::TokenStream) -> (outcome: Result<
    Front,
    syn::Error,
>)
    ensures
        match outcome {
            Ok(front) => signature_front(stream_tokens(stream)) == Some(
                (stream_tokens(front.parsed), stream_tokens(front.rest)),
            ),
            Err(_) => signature_front(stream_tokens(stream)) is None,
        },
{
    let front = |input: syn::parse::ParseStream| {
        Ok((input.parse::<syn::Signature>()?, input.parse::<proc_macro2::TokenStream>()?))
    };
    let (signature, rest) = syn::parse::Parser::parse2(front, stream)?;
    Ok(Front { parsed: quote::ToTokens::to_token_stream(&signature), rest })
}

/// Reads the terminator `;` at the front of `stream` and hands back what
/// follows it.
///
/// Runs `syn::parse::Parser::parse2` on a closure that calls
/// `ParseBuffer::parse` for a `syn::token::Semi` and once more for the stream
/// of what is left. The parser takes a terminator only from a punctuation
/// token `;`. Where the stream begins with one, that token is taken and the
/// rest is left. Where it begins with an invisible group, the parser looks
/// into the group. A stream that is empty or begins with anything else has
/// no terminator.
#[verifier::external_body]
pub(crate) fn take_terminator(stream: proc_macro2::TokenStream) -> (outcome: Result<
    proc_macro2::TokenStream,
    syn::Error,
>)
    ensures
        stream_tokens(stream).len() > 0 && is_terminator(stream_tokens(stream)[0]) ==> outcome
            is Ok && stream_tokens(outcome->Ok_0) == stream_tokens(stream).skip(1),
        stream_tokens(stream).len() > 0 && stream_tokens(stream)[0] == Token::Open(
            Bracket::Invisible,
        ) ==> match outcome {
            Ok(rest) => terminator_front(stream_tokens(stream)) == Some(stream_tokens(rest)),
            Err(_) => terminator_front(stream_tokens(stream)) is None,
        },
        outcome is Ok ==> stream_tokens(stream).len() > 0 && (is_terminator(
            stream_tokens(stream)[0],
        ) || stream_tokens(stream)[0] == Token::Open(Bracket::Invisible)),
{
    let front = |input: syn::parse::ParseStream| {
        input.parse::<syn::token::Semi>()?;
        input.parse::<proc_macro2::TokenStream>()
    };
    syn::parse::Parser::parse2(front, stream)
}

/// Tests that `stream` holds nothing that a parser could still read.
///
/// Calls `syn::parse2` for a `syn::parse::Nothing`, which reads no token, so
/// that only the test is left that `parse2` makes at the end of every run:
/// it passes over invisible groups that hold nothing but such groups, and
/// refuses the first token of any other kind.
#[verifier::external_body]
pub(crate) fn expect_end(stream: proc_macro2::TokenStream) -> (outcome: Result<(), syn::Error>)
    ensures
        outcome is Ok <==> nothing_left(stream_tokens(stream)),
{
    syn::parse2::<syn::parse::Nothing>(stream).map(|_| ())
}

/// An error of the parser with the words `message`, placed at the call
/// site. Calls `syn::Error::new` with `proc_macro2::Span::call_site`.
#[verifier::external_body]
pub(crate) fn new_error(message: &str) -> (error: syn::Error)
    ensures
        error_words(error) == message@,
{
    syn::Error::new(proc_macro2::Span::call_site(), message)
}

/// Reads all of `stream` as one block and hands back the block as the
/// parser writes it: its statements between braces.
///
/// Calls `syn::parse2` for a `syn::Block` and `quote::ToTokens` on the
/// result.
#[verifier::external_body]
pub(crate) fn parse_block(stream: proc_macro2::TokenStream) -> (outcome: Result<
    proc_macro2::TokenStream,
    syn::Error,
>)
    ensures
        match outcome {
            Ok(block) => block_statements(stream_tokens(stream)) is Some && stream_tokens(block)
                == enclosed(Bracket::Brace, block_statements(stream_tokens(stream))->0),
            Err(_) => block_statements(stream_tokens(stream)) is None,
        },
{
    let block = syn::parse2::<syn::Block>(stream)?;
    Ok(quote::ToTokens::to_token_stream(&block))
}

} // verus!
