//! The statement that a rewritten function starts with: a call of the
//! warning macro that names the function by its signature.
//!
//! The macro is written by the path under which users reach it,
//! `minimal_logging::macros::warnln`.

use crate::tokens::{
    append_stream, enclosed, group_stream, punct_stream, stream_tokens, text_stream, word_stream,
    Bracket, Token,
};
use vstd::prelude::*;

verus! {

/// What the warning says of a function that has no body of its own yet.
pub open spec fn not_implemented_text() -> Seq<char> {
    "`{}` is not yet implemented"@
}

/// What the warning says of a function whose body is unfinished.
pub open spec fn work_in_progress_text() -> Seq<char> {
    "`{}` is a work-in-progress"@
}

/// The tokens of `::`.
pub open spec fn path_separator() -> Seq<Token> {
    seq![Token::Punct { ch: ':', joint: true }, Token::Punct { ch: ':', joint: false }]
}

/// The tokens of `minimal_logging::macros::warnln`.
pub open spec fn macro_path() -> Seq<Token> {
    seq![Token::Word("minimal_logging"@)] + path_separator() + seq![Token::Word("macros"@)]
        + path_separator() + seq![Token::Word("warnln"@)]
}

/// The tokens between the parentheses of the warning:
/// `"<format>", stringify!(<signature>)`.
pub open spec fn warning_arguments(format: Seq<char>, signature: Seq<Token>) -> Seq<Token> {
    seq![
        Token::Text(format),
        Token::Punct { ch: ',', joint: false },
        Token::Word("stringify"@),
        Token::Punct { ch: '!', joint: false },
    ] + enclosed(Bracket::Parenthesis, signature)
}

/// The tokens of the whole statement:
/// `minimal_logging::macros::warnln!("<format>", stringify!(<signature>));`.
pub open spec fn warning_tokens(format: Seq<char>, signature: Seq<Token>) -> Seq<Token> {
    macro_path() + seq![Token::Punct { ch: '!', joint: false }] + enclosed(
        Bracket::Parenthesis,
        warning_arguments(format, signature),
    ) + seq![Token::Punct { ch: ';', joint: false }]
}

/// The stream of `::`.
fn path_separator_stream() -> (stream: proc_macro2::TokenStream)
    ensures
        stream_tokens(stream) == path_separator(),
{
    let mut stream = punct_stream(':', true);
    append_stream(&mut stream, punct_stream(':', false));
    stream
}

/// The stream of `minimal_logging::macros::warnln`.
fn macro_path_stream() -> (stream: proc_macro2::TokenStream)
    ensures
        stream_tokens(stream) == macro_path(),
{
    proof {
        reveal_strlit("minimal_logging");
        reveal_strlit("macros");
        reveal_strlit("warnln");
    }
    let mut stream = word_stream("minimal_logging");
    append_stream(&mut stream, path_separator_stream());
    append_stream(&mut stream, word_stream("macros"));
    append_stream(&mut stream, path_separator_stream());
    append_stream(&mut stream, word_stream("warnln"));
    stream
}

/// The statement that warns with `format` about the function of
/// `signature`.
pub fn warning_statement(format: &str, signature: proc_macro2::TokenStream) -> (stream:
    proc_macro2::TokenStream)
    ensures
        stream_tokens(stream) == warning_tokens(format@, stream_tokens(signature)),
{
    proof {
        reveal_strlit("stringify");
    }
    let ghost signature_tokens = stream_tokens(signature);
    let mut arguments = text_stream(format);
    append_stream(&mut arguments, punct_stream(',', false));
    append_stream(&mut arguments, word_stream("stringify"));
    append_stream(&mut arguments, punct_stream('!', false));
    append_stream(&mut arguments, group_stream(Bracket::Parenthesis, signature));
    assert(stream_tokens(arguments) =~= warning_arguments(format@, signature_tokens));
    let mut stream = macro_path_stream();
    append_stream(&mut stream, punct_stream('!', false));
    append_stream(&mut stream, group_stream(Bracket::Parenthesis, arguments));
    append_stream(&mut stream, punct_stream(';', false));
    stream
}

} // verus!
