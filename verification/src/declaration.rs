//! Function declarations: a visibility and a signature closed by `;` in
//! place of a body.

use crate::syntax::{
    error_text, error_words, is_terminator, new_error, signature_front, take_signature,
    take_terminator, take_visibility, terminator_front, visibility_front,
};
use crate::tokens::{empty_stream, is_empty_stream, stream_tokens, Bracket, Token};
use vstd::prelude::*;

verus! {

/// Why an input was refused: it is not of the shape that was asked for.
#[derive(Debug)]
pub struct ParseError {
    /// What was expected or what stood in the way, in words.
    pub message: String,
    /// The error of the parser, which knows the place that it speaks of.
    pub source: syn::Error,
}

/// The tokens of a declaration's two parts.
pub struct DeclarationTokens {
    /// The visibility; empty where the declaration has none.
    pub visibility: Seq<Token>,
    /// The signature.
    pub signature: Seq<Token>,
}

/// A function declaration.
#[derive(Debug)]
pub struct FnDeclaration {
    /// The visibility; empty where the declaration has none.
    pub visibility: proc_macro2::TokenStream,
    /// The signature.
    pub signature: proc_macro2::TokenStream,
}

/// What is said of an input without tokens.
pub open spec fn empty_input_text() -> Seq<char> {
    "Expected function declaration"@
}

/// The tokens that a visibility reading contributes: its own, or none where
/// no visibility could be read.
pub open spec fn visibility_or_none(read: Option<Seq<Token>>) -> Seq<Token> {
    match read {
        Some(tokens) => tokens,
        None => Seq::empty(),
    }
}

/// The tokens that follow a terminator at the front of `tokens`, where one
/// stands there: all but the first, where the first is `;`.
pub open spec fn after_terminator(tokens: Seq<Token>) -> Option<Seq<Token>> {
    if tokens.len() == 0 {
        None
    } else if is_terminator(tokens[0]) {
        Some(tokens.skip(1))
    } else if tokens[0] == Token::Open(Bracket::Invisible) {
        terminator_front(tokens)
    } else {
        None
    }
}

/// The tokens that follow the signature of `tokens`, where a visibility (or
/// none) and a signature can be read at their front.
pub open spec fn after_signature(tokens: Seq<Token>) -> Option<Seq<Token>> {
    match visibility_front(tokens) {
        None => None,
        Some((_, after_visibility)) => match signature_front(after_visibility) {
            None => None,
            Some((_, left)) => Some(left),
        },
    }
}

/// The declaration at the front of `tokens` and the tokens behind it, where
/// there is one: the tokens are not empty, and a visibility (or none), a
/// signature and a terminator can be read in this order.
pub open spec fn declaration_front(tokens: Seq<Token>) -> Option<(DeclarationTokens, Seq<Token>)> {
    if tokens.len() == 0 {
        None
    } else {
        match visibility_front(tokens) {
            None => None,
            Some((visibility, after_visibility)) => match signature_front(after_visibility) {
                None => None,
                Some((signature, left)) => match after_terminator(left) {
                    None => None,
                    Some(rest) => Some(
                        (
                            DeclarationTokens {
                                visibility: visibility_or_none(visibility),
                                signature,
                            },
                            rest,
                        ),
                    ),
                },
            },
        }
    }
}

/// The declaration at the front of `tokens`, where there is one.
pub open spec fn declaration_of(tokens: Seq<Token>) -> Option<DeclarationTokens> {
    match declaration_front(tokens) {
        None => None,
        Some((declaration, _)) => Some(declaration),
    }
}

impl ParseError {
    /// The error that carries an error of the parser and its words.
    pub(crate) fn from_parser(error: syn::Error) -> (refusal: ParseError)
        ensures
            refusal.message@ == error_words(error),
            refusal.source == error,
    {
        ParseError { message: error_text(&error), source: error }
    }

    /// The error that says `message` of the input as a whole.
    pub(crate) fn with_words(message: &str) -> (refusal: ParseError)
        ensures
            refusal.message@ == message@,
            error_words(refusal.source) == message@,
    {
        ParseError::from_parser(new_error(message))
    }
}

impl FnDeclaration {
    /// The tokens of the declaration's parts.
    pub open spec fn view(&self) -> DeclarationTokens {
        DeclarationTokens {
            visibility: stream_tokens(self.visibility),
            signature: stream_tokens(self.signature),
        }
    }

    /// Reads a declaration at the front of `input` and hands it back with
    /// the tokens that follow its terminator.
    ///
    /// An input without tokens is refused with the words "Expected function
    /// declaration". A visibility that cannot be read counts as none. The
    /// signature and the terminator must be there.
    pub fn parse_front(input: proc_macro2::TokenStream) -> (outcome: Result<
        (FnDeclaration, proc_macro2::TokenStream),
        ParseError,
    >)
        ensures
            match outcome {
                Ok((declaration, rest)) => declaration_front(stream_tokens(input)) == Some(
                    (declaration@, stream_tokens(rest)),
                ),
                Err(_) => declaration_front(stream_tokens(input)) is None,
            },
            stream_tokens(input).len() == 0 ==> outcome is Err && outcome->Err_0.message@
                == empty_input_text(),
    {
        if is_empty_stream(&input) {
            return Err(ParseError::with_words("Expected function declaration"));
        }
        let (read, after_visibility) = match take_visibility(input) {
            Ok(pair) => pair,
            Err(error) => {
                return Err(ParseError::from_parser(error));
            },
        };
        let visibility = match read {
            Some(stream) => stream,
            None => empty_stream(),
        };
        let front = match take_signature(after_visibility) {
            Ok(front) => front,
            Err(error) => {
                return Err(ParseError::from_parser(error));
            },
        };
        match take_terminator(front.rest) {
            Ok(rest) => Ok((FnDeclaration { visibility, signature: front.parsed }, rest)),
            Err(error) => Err(ParseError::from_parser(error)),
        }
    }

    /// Reads a declaration at the front of `input`. What follows its
    /// terminator is left unread.
    ///
    /// An input without tokens is refused with the words "Expected function
    /// declaration". A visibility that cannot be read counts as none. The
    /// signature and the terminator must be there.
    pub fn parse(input: proc_macro2::TokenStream) -> (outcome: Result<FnDeclaration, ParseError>)
        ensures
            match outcome {
                Ok(declaration) => declaration_of(stream_tokens(input)) == Some(declaration@),
                Err(_) => declaration_of(stream_tokens(input)) is None,
            },
            stream_tokens(input).len() == 0 ==> outcome is Err && outcome->Err_0.message@
                == empty_input_text(),
    {
        match FnDeclaration::parse_front(input) {
            Ok((declaration, _)) => Ok(declaration),
            Err(refusal) => Err(refusal),
        }
    }
}

/// Tokens are refused for exactly three reasons: they are empty, no
/// signature can be read behind the visibility (or none), or what follows
/// the signature does not begin with a terminator.
pub proof fn lemma_reasons_for_refusal(tokens: Seq<Token>)
    ensures
        declaration_of(tokens) is None <==> tokens.len() == 0 || after_signature(tokens) is None
            || after_terminator(after_signature(tokens)->0) is None,
{
}

/// A signature that is followed by `;` makes a declaration, whatever
/// follows the `;`, and exactly the tokens behind the `;` are left.
pub proof fn lemma_terminated_signature_is_declaration(tokens: Seq<Token>)
    requires
        tokens.len() > 0,
        after_signature(tokens) matches Some(left) && left.len() > 0 && is_terminator(left[0]),
    ensures
        declaration_front(tokens) matches Some((_, rest)) && rest == after_signature(
            tokens,
        )->0.skip(1),
{
}

/// Where a body stands in the place of the terminator, the tokens are no
/// declaration: a signature that is followed by an opening brace is followed
/// by no terminator.
pub proof fn lemma_body_is_no_terminator(tokens: Seq<Token>)
    requires
        after_signature(tokens) matches Some(left) && left.len() > 0 && left[0] == Token::Open(
            Bracket::Brace,
        ),
    ensures
        declaration_of(tokens) is None,
{
}

} // verus!
