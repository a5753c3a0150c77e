//! Whole functions: reading one with its body, and handing out its parts.
//!
//! A function that was read is kept as the `function_wrapper::WrappedFn`
//! that the reading gave. Its parts are spoken of as tokens.

use crate::tokens::{
    append_stream, copy_stream, empty_stream, enclosed, stream_tokens, Bracket, Token,
};
use vstd::prelude::*;

verus! {

#[verifier::external_type_specification]
#[verifier::external_body]
pub struct ExWrappedFn(function_wrapper::WrappedFn);

/// The tokens of one attribute, and where the attribute is written.
pub struct AttributeTokens {
    /// Whether the attribute is written inside the body (`#![..]`) and not
    /// above the function (`#[..]`).
    pub inner: bool,
    /// The attribute as it is written.
    pub tokens: Seq<Token>,
}

/// One attribute of a function.
#[derive(Debug)]
pub struct FnAttribute {
    /// Whether the attribute is written inside the body (`#![..]`) and not
    /// above the function (`#[..]`).
    pub inner: bool,
    /// The attribute as it is written.
    pub tokens: proc_macro2::TokenStream,
}

/// The tokens of a function's parts.
pub struct FunctionTokens {
    /// The attributes, in the order in which they were read.
    pub attributes: Seq<AttributeTokens>,
    /// The visibility; empty where the function has none.
    pub visibility: Seq<Token>,
    /// The signature.
    pub signature: Seq<Token>,
    /// The statements of the body.
    pub statements: Seq<Token>,
}

/// The outcome of reading all of `tokens` as one function with a body:
/// nothing where they are none; else the function's parts.
pub uninterp spec fn function_parts(tokens: Seq<Token>) -> Option<FunctionTokens>;

/// The parts of the function that `wrapped` holds.
pub uninterp spec fn wrapped_function(wrapped: function_wrapper::WrappedFn) -> FunctionTokens;

/// The tokens of those of `attributes` that are written inside the body
/// (`inner`) or above the function (not `inner`), one attribute after the
/// other.
pub open spec fn attribute_tokens(attributes: Seq<AttributeTokens>, inner: bool) -> Seq<Token>
    decreases attributes.len(),
{
    if attributes.len() == 0 {
        Seq::empty()
    } else if attributes.last().inner == inner {
        attribute_tokens(attributes.drop_last(), inner) + attributes.last().tokens
    } else {
        attribute_tokens(attributes.drop_last(), inner)
    }
}

/// The tokens of each of `attributes`.
pub open spec fn attribute_views(attributes: Seq<FnAttribute>) -> Seq<AttributeTokens> {
    attributes.map_values(|attribute: FnAttribute| attribute@)
}

impl FnAttribute {
    /// The tokens of the attribute, and where it is written.
    pub open spec fn view(&self) -> AttributeTokens {
        AttributeTokens { inner: self.inner, tokens: stream_tokens(self.tokens) }
    }
}

impl FunctionTokens {
    /// What stands in front of the signature: the attributes written above
    /// the function, then the visibility.
    pub open spec fn head(self) -> Seq<Token> {
        attribute_tokens(self.attributes, false) + self.visibility
    }

    /// The attributes written inside the body, in front of its statements.
    pub open spec fn inner(self) -> Seq<Token> {
        attribute_tokens(self.attributes, true)
    }

    /// The function written with `statements` for its body: head,
    /// signature, and between braces the inner attributes and the
    /// statements.
    pub open spec fn written_with(self, statements: Seq<Token>) -> Seq<Token> {
        self.head() + self.signature + enclosed(Bracket::Brace, self.inner() + statements)
    }
}

/// Reads all of `stream` as one function with a body.
///
/// Calls `syn::parse2` for a `function_wrapper::WrappedFn`, whose parser
/// refuses an empty stream and else reads a `syn::ItemFn`.
#[verifier::external_body]
pub(crate) fn parse_wrapped(stream: proc_macro2::TokenStream) -> (outcome: Result<
    function_wrapper::WrappedFn,
    syn::Error,
>)
    ensures
        match outcome {
            Ok(wrapped) => function_parts(stream_tokens(stream)) == Some(
                wrapped_function(wrapped),
            ),
            Err(_) => function_parts(stream_tokens(stream)) is None,
        },
{
    syn::parse2::<function_wrapper::WrappedFn>(stream)
}

/// The attributes of the function that `wrapped` holds, in their order.
/// Walks the `attrs` of its `function` field and calls
/// `quote::ToTokens::to_token_stream` on each; an attribute is inner where
/// its `style` is `syn::AttrStyle::Inner`.
#[verifier::external_body]
pub(crate) fn wrapped_attributes(wrapped: &function_wrapper::WrappedFn) -> (attributes: Vec<
    FnAttribute,
>)
    ensures
        attribute_views(attributes@) == wrapped_function(*wrapped).attributes,
{
    let attrs = wrapped.function.attrs.iter();
    attrs.map(|attribute| FnAttribute {
        inner: match attribute.style {
            syn::AttrStyle::Outer => false,
            syn::AttrStyle::Inner(_) => true,
        },
        tokens: quote::ToTokens::to_token_stream(attribute),
    }).collect()
}

/// The visibility of the function that `wrapped` holds. Calls
/// `quote::ToTokens::to_token_stream` on the visibility of its `function`
/// field.
#[verifier::external_body]
pub(crate) fn wrapped_visibility(wrapped: &function_wrapper::WrappedFn) -> (stream:
    proc_macro2::TokenStream)
    ensures
        stream_tokens(stream) == wrapped_function(*wrapped).visibility,
{
    quote::ToTokens::to_token_stream(&wrapped.function.vis)
}

/// The signature of the function that `wrapped` holds. Calls
/// `quote::ToTokens::to_token_stream` on the signature of its `function`
/// field.
#[verifier::external_body]
pub(crate) fn wrapped_signature(wrapped: &function_wrapper::WrappedFn) -> (stream:
    proc_macro2::TokenStream)
    ensures
        stream_tokens(stream) == wrapped_function(*wrapped).signature,
{
    quote::ToTokens::to_token_stream(&wrapped.function.sig)
}

/// The statements of the function that `wrapped` holds, without the braces
/// around them. Calls `quote::TokenStreamExt::append_all` on an empty stream
/// with the statements of the block of its `function` field.
#[verifier::external_body]
pub(crate) fn wrapped_statements(wrapped: &function_wrapper::WrappedFn) -> (stream:
    proc_macro2::TokenStream)
    ensures
        stream_tokens(stream) == wrapped_function(*wrapped).statements,
{
    let mut stream = proc_macro2::TokenStream::new();
    quote::TokenStreamExt::append_all(&mut stream, &wrapped.function.block.stmts);
    stream
}

/// One stream with those of `attributes` that are written inside the body
/// (`inner`) or above the function (not `inner`), in their order.
pub fn select_attributes(attributes: &Vec<FnAttribute>, inner: bool) -> (stream:
    proc_macro2::TokenStream)
    ensures
        stream_tokens(stream) == attribute_tokens(attribute_views(attributes@), inner),
{
    let ghost all = attribute_views(attributes@);
    let mut stream = empty_stream();
    let mut i: usize = 0;
    while i < attributes.len()
        invariant
            i <= attributes.len(),
            all == attribute_views(attributes@),
            stream_tokens(stream) == attribute_tokens(all.take(i as int), inner),
        decreases attributes.len() - i,
    {
        assert(all.take(i + 1).drop_last() =~= all.take(i as int));
        assert(all.take(i + 1).last() == attributes[i as int]@);
        if attributes[i].inner == inner {
            append_stream(&mut stream, copy_stream(&attributes[i].tokens));
        }
        i += 1;
    }
    assert(all.take(i as int) =~= all);
    stream
}

} // verus!
