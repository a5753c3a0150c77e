//! Function definitions, and the step from a declaration to a definition.

use crate::declaration::{FnDeclaration, ParseError};
use crate::syntax::{block_statements, parse_block};
use crate::tokens::{
    append_stream, empty_stream, enclosed, group_stream, stream_tokens, Bracket, Token,
};
use vstd::prelude::*;

verus! {

/// The tokens of a definition's four parts.
pub struct DefinitionTokens {
    /// The attributes, one after the other.
    pub attributes: Seq<Token>,
    /// The visibility; empty where the definition has none.
    pub visibility: Seq<Token>,
    /// The signature.
    pub signature: Seq<Token>,
    /// The body: the statements between braces.
    pub block: Seq<Token>,
}

/// A function definition.
#[derive(Debug)]
pub struct FnDefinition {
    /// The attributes, one after the other.
    pub attributes: proc_macro2::TokenStream,
    /// The visibility; empty where the definition has none.
    pub visibility: proc_macro2::TokenStream,
    /// The signature.
    pub signature: proc_macro2::TokenStream,
    /// The body: the statements between braces.
    pub block: proc_macro2::TokenStream,
}

/// The tokens of `streams`, one stream after the other.
pub open spec fn joined(streams: Seq<proc_macro2::TokenStream>) -> Seq<Token>
    decreases streams.len(),
{
    if streams.len() == 0 {
        Seq::empty()
    } else {
        joined(streams.drop_last()) + stream_tokens(streams.last())
    }
}

impl DefinitionTokens {
    /// The definition as it is written: attributes, visibility, signature
    /// and body, in this order.
    pub open spec fn written(self) -> Seq<Token> {
        self.attributes + self.visibility + self.signature + self.block
    }
}

/// One stream with the tokens of `streams`, one stream after the other.
pub fn join_streams(streams: Vec<proc_macro2::TokenStream>) -> (all: proc_macro2::TokenStream)
    ensures
        stream_tokens(all) == joined(streams@),
{
    let ghost given = streams@;
    let mut streams = streams;
    let mut all = empty_stream();
    while streams.len() > 0
        invariant
            joined(given) == joined(streams@) + stream_tokens(all),
        decreases streams.len(),
    {
        let ghost before = streams@;
        let mut longer = streams.pop().unwrap();
        assert(streams@ == before.drop_last());
        append_stream(&mut longer, all);
        all = longer;
        assert(joined(before) + Seq::<Token>::empty() =~= joined(before));
        assert(joined(given) =~= joined(streams@) + stream_tokens(all));
    }
    assert(joined(streams@) =~= Seq::<Token>::empty());
    assert(joined(given) =~= stream_tokens(all));
    all
}

impl FnDefinition {
    /// The tokens of the definition's parts.
    pub open spec fn view(&self) -> DefinitionTokens {
        DefinitionTokens {
            attributes: stream_tokens(self.attributes),
            visibility: stream_tokens(self.visibility),
            signature: stream_tokens(self.signature),
            block: stream_tokens(self.block),
        }
    }

    /// The definition as one stream: attributes, visibility, signature and
    /// body, in this order.
    pub fn into_stream(self) -> (stream: proc_macro2::TokenStream)
        ensures
            stream_tokens(stream) == self@.written(),
    {
        let mut stream = self.attributes;
        append_stream(&mut stream, self.visibility);
        append_stream(&mut stream, self.signature);
        append_stream(&mut stream, self.block);
        stream
    }
}

impl FnDeclaration {
    /// The definition that a declaration becomes with `attrs` in front of it
    /// and the statements `body` for its body, where the body is one.
    pub open spec fn definition_with(
        self,
        attrs: Seq<proc_macro2::TokenStream>,
        body: Seq<Token>,
    ) -> Option<DefinitionTokens> {
        match block_statements(enclosed(Bracket::Brace, body)) {
            None => None,
            Some(statements) => Some(
                DefinitionTokens {
                    attributes: joined(attrs),
                    visibility: self@.visibility,
                    signature: self@.signature,
                    block: enclosed(Bracket::Brace, statements),
                },
            ),
        }
    }

    /// Joins a declaration, attributes and a block that was read already
    /// into a definition.
    pub fn with_block(
        self,
        attrs: Vec<proc_macro2::TokenStream>,
        block: proc_macro2::TokenStream,
    ) -> (definition: FnDefinition)
        ensures
            definition@ == (DefinitionTokens {
                attributes: joined(attrs@),
                visibility: self@.visibility,
                signature: self@.signature,
                block: stream_tokens(block),
            }),
    {
        FnDefinition {
            attributes: join_streams(attrs),
            visibility: self.visibility,
            signature: self.signature,
            block,
        }
    }

    /// Turns the declaration into a definition whose body is `body` between
    /// braces, with `attrs` attached in front.
    ///
    /// The braced body must read as a block; where it does not, the
    /// declaration is refused with the words of the parser. The body of the
    /// definition is the block as it was read.
    pub fn create_definition(
        self,
        attrs: Vec<proc_macro2::TokenStream>,
        body: proc_macro2::TokenStream,
    ) -> (outcome: Result<FnDefinition, ParseError>)
        ensures
            match outcome {
                Ok(definition) => self.definition_with(attrs@, stream_tokens(body)) == Some(
                    definition@,
                ),
                Err(_) => self.definition_with(attrs@, stream_tokens(body)) is None,
            },
    {
        match parse_block(group_stream(Bracket::Brace, body)) {
            Ok(block) => Ok(self.with_block(attrs, block)),
            Err(error) => Err(ParseError::from_parser(error)),
        }
    }
}

} // verus!
