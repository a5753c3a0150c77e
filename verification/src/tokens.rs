//! Token streams: the model that the contracts speak of, and the few
//! operations on `proc_macro2::TokenStream` that the rewriting needs.

use vstd::prelude::*;

verus! {

/// The brackets that enclose a group of tokens.
#[derive(Clone, Copy, Debug, PartialEq, Eq, Structural)]
pub enum Bracket {
    /// `( ... )`
    Parenthesis,
    /// `{ ... }`
    Brace,
    /// `[ ... ]`
    Square,
    /// No written bracket: the group that a macro substitution leaves.
    Invisible,
}

/// One token of a stream, a group being written as its opening bracket, its
/// tokens and its closing bracket.
pub enum Token {
    /// A word: an identifier or a keyword.
    Word(Seq<char>),
    /// A punctuation character; `joint` where the next token is a
    /// punctuation character that follows it without a space.
    Punct { ch: char, joint: bool },
    /// A string literal, given by the text that it denotes.
    Text(Seq<char>),
    /// Any other literal, given as it is written.
    Literal(Seq<char>),
    /// The opening bracket of a group.
    Open(Bracket),
    /// The closing bracket of a group.
    Close(Bracket),
}

#[verifier::external_type_specification]
#[verifier::external_body]
pub struct ExTokenStream(proc_macro2::TokenStream);

/// The tokens that a stream holds, in order.
pub uninterp spec fn stream_tokens(stream: proc_macro2::TokenStream) -> Seq<Token>;

/// The tokens of a group: `inner` between a pair of `bracket`s.
pub open spec fn enclosed(bracket: Bracket, inner: Seq<Token>) -> Seq<Token> {
    seq![Token::Open(bracket)] + inner + seq![Token::Close(bracket)]
}

/// The punctuation characters that a token may hold.
pub open spec fn is_punctuation(ch: char) -> bool {
    ch == '!' || ch == '#' || ch == '$' || ch == '%' || ch == '&' || ch == '\'' || ch == '*'
        || ch == '+' || ch == ',' || ch == '-' || ch == '.' || ch == '/' || ch == ':' || ch == ';'
        || ch == '<' || ch == '=' || ch == '>' || ch == '?' || ch == '@' || ch == '^' || ch == '|'
        || ch == '~'
}

/// A lower-case ASCII letter.
pub open spec fn is_lower(ch: char) -> bool {
    'a' <= ch <= 'z'
}

/// A plain word: lower-case ASCII letters and underscores, the first a
/// letter. Every such text is an identifier or a keyword of the language.
pub open spec fn is_plain_word(text: Seq<char>) -> bool {
    &&& text.len() > 0
    &&& is_lower(text[0])
    &&& forall|i: int| 0 <= i < text.len() ==> is_lower(#[trigger] text[i]) || text[i] == '_'
}

/// A stream without tokens. Calls `proc_macro2::TokenStream::new`.
#[verifier::external_body]
pub(crate) fn empty_stream() -> (stream: proc_macro2::TokenStream)
    ensures
        stream_tokens(stream) == Seq::<Token>::empty(),
{
    proc_macro2::TokenStream::new()
}

/// Whether a stream holds no token. Calls
/// `proc_macro2::TokenStream::is_empty`.
#[verifier::external_body]
pub(crate) fn is_empty_stream(stream: &proc_macro2::TokenStream) -> (empty: bool)
    ensures
        empty == (stream_tokens(*stream).len() == 0),
{
    stream.is_empty()
}

/// A second stream with the tokens of `stream`. Calls the `clone` of
/// `proc_macro2::TokenStream`.
#[verifier::external_body]
pub(crate) fn copy_stream(stream: &proc_macro2::TokenStream) -> (copy: proc_macro2::TokenStream)
    ensures
        stream_tokens(copy) == stream_tokens(*stream),
{
    stream.clone()
}

/// Appends the tokens of `more` to `stream`. Calls the `Extend` of
/// `proc_macro2::TokenStream` with one stream.
#[verifier::external_body]
pub(crate) fn append_stream(stream: &mut proc_macro2::TokenStream, more: proc_macro2::TokenStream)
    ensures
        stream_tokens(*final(stream)) == stream_tokens(*old(stream)) + stream_tokens(more),
{
    stream.extend(std::iter::once(more));
}

/// The stream of the one word `name`. Calls `proc_macro2::Ident::new`, which
/// panics on a text that is no identifier; plain words are.
#[verifier::external_body]
pub(crate) fn word_stream(name: &str) -> (stream: proc_macro2::TokenStream)
    requires
        is_plain_word(name@),
    ensures
        stream_tokens(stream) == seq![Token::Word(name@)],
{
    proc_macro2::TokenStream::from(proc_macro2::TokenTree::Ident(proc_macro2::Ident::new(
        name,
        proc_macro2::Span::call_site(),
    )))
}

/// The stream of the one punctuation character `ch`. Calls
/// `proc_macro2::Punct::new`, which panics on any other character.
#[verifier::external_body]
pub(crate) fn punct_stream(ch: char, joint: bool) -> (stream: proc_macro2::TokenStream)
    requires
        is_punctuation(ch),
    ensures
        stream_tokens(stream) == seq![Token::Punct { ch, joint }],
{
    let spacing = if joint {
        proc_macro2::Spacing::Joint
    } else {
        proc_macro2::Spacing::Alone
    };
    proc_macro2::TokenStream::from(proc_macro2::TokenTree::Punct(proc_macro2::Punct::new(
        ch,
        spacing,
    )))
}

/// The stream of the one string literal that denotes `text`. Calls
/// `proc_macro2::Literal::string`.
#[verifier::external_body]
pub(crate) fn text_stream(text: &str) -> (stream: proc_macro2::TokenStream)
    ensures
        stream_tokens(stream) == seq![Token::Text(text@)],
{
    proc_macro2::TokenStream::from(proc_macro2::TokenTree::Literal(
        proc_macro2::Literal::string(text),
    ))
}

/// The stream of the one group that encloses `inner` in `bracket`s. Calls
/// `proc_macro2::Group::new`.
#[verifier::external_body]
pub(crate) fn group_stream(bracket: Bracket, inner: proc_macro2::TokenStream) -> (stream:
    proc_macro2::TokenStream)
    ensures
        stream_tokens(stream) == enclosed(bracket, stream_tokens(inner)),
{
    let delimiter = match bracket {
        Bracket::Parenthesis => proc_macro2::Delimiter::Parenthesis,
        Bracket::Brace => proc_macro2::Delimiter::Brace,
        Bracket::Square => proc_macro2::Delimiter::Bracket,
        Bracket::Invisible => proc_macro2::Delimiter::None,
    };
    proc_macro2::TokenStream::from(proc_macro2::TokenTree::Group(proc_macro2::Group::new(
        delimiter,
        inner,
    )))
}

} // verus!
