//! Token streams, and the few constructors that build one token at a time.

use vstd::prelude::*;
use quote::ToTokens;

verus! {

/// `proc_macro2::TokenStream`, a sequence of token trees.
#[verifier::external_type_specification]
#[verifier::external_body]
pub struct ExTokenStream(proc_macro2::TokenStream);

/// The delimiters that can enclose a group of tokens.
#[derive(Debug, Clone, Copy, PartialEq, Eq)]
pub enum Enclosure {
    /// `( ... )`
    Parenthesis,
    /// `{ ... }`
    Brace,
    /// `[ ... ]`
    Bracket,
    /// No visible delimiter.
    Invisible,
}

/// The mathematical value of one token tree, without its source position.
pub ghost enum TokenView {
    /// An identifier or keyword, by its text.
    Word(Seq<char>),
    /// A punctuation character; the flag says that the next punctuation
    /// character follows it immediately, as in `::`.
    Punct(char, bool),
    /// A literal, by its text.
    Literal(Seq<char>),
    /// A delimited group and the token trees inside it.
    Group(Enclosure, Seq<TokenView>),
}

/// The token trees that a stream holds, in order.
pub uninterp spec fn token_trees(tokens: proc_macro2::TokenStream) -> Seq<TokenView>;

/// An ASCII letter.
pub open spec fn is_letter(c: char) -> bool {
    ('a' <= c && c <= 'z') || ('A' <= c && c <= 'Z')
}

/// A non-empty text of ASCII letters: always a keyword or a legal identifier.
pub open spec fn is_word(text: Seq<char>) -> bool {
    &&& text.len() > 0
    &&& forall|i: int| 0 <= i < text.len() ==> is_letter(#[trigger] text[i])
}

/// A character that can stand as punctuation in a token stream.
pub open spec fn is_mark(c: char) -> bool {
    c == '!' || c == '#' || c == '$' || c == '%' || c == '&' || c == '\'' || c == '*' || c == '+'
        || c == ',' || c == '-' || c == '.' || c == '/' || c == ':' || c == ';' || c == '<' || c
        == '=' || c == '>' || c == '?' || c == '@' || c == '^' || c == '|' || c == '~'
}

/// Calls `proc_macro2::Ident::new` at the call site's span. Trusted: the
/// stream holds the one identifier with the given text. The function panics
/// on a text that is neither keyword nor identifier, which `requires` rules
/// out.
#[verifier::external_body]
pub(crate) fn word(text: &str) -> (tokens: proc_macro2::TokenStream)
    requires
        is_word(text@),
    ensures
        token_trees(tokens) == seq![TokenView::Word(text@)],
{
    proc_macro2::Ident::new(text, proc_macro2::Span::call_site()).into_token_stream()
}

/// Calls `proc_macro2::Punct::new`. Trusted: the stream holds the one
/// punctuation character with the given spacing. The function panics on any
/// other character than those of `is_mark`.
#[verifier::external_body]
pub(crate) fn punct(mark: char, joint: bool) -> (tokens: proc_macro2::TokenStream)
    requires
        is_mark(mark),
    ensures
        token_trees(tokens) == seq![TokenView::Punct(mark, joint)],
{
    let spacing = if joint { proc_macro2::Spacing::Joint } else { proc_macro2::Spacing::Alone };
    proc_macro2::Punct::new(mark, spacing).into_token_stream()
}

/// Calls `proc_macro2::Group::new`. Trusted: the stream holds the one group
/// with the given delimiter around the given token trees.
#[verifier::external_body]
pub(crate) fn group(enclosure: Enclosure, inner: proc_macro2::TokenStream) -> (tokens:
    proc_macro2::TokenStream)
    ensures
        token_trees(tokens) == seq![TokenView::Group(enclosure, token_trees(inner))],
{
    let delimiter = match enclosure {
        Enclosure::Parenthesis => proc_macro2::Delimiter::Parenthesis,
        Enclosure::Brace => proc_macro2::Delimiter::Brace,
        Enclosure::Bracket => proc_macro2::Delimiter::Bracket,
        Enclosure::Invisible => proc_macro2::Delimiter::None,
    };
    proc_macro2::Group::new(delimiter, inner).into_token_stream()
}

/// Calls `Extend::extend` on a stream with another stream. Trusted: the token
/// trees of the second follow those of the first.
#[verifier::external_body]
pub(crate) fn append(tokens: &mut proc_macro2::TokenStream, more: proc_macro2::TokenStream)
    ensures
        token_trees(*final(tokens)) == token_trees(*old(tokens)) + token_trees(more),
{
    tokens.extend(more);
}

} // verus!
