//! The transformation on parsed syntax trees and token streams.

use vstd::prelude::*;
use quote::ToTokens;
use syn::spanned::Spanned;
use crate::expand::{duplicate_message, duplicate_message_text, expand, Expansion};
use crate::guard::{is_first_duplicate, no_duplicate};
use crate::model::{qualifies, texts, variant_views, EnumDeclaration, Payload, PayloadView, Variant, VariantView};
use crate::synth::{
    conversion_for, conversion_views, conversions_of, lemma_indices_qualify, qualifying_indices, Conversion,
    ConversionView,
};
use crate::tokens::{append, group, punct, token_trees, word, Enclosure, TokenView};

verus! {

/// `syn::ItemEnum`, a parsed enum declaration. Its contents are read through
/// the functions below only.
#[verifier::external_type_specification]
#[verifier::external_body]
pub struct ExItemEnum(syn::ItemEnum);

/// `syn::Error`, a diagnostic with its source position.
#[verifier::external_type_specification]
#[verifier::external_body]
pub struct ExError(syn::Error);

/// The identifier of a parsed enum, as text.
pub uninterp spec fn declared_name(item: syn::ItemEnum) -> Seq<char>;

/// The variants of a parsed enum in declaration order: each one's identifier
/// and the shape of its fields, the type of every unnamed field as the text
/// of its tokens.
pub uninterp spec fn declared_variants(item: syn::ItemEnum) -> Seq<VariantView>;

/// The token trees of a parsed enum's declaration.
pub uninterp spec fn declared_tokens(item: syn::ItemEnum) -> Seq<TokenView>;

/// The token trees of the type of the field at position `field` of the
/// variant at position `variant` of a parsed enum.
pub uninterp spec fn declared_type_tokens(item: syn::ItemEnum, variant: int, field: int) -> Seq<
    TokenView,
>;

/// The token trees of the compile error that an error renders as.
pub uninterp spec fn error_trees(error: syn::Error) -> Seq<TokenView>;

/// The token trees of the compile error that carries `message` and points at
/// the variant at position `index` of a parsed enum.
pub uninterp spec fn diagnostic_trees(item: syn::ItemEnum, index: int, message: Seq<char>) -> Seq<
    TokenView,
>;

/// The shape of a variant's fields, with the number of unnamed ones.
#[derive(Debug, PartialEq, Eq)]
pub(crate) enum FieldForm {
    Unit,
    Unnamed(usize),
    Named,
}

/// Calls `Ident::to_string` on the enum's identifier. Trusted: the result is
/// the declared name.
#[verifier::external_body]
fn enum_name(item: &syn::ItemEnum) -> (name: String)
    ensures
        name@ == declared_name(*item),
{
    item.ident.to_string()
}

/// Calls `Punctuated::len` on the enum's variants. Trusted: the result is the
/// number of declared variants.
#[verifier::external_body]
fn variant_count(item: &syn::ItemEnum) -> (count: usize)
    ensures
        count == declared_variants(*item).len(),
{
    item.variants.len()
}

/// Calls `Ident::to_string` on the identifier of the variant at `index`.
/// Trusted: the result is that variant's declared name.
#[verifier::external_body]
fn variant_name(item: &syn::ItemEnum, index: usize) -> (name: String)
    requires
        index < declared_variants(*item).len(),
    ensures
        name@ == declared_variants(*item)[index as int].name,
{
    item.variants[index].ident.to_string()
}

/// Tells the variants of `syn::Fields` apart for the variant at `index`, with
/// `Punctuated::len` of the unnamed fields. Trusted: the result is the
/// declared shape.
#[verifier::external_body]
fn variant_form(item: &syn::ItemEnum, index: usize) -> (form: FieldForm)
    requires
        index < declared_variants(*item).len(),
    ensures
        match form {
            FieldForm::Unit => declared_variants(*item)[index as int].payload == PayloadView::Unit,
            FieldForm::Named => declared_variants(*item)[index as int].payload
                == PayloadView::Named,
            FieldForm::Unnamed(count) => {
                &&& declared_variants(*item)[index as int].payload is Unnamed
                &&& declared_variants(*item)[index as int].payload->Unnamed_0.len() == count
            },
        },
{
    match &item.variants[index].fields {
        syn::Fields::Unit => FieldForm::Unit,
        syn::Fields::Unnamed(fields) => FieldForm::Unnamed(fields.unnamed.len()),
        syn::Fields::Named(_) => FieldForm::Named,
    }
}

/// Calls `ToTokens::to_token_stream` and `to_string` on the type of the field
/// at `field` of the variant at `index`. Trusted: the result is the declared
/// type text of that unnamed field.
#[verifier::external_body]
fn field_type(item: &syn::ItemEnum, index: usize, field: usize) -> (text: String)
    requires
        index < declared_variants(*item).len(),
        declared_variants(*item)[index as int].payload is Unnamed,
        field < declared_variants(*item)[index as int].payload->Unnamed_0.len(),
    ensures
        text@ == declared_variants(*item)[index as int].payload->Unnamed_0[field as int],
{
    item.variants[index].fields.iter().nth(field).unwrap().ty.to_token_stream().to_string()
}

/// Calls `ToTokens::to_token_stream` on the enum. Trusted: the stream holds
/// the declaration's token trees.
#[verifier::external_body]
fn declaration_tokens(item: &syn::ItemEnum) -> (tokens: proc_macro2::TokenStream)
    ensures
        token_trees(tokens) == declared_tokens(*item),
{
    item.to_token_stream()
}

/// Calls `ToTokens::to_token_stream` on the enum's identifier. Trusted: the
/// stream holds that one identifier, whose text is the declared name.
#[verifier::external_body]
fn enum_name_tokens(item: &syn::ItemEnum) -> (tokens: proc_macro2::TokenStream)
    ensures
        token_trees(tokens) == seq![TokenView::Word(declared_name(*item))],
{
    item.ident.to_token_stream()
}

/// Calls `ToTokens::to_token_stream` on the identifier of the variant at
/// `index`. Trusted: the stream holds that one identifier, whose text is the
/// variant's declared name.
#[verifier::external_body]
fn variant_name_tokens(item: &syn::ItemEnum, index: usize) -> (tokens: proc_macro2::TokenStream)
    requires
        index < declared_variants(*item).len(),
    ensures
        token_trees(tokens) == seq![TokenView::Word(declared_variants(*item)[index as int].name)],
{
    item.variants[index].ident.to_token_stream()
}

/// Calls `ToTokens::to_token_stream` on the type of the field at `field` of
/// the variant at `index`. Trusted: the stream holds the declared tokens of
/// that type.
#[verifier::external_body]
fn field_type_tokens(item: &syn::ItemEnum, index: usize, field: usize) -> (tokens:
    proc_macro2::TokenStream)
    requires
        index < declared_variants(*item).len(),
        declared_variants(*item)[index as int].payload is Unnamed,
        field < declared_variants(*item)[index as int].payload->Unnamed_0.len(),
    ensures
        token_trees(tokens) == declared_type_tokens(*item, index as int, field as int),
{
    item.variants[index].fields.iter().nth(field).unwrap().ty.to_token_stream()
}

/// Calls `syn::Error::new` with the span that `Spanned::span` gives for the
/// variant at `index`. Trusted: the error renders as the diagnostic for that
/// variant and message.
#[verifier::external_body]
fn variant_error(item: &syn::ItemEnum, index: usize, message: &str) -> (error: syn::Error)
    requires
        index < declared_variants(*item).len(),
    ensures
        error_trees(error) == diagnostic_trees(*item, index as int, message@),
{
    syn::Error::new(item.variants[index].span(), message)
}

/// Calls `syn::Error::to_compile_error`. Trusted: the stream holds the token
/// trees that the error renders as.
#[verifier::external_body]
fn error_tokens(error: &syn::Error) -> (tokens: proc_macro2::TokenStream)
    ensures
        token_trees(tokens) == error_trees(*error),
{
    error.to_compile_error()
}

/// Reads the field types of the variant at `index`, which has `count`
/// unnamed fields.
fn read_field_types(item: &syn::ItemEnum, index: usize, count: usize) -> (types: Vec<String>)
    requires
        index < declared_variants(*item).len(),
        declared_variants(*item)[index as int].payload is Unnamed,
        declared_variants(*item)[index as int].payload->Unnamed_0.len() == count,
    ensures
        texts(types@) == declared_variants(*item)[index as int].payload->Unnamed_0,
{
    let ghost declared = declared_variants(*item)[index as int].payload->Unnamed_0;
    let mut types: Vec<String> = Vec::new();
    let mut field: usize = 0;
    while field < count
        invariant
            field <= count,
            index < declared_variants(*item).len(),
            declared_variants(*item)[index as int].payload is Unnamed,
            declared == declared_variants(*item)[index as int].payload->Unnamed_0,
            declared.len() == count,
            types@.len() == field,
            forall|k: int| 0 <= k < field ==> (#[trigger] types@[k])@ == declared[k],
        decreases count - field,
    {
        let text = field_type(item, index, field);
        types.push(text);
        field += 1;
    }
    proof {
        assert(texts(types@) =~= declared);
    }
    types
}

/// Reads a parsed enum into the plain-data model: its name, and for every
/// variant its name and the shape of its fields.
pub fn read_declaration(item: &syn::ItemEnum) -> (declaration: EnumDeclaration)
    ensures
        declaration.name@ == declared_name(*item),
        variant_views(declaration.variants@) == declared_variants(*item),
{
    let name = enum_name(item);
    let count = variant_count(item);
    let mut variants: Vec<Variant> = Vec::new();
    let mut index: usize = 0;
    while index < count
        invariant
            index <= count,
            count == declared_variants(*item).len(),
            variants@.len() == index,
            forall|k: int| 0 <= k < index ==> (#[trigger] variants@[k])@ == declared_variants(*item)[k],
        decreases count - index,
    {
        let name = variant_name(item, index);
        let payload = match variant_form(item, index) {
            FieldForm::Unit => Payload::Unit,
            FieldForm::Named => Payload::Named,
            FieldForm::Unnamed(fields) => Payload::Unnamed(read_field_types(item, index, fields)),
        };
        variants.push(Variant { name, payload });
        index += 1;
    }
    proof {
        assert(variant_views(variants@) =~= declared_variants(*item));
    }
    EnumDeclaration { name, variants }
}

/// The token trees of the `From` impl that wraps a value of the type
/// `payload` into the variant `variant` of the enum `enum_name`:
/// `impl From<payload> for enum_name { fn from(value: payload) -> Self { Self::variant(value) } }`.
pub open spec fn impl_trees(enum_name: Seq<char>, variant: Seq<char>, payload: Seq<TokenView>) -> Seq<
    TokenView,
> {
    let wrap = seq![
        TokenView::Word("Self"@),
        TokenView::Punct(':', true),
        TokenView::Punct(':', false),
        TokenView::Word(variant),
        TokenView::Group(Enclosure::Parenthesis, seq![TokenView::Word("value"@)]),
    ];
    let parameter = seq![TokenView::Word("value"@), TokenView::Punct(':', false)] + payload;
    let function = seq![
        TokenView::Word("fn"@),
        TokenView::Word("from"@),
        TokenView::Group(Enclosure::Parenthesis, parameter),
        TokenView::Punct('-', true),
        TokenView::Punct('>', false),
        TokenView::Word("Self"@),
        TokenView::Group(Enclosure::Brace, wrap),
    ];
    seq![TokenView::Word("impl"@), TokenView::Word("From"@), TokenView::Punct('<', false)] + payload
        + seq![
        TokenView::Punct('>', false),
        TokenView::Word("for"@),
        TokenView::Word(enum_name),
        TokenView::Group(Enclosure::Brace, function),
    ]
}

/// The token trees of one conversion's `From` impl. The payload type stands
/// in it with the tokens that the declaration has for it.
pub open spec fn conversion_trees(item: syn::ItemEnum, c: ConversionView) -> Seq<TokenView> {
    impl_trees(c.enum_name, c.variant, declared_type_tokens(item, c.position, 0))
}

/// The token trees of the `From` impls of a list of conversions, in the
/// order of the list.
pub open spec fn impls_trees(item: syn::ItemEnum, cs: Seq<ConversionView>) -> Seq<TokenView>
    decreases cs.len(),
{
    if cs.len() == 0 {
        Seq::empty()
    } else {
        impls_trees(item, cs.drop_last()) + conversion_trees(item, cs.last())
    }
}

/// Joins two streams.
fn joined(front: proc_macro2::TokenStream, back: proc_macro2::TokenStream) -> (tokens:
    proc_macro2::TokenStream)
    ensures
        token_trees(tokens) == token_trees(front) + token_trees(back),
{
    let mut tokens = front;
    append(&mut tokens, back);
    tokens
}

/// Writes the `From` impl for the variant at `index`, which has exactly one
/// unnamed field: a value of the field's type becomes that variant of the
/// enum, with the value as its payload. The enum's name, the variant's name
/// and the type are the declaration's own tokens.
fn conversion_tokens(item: &syn::ItemEnum, index: usize) -> (tokens: proc_macro2::TokenStream)
    requires
        index < declared_variants(*item).len(),
        qualifies(declared_variants(*item)[index as int]),
    ensures
        token_trees(tokens) == impl_trees(
            declared_name(*item),
            declared_variants(*item)[index as int].name,
            declared_type_tokens(*item, index as int, 0),
        ),
{
    proof {
        reveal_strlit("impl");
        reveal_strlit("From");
        reveal_strlit("for");
        reveal_strlit("fn");
        reveal_strlit("from");
        reveal_strlit("value");
        reveal_strlit("Self");
    }
    let wrap = joined(
        joined(joined(joined(word("Self"), punct(':', true)), punct(':', false)), variant_name_tokens(item, index)),
        group(Enclosure::Parenthesis, word("value")),
    );
    let parameter = joined(joined(word("value"), punct(':', false)), field_type_tokens(item, index, 0));
    let function = joined(
        joined(
            joined(
                joined(
                    joined(joined(word("fn"), word("from")), group(Enclosure::Parenthesis, parameter)),
                    punct('-', true),
                ),
                punct('>', false),
            ),
            word("Self"),
        ),
        group(Enclosure::Brace, wrap),
    );
    let opening = joined(joined(word("impl"), word("From")), punct('<', false));
    let closing = joined(
        joined(joined(punct('>', false), word("for")), enum_name_tokens(item)),
        group(Enclosure::Brace, function),
    );
    let tokens = joined(joined(opening, field_type_tokens(item, index, 0)), closing);
    proof {
        assert(token_trees(wrap) =~= seq![
            TokenView::Word("Self"@),
            TokenView::Punct(':', true),
            TokenView::Punct(':', false),
            TokenView::Word(declared_variants(*item)[index as int].name),
            TokenView::Group(Enclosure::Parenthesis, seq![TokenView::Word("value"@)]),
        ]);
        assert(token_trees(function) =~= seq![
            TokenView::Word("fn"@),
            TokenView::Word("from"@),
            TokenView::Group(Enclosure::Parenthesis, token_trees(parameter)),
            TokenView::Punct('-', true),
            TokenView::Punct('>', false),
            TokenView::Word("Self"@),
            TokenView::Group(Enclosure::Brace, token_trees(wrap)),
        ]);
        assert(token_trees(opening) =~= seq![
            TokenView::Word("impl"@),
            TokenView::Word("From"@),
            TokenView::Punct('<', false),
        ]);
        assert(token_trees(closing) =~= seq![
            TokenView::Punct('>', false),
            TokenView::Word("for"@),
            TokenView::Word(declared_name(*item)),
            TokenView::Group(Enclosure::Brace, token_trees(function)),
        ]);
        assert(token_trees(parameter) =~= seq![
            TokenView::Word("value"@),
            TokenView::Punct(':', false),
        ] + declared_type_tokens(*item, index as int, 0));
        assert(token_trees(tokens) =~= impl_trees(
            declared_name(*item),
            declared_variants(*item)[index as int].name,
            declared_type_tokens(*item, index as int, 0),
        ));
    }
    tokens
}

/// Writes the `From` impl for the variant at `index`, if there is such a
/// variant and it has exactly one unnamed field; for any other index or shape
/// nothing is written.
pub fn synthesize(item: &syn::ItemEnum, index: usize) -> (made: Option<proc_macro2::TokenStream>)
    ensures
        match made {
            Some(tokens) => {
                &&& index < declared_variants(*item).len()
                &&& qualifies(declared_variants(*item)[index as int])
                &&& token_trees(tokens) == impl_trees(
                    declared_name(*item),
                    declared_variants(*item)[index as int].name,
                    declared_type_tokens(*item, index as int, 0),
                )
            },
            None => !(index < declared_variants(*item).len() && qualifies(
                declared_variants(*item)[index as int],
            )),
        },
{
    if index >= variant_count(item) {
        return None;
    }
    match variant_form(item, index) {
        FieldForm::Unnamed(count) => {
            if count == 1 {
                Some(conversion_tokens(item, index))
            } else {
                None
            }
        },
        _ => None,
    }
}

/// Writes the declaration followed by the `From` impl of every conversion,
/// in the order of the list.
fn with_conversions(item: &syn::ItemEnum, conversions: &Vec<Conversion>) -> (out:
    proc_macro2::TokenStream)
    requires
        conversion_views(conversions@) == conversions_of(
            declared_name(*item),
            declared_variants(*item),
        ),
    ensures
        token_trees(out) == declared_tokens(*item) + impls_trees(
            *item,
            conversion_views(conversions@),
        ),
{
    let ghost vs = declared_variants(*item);
    let ghost cs = conversion_views(conversions@);
    let mut out = declaration_tokens(item);
    let mut k: usize = 0;
    proof {
        lemma_indices_qualify(vs);
        assert(token_trees(out) =~= declared_tokens(*item) + impls_trees(*item, cs.take(0)));
    }
    while k < conversions.len()
        invariant
            k <= conversions.len(),
            vs == declared_variants(*item),
            cs == conversion_views(conversions@),
            cs == conversions_of(declared_name(*item), vs),
            forall|j: int|
                0 <= j < qualifying_indices(vs).len() ==> 0 <= #[trigger] qualifying_indices(vs)[j]
                    < vs.len() && qualifies(vs[qualifying_indices(vs)[j]]),
            token_trees(out) == declared_tokens(*item) + impls_trees(*item, cs.take(k as int)),
        decreases conversions.len() - k,
    {
        let position = conversions[k].position;
        proof {
            assert(cs[k as int] == conversions@[k as int]@);
            assert(cs.len() == qualifying_indices(vs).len());
            assert(cs[k as int] == conversion_for(
                declared_name(*item),
                vs,
                qualifying_indices(vs)[k as int],
            ));
            assert(position == qualifying_indices(vs)[k as int]);
        }
        let piece = conversion_tokens(item, position);
        proof {
            let upto = cs.take(k + 1);
            assert(upto.drop_last() =~= cs.take(k as int));
            assert(upto.last() == cs[k as int]);
            assert(token_trees(piece) == conversion_trees(*item, cs[k as int]));
            assert(declared_tokens(*item) + impls_trees(*item, cs.take(k as int)) + token_trees(piece)
                =~= declared_tokens(*item) + impls_trees(*item, upto));
        }
        append(&mut out, piece);
        k += 1;
    }
    proof {
        assert(cs.take(k as int) =~= cs);
    }
    out
}

/// The diagnostic for the variant at `index`, which repeats an earlier
/// payload type: a compile error at that variant with the fixed message.
fn duplicate_diagnostic(item: &syn::ItemEnum, index: usize) -> (out: proc_macro2::TokenStream)
    requires
        index < declared_variants(*item).len(),
    ensures
        token_trees(out) == diagnostic_trees(*item, index as int, duplicate_message_text()),
{
    let error = variant_error(item, index, duplicate_message());
    error_tokens(&error)
}

/// Transforms a parsed enum into its output tokens.
///
/// If a variant with exactly one unnamed field repeats the payload type of an
/// earlier such variant, the output is a single compile error that points at
/// the first variant that does so, and nothing else. Otherwise the output is
/// the declaration as written, followed by one `From` impl for every variant
/// with exactly one unnamed field, in declaration order.
pub fn ace_it_impl(parsed: syn::ItemEnum) -> (out: proc_macro2::TokenStream)
    ensures
        forall|k: int|
            is_first_duplicate(declared_variants(parsed), k) ==> token_trees(out)
                == diagnostic_trees(parsed, k, duplicate_message_text()),
        no_duplicate(declared_variants(parsed)) ==> token_trees(out) == declared_tokens(parsed)
            + impls_trees(
            parsed,
            conversions_of(declared_name(parsed), declared_variants(parsed)),
        ),
{
    let declaration = read_declaration(&parsed);
    match expand(&declaration) {
        Expansion::Rejected { variant } => duplicate_diagnostic(&parsed, variant),
        Expansion::Accepted { conversions } => with_conversions(&parsed, &conversions),
    }
}

} // verus!
