//! The transformation on the plain-data model: reject on a repeated payload
//! type, otherwise list the conversions.

use vstd::prelude::*;
use crate::guard::{find_duplicate_variant_type, is_first_duplicate, no_duplicate};
use crate::model::{variant_views, EnumDeclaration};
use crate::synth::{conversion_views, conversions_of, process_variants, Conversion};

verus! {

/// The outcome of the transformation.
#[derive(Debug, PartialEq, Eq)]
pub enum Expansion {
    /// Every payload type is distinct: the declaration stands as written and
    /// is followed by these conversions.
    Accepted { conversions: Vec<Conversion> },
    /// The variant at this position repeats an earlier payload type. Nothing
    /// is generated.
    Rejected { variant: usize },
}

/// The text of the diagnostic for a repeated payload type.
pub open spec fn duplicate_message_text() -> Seq<char> {
    "Duplicate variant type, can't auto-generate From impls"@
}

/// The message of the diagnostic for a repeated payload type.
pub fn duplicate_message() -> (message: &'static str)
    ensures
        message@ == duplicate_message_text(),
{
    "Duplicate variant type, can't auto-generate From impls"
}

/// Transforms a declaration. The guard runs first: if a variant repeats the
/// payload type of an earlier one, the first such variant is reported and no
/// conversion is produced. Otherwise every variant with exactly one unnamed
/// field gets its conversion, in declaration order.
pub fn expand(declaration: &EnumDeclaration) -> (outcome: Expansion)
    ensures
        outcome is Accepted <==> no_duplicate(variant_views(declaration.variants@)),
        match outcome {
            Expansion::Rejected { variant } => is_first_duplicate(
                variant_views(declaration.variants@),
                variant as int,
            ),
            Expansion::Accepted { conversions } => {
                &&& no_duplicate(variant_views(declaration.variants@))
                &&& conversion_views(conversions@) == conversions_of(
                    declaration.name@,
                    variant_views(declaration.variants@),
                )
            },
        },
{
    match find_duplicate_variant_type(&declaration.variants) {
        Some(variant) => Expansion::Rejected { variant },
        None => {
            let conversions = process_variants(&declaration.variants, &declaration.name);
            Expansion::Accepted { conversions }
        },
    }
}

} // verus!
