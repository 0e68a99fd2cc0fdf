//! Detection of payload types that occur twice.

use vstd::prelude::*;
use crate::model::{payload_type, variant_views, Variant, VariantView};

verus! {

/// Variant `i` qualifies and an earlier qualifying variant has the same
/// payload type text.
pub open spec fn collides(vs: Seq<VariantView>, i: int) -> bool {
    &&& 0 <= i < vs.len()
    &&& payload_type(vs[i]) is Some
    &&& exists|j: int| 0 <= j < i && #[trigger] payload_type(vs[j]) == payload_type(vs[i])
}

/// No variant repeats the payload type of an earlier one.
pub open spec fn no_duplicate(vs: Seq<VariantView>) -> bool {
    forall|i: int| 0 <= i < vs.len() ==> !collides(vs, i)
}

/// `k` is the first variant, in declaration order, that repeats the payload
/// type of an earlier one.
pub open spec fn is_first_duplicate(vs: Seq<VariantView>, k: int) -> bool {
    &&& collides(vs, k)
    &&& forall|i: int| 0 <= i < k ==> !collides(vs, i)
}

/// Whether the payload type `text` belongs to one of the first `limit` variants.
fn seen_before(variants: &Vec<Variant>, limit: usize, text: &String) -> (r: bool)
    requires
        limit <= variants.len(),
    ensures
        r == exists|j: int|
            0 <= j < limit && #[trigger] payload_type(variant_views(variants@)[j]) == Some(text@),
{
    let ghost vs = variant_views(variants@);
    let mut j: usize = 0;
    while j < limit
        invariant
            j <= limit <= variants.len(),
            vs == variant_views(variants@),
            forall|k: int| 0 <= k < j ==> #[trigger] payload_type(vs[k]) != Some(text@),
        decreases limit - j,
    {
        assert(vs[j as int] == variants[j as int]@);
        match variants[j].payload_type() {
            Some(other) => {
                if *other == *text {
                    return true;
                }
            },
            None => {},
        }
        j += 1;
    }
    false
}

/// Finds the first variant whose payload type was already used by an earlier
/// variant. Only variants with exactly one unnamed field take part; types are
/// compared by their text alone. The result is the position of that variant
/// in the declaration, or `None` when every payload type is distinct.
pub fn find_duplicate_variant_type(variants: &Vec<Variant>) -> (r: Option<usize>)
    ensures
        match r {
            Some(k) => is_first_duplicate(variant_views(variants@), k as int),
            None => no_duplicate(variant_views(variants@)),
        },
{
    let ghost vs = variant_views(variants@);
    let mut i: usize = 0;
    while i < variants.len()
        invariant
            i <= variants.len(),
            vs == variant_views(variants@),
            forall|k: int| 0 <= k < i ==> !collides(vs, k),
        decreases variants.len() - i,
    {
        assert(vs[i as int] == variants[i as int]@);
        match variants[i].payload_type() {
            Some(text) => {
                if seen_before(variants, i, text) {
                    return Some(i);
                }
            },
            None => {},
        }
        i += 1;
    }
    None
}

} // verus!
