//! What holds of the transformation for every declaration.

use vstd::prelude::*;
use crate::guard::{collides, is_first_duplicate, no_duplicate};
use crate::model::{payload_type, qualifies, VariantView};
use crate::synth::{
    conversion_for, conversions_of, lemma_indices_qualify, qualifying_indices, ConversionView,
};
use crate::syntax::{declared_name, declared_tokens, declared_variants, impls_trees};

verus! {

/// The number of variants with exactly one unnamed field.
pub open spec fn qualifying_count(vs: Seq<VariantView>) -> nat
    decreases vs.len(),
{
    if vs.len() == 0 {
        0
    } else if qualifies(vs.last()) {
        qualifying_count(vs.drop_last()) + 1
    } else {
        qualifying_count(vs.drop_last())
    }
}

/// A declaration in which no variant has exactly one unnamed field is
/// accepted and gets no conversion.
pub proof fn law_untouched_shapes_get_no_conversion(enum_name: Seq<char>, vs: Seq<VariantView>)
    requires
        forall|i: int| 0 <= i < vs.len() ==> !qualifies(#[trigger] vs[i]),
    ensures
        no_duplicate(vs),
        conversions_of(enum_name, vs) == Seq::<ConversionView>::empty(),
{
    lemma_indices_qualify(vs);
    if qualifying_indices(vs).len() > 0 {
        let at = qualifying_indices(vs)[0];
        assert(qualifies(vs[at]));
    }
    assert(conversions_of(enum_name, vs) =~= Seq::<ConversionView>::empty());
}

/// A parsed enum in which no variant has exactly one unnamed field passes
/// through untouched: the tokens of an accepted output are those of the
/// declaration and nothing more.
pub proof fn law_untouched_shapes_pass_through(item: syn::ItemEnum)
    requires
        forall|i: int|
            0 <= i < declared_variants(item).len() ==> !qualifies(#[trigger] declared_variants(item)[i]),
    ensures
        no_duplicate(declared_variants(item)),
        declared_tokens(item) + impls_trees(
            item,
            conversions_of(declared_name(item), declared_variants(item)),
        ) == declared_tokens(item),
{
    law_untouched_shapes_get_no_conversion(declared_name(item), declared_variants(item));
    assert(declared_tokens(item) + impls_trees(
        item,
        conversions_of(declared_name(item), declared_variants(item)),
    ) =~= declared_tokens(item));
}

/// The conversions are as many as the variants with exactly one unnamed
/// field.
pub proof fn law_conversion_count(enum_name: Seq<char>, vs: Seq<VariantView>)
    ensures
        conversions_of(enum_name, vs).len() == qualifying_count(vs),
    decreases vs.len(),
{
    if vs.len() > 0 {
        law_conversion_count(enum_name, vs.drop_last());
    }
}

/// Every variant with exactly one unnamed field has its place among the
/// conversions.
pub proof fn lemma_qualifying_is_listed(vs: Seq<VariantView>, i: int)
    requires
        0 <= i < vs.len(),
        qualifies(vs[i]),
    ensures
        exists|k: int|
            0 <= k < qualifying_indices(vs).len() && #[trigger] qualifying_indices(vs)[k] == i,
    decreases vs.len(),
{
    let shorter = vs.drop_last();
    if i == vs.len() - 1 {
        let k = qualifying_indices(shorter).len() as int;
        assert(qualifying_indices(vs)[k] == i);
    } else {
        assert(shorter[i] == vs[i]);
        lemma_qualifying_is_listed(shorter, i);
        let k = choose|k: int|
            0 <= k < qualifying_indices(shorter).len() && #[trigger] qualifying_indices(shorter)[k]
                == i;
        assert(qualifying_indices(vs)[k] == i);
    }
}

/// Each variant with exactly one unnamed field gets one conversion, which
/// wraps its payload type into that variant of the enum: the conversion in
/// place `k` belongs to the variant at `qualifying_indices(vs)[k]`, and every
/// qualifying variant is the source of one of them.
pub proof fn law_one_conversion_per_qualifying_variant(enum_name: Seq<char>, vs: Seq<VariantView>)
    ensures
        conversions_of(enum_name, vs).len() == qualifying_count(vs),
        forall|k: int|
            0 <= k < conversions_of(enum_name, vs).len() ==> {
                let source = vs[qualifying_indices(vs)[k]];
                &&& 0 <= qualifying_indices(vs)[k] < vs.len()
                &&& (#[trigger] conversions_of(enum_name, vs)[k]).enum_name == enum_name
                &&& conversions_of(enum_name, vs)[k].variant == source.name
                &&& Some(conversions_of(enum_name, vs)[k].payload) == payload_type(source)
                &&& conversions_of(enum_name, vs)[k].position == qualifying_indices(vs)[k]
            },
        forall|i: int|
            0 <= i < vs.len() && qualifies(#[trigger] vs[i]) ==> exists|k: int|
                0 <= k < conversions_of(enum_name, vs).len() && #[trigger] qualifying_indices(vs)[k]
                    == i && conversions_of(enum_name, vs)[k] == conversion_for(enum_name, vs, i),
{
    law_conversion_count(enum_name, vs);
    lemma_indices_qualify(vs);
    assert forall|i: int| 0 <= i < vs.len() && qualifies(#[trigger] vs[i]) implies exists|k: int|
        0 <= k < conversions_of(enum_name, vs).len() && #[trigger] qualifying_indices(vs)[k] == i
            && conversions_of(enum_name, vs)[k] == conversion_for(enum_name, vs, i) by {
        lemma_qualifying_is_listed(vs, i);
    }
}

/// Below a colliding variant there is a first one.
pub proof fn lemma_first_duplicate_exists(vs: Seq<VariantView>, b: int)
    requires
        collides(vs, b),
    ensures
        exists|k: int| 0 <= k <= b && is_first_duplicate(vs, k),
    decreases b,
{
    if exists|i: int| 0 <= i < b && collides(vs, i) {
        let i = choose|i: int| 0 <= i < b && collides(vs, i);
        lemma_first_duplicate_exists(vs, i);
    } else {
        assert(is_first_duplicate(vs, b));
    }
}

/// A declaration in which two variants with exactly one unnamed field share
/// their payload type is never accepted, and exactly one variant is the one
/// reported: the first that repeats an earlier payload type.
pub proof fn law_shared_payload_type_is_rejected(vs: Seq<VariantView>, a: int, b: int)
    requires
        0 <= a < b < vs.len(),
        qualifies(vs[a]),
        payload_type(vs[a]) == payload_type(vs[b]),
    ensures
        !no_duplicate(vs),
        exists|k: int| 0 <= k <= b && is_first_duplicate(vs, k),
        forall|k: int, m: int| is_first_duplicate(vs, k) && is_first_duplicate(vs, m) ==> k == m,
{
    assert(collides(vs, b));
    lemma_first_duplicate_exists(vs, b);
}

/// The conversions follow the declaration order of their source variants.
pub proof fn law_order_is_preserved(vs: Seq<VariantView>)
    ensures
        forall|j: int, k: int|
            0 <= j < k < qualifying_indices(vs).len() ==> qualifying_indices(vs)[j]
                < qualifying_indices(vs)[k],
    decreases vs.len(),
{
    if vs.len() > 0 {
        let shorter = vs.drop_last();
        law_order_is_preserved(shorter);
        lemma_indices_qualify(shorter);
        let at = qualifying_indices(vs);
        assert forall|j: int, k: int| 0 <= j < k < at.len() implies at[j] < at[k] by {
            assert(at[j] == qualifying_indices(shorter)[j]);
            if k < qualifying_indices(shorter).len() {
                assert(at[k] == qualifying_indices(shorter)[k]);
            } else {
                assert(at[k] == vs.len() - 1);
            }
        }
    }
}

/// A variant without fields, with named fields, or with any number of unnamed
/// fields other than one is never the source of a conversion, whatever the
/// other variants hold.
pub proof fn law_other_shapes_get_no_conversion(vs: Seq<VariantView>, i: int)
    requires
        0 <= i < vs.len(),
        vs[i].payload is Unit || vs[i].payload is Named || (vs[i].payload is Unnamed
            && vs[i].payload->Unnamed_0.len() != 1),
    ensures
        forall|k: int| 0 <= k < qualifying_indices(vs).len() ==> qualifying_indices(vs)[k] != i,
{
    lemma_indices_qualify(vs);
}

} // verus!
