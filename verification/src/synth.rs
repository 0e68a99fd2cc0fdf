//! The scan for qualifying variants and the conversions written for them.

use vstd::prelude::*;
use crate::model::{payload_type, qualifies, variant_views, Variant, VariantView};

verus! {

/// One conversion to generate: a value of type `payload` becomes
/// `enum_name::variant(value)`. `position` is the place of that variant in
/// the declaration.
#[derive(Debug, PartialEq, Eq)]
pub struct Conversion {
    pub enum_name: String,
    pub variant: String,
    pub payload: String,
    pub position: usize,
}

/// The mathematical value of a [`Conversion`].
pub ghost struct ConversionView {
    pub enum_name: Seq<char>,
    pub variant: Seq<char>,
    pub payload: Seq<char>,
    pub position: int,
}

impl View for Conversion {
    type V = ConversionView;

    open spec fn view(&self) -> ConversionView {
        ConversionView {
            enum_name: self.enum_name@,
            variant: self.variant@,
            payload: self.payload@,
            position: self.position as int,
        }
    }
}

/// The values of a list of conversions.
pub open spec fn conversion_views(items: Seq<Conversion>) -> Seq<ConversionView> {
    Seq::new(items.len(), |i: int| items[i]@)
}

/// The positions of the qualifying variants, in declaration order.
pub open spec fn qualifying_indices(vs: Seq<VariantView>) -> Seq<int>
    decreases vs.len(),
{
    if vs.len() == 0 {
        Seq::empty()
    } else if qualifies(vs.last()) {
        qualifying_indices(vs.drop_last()).push(vs.len() - 1)
    } else {
        qualifying_indices(vs.drop_last())
    }
}

/// The conversion that the qualifying variant at `position` of the enum
/// `enum_name` receives.
pub open spec fn conversion_for(enum_name: Seq<char>, vs: Seq<VariantView>, position: int) -> ConversionView
    recommends
        0 <= position < vs.len(),
        qualifies(vs[position]),
{
    ConversionView {
        enum_name,
        variant: vs[position].name,
        payload: payload_type(vs[position]).unwrap(),
        position,
    }
}

/// The conversions of an enum: one for each qualifying variant, in
/// declaration order.
pub open spec fn conversions_of(enum_name: Seq<char>, vs: Seq<VariantView>) -> Seq<ConversionView> {
    let at = qualifying_indices(vs);
    Seq::new(at.len(), |k: int| conversion_for(enum_name, vs, at[k]))
}

/// Every listed position lies inside the declaration and names a qualifying
/// variant.
pub proof fn lemma_indices_qualify(vs: Seq<VariantView>)
    ensures
        forall|k: int|
            0 <= k < qualifying_indices(vs).len() ==> {
                &&& 0 <= #[trigger] qualifying_indices(vs)[k] < vs.len()
                &&& qualifies(vs[qualifying_indices(vs)[k]])
            },
    decreases vs.len(),
{
    if vs.len() > 0 {
        let shorter = vs.drop_last();
        lemma_indices_qualify(shorter);
        assert forall|k: int| 0 <= k < qualifying_indices(vs).len() implies {
            &&& 0 <= #[trigger] qualifying_indices(vs)[k] < vs.len()
            &&& qualifies(vs[qualifying_indices(vs)[k]])
        } by {
            if k < qualifying_indices(shorter).len() {
                let at = qualifying_indices(shorter)[k];
                assert(qualifying_indices(vs)[k] == at);
                assert(shorter[at] == vs[at]);
            }
        }
    }
}

/// Dropping the last variant keeps the conversions of the others, and a
/// qualifying last variant adds exactly its own conversion at the end.
pub proof fn lemma_conversions_step(enum_name: Seq<char>, vs: Seq<VariantView>)
    requires
        vs.len() > 0,
    ensures
        conversions_of(enum_name, vs) == if qualifies(vs.last()) {
            conversions_of(enum_name, vs.drop_last()).push(
                conversion_for(enum_name, vs, vs.len() - 1),
            )
        } else {
            conversions_of(enum_name, vs.drop_last())
        },
{
    lemma_indices_qualify(vs.drop_last());
    let shorter = conversions_of(enum_name, vs.drop_last());
    if qualifies(vs.last()) {
        assert(conversions_of(enum_name, vs) =~= shorter.push(
            conversion_for(enum_name, vs, vs.len() - 1),
        ));
    } else {
        assert(conversions_of(enum_name, vs) =~= shorter);
    }
}

/// Scans the variants of the enum `enum_name` in declaration order and
/// produces one conversion for each variant with exactly one unnamed field.
/// Variants of any other shape are skipped.
pub fn process_variants(variants: &Vec<Variant>, enum_name: &String) -> (from_impls: Vec<Conversion>)
    ensures
        conversion_views(from_impls@) == conversions_of(enum_name@, variant_views(variants@)),
{
    let ghost vs = variant_views(variants@);
    let mut from_impls: Vec<Conversion> = Vec::new();
    let mut i: usize = 0;
    proof {
        assert(conversion_views(from_impls@) =~= conversions_of(enum_name@, vs.take(0)));
    }
    while i < variants.len()
        invariant
            i <= variants.len(),
            vs == variant_views(variants@),
            conversion_views(from_impls@) == conversions_of(enum_name@, vs.take(i as int)),
        decreases variants.len() - i,
    {
        let ghost before = conversion_views(from_impls@);
        proof {
            let upto = vs.take(i + 1);
            assert(upto.drop_last() =~= vs.take(i as int));
            assert(upto.last() == variants[i as int]@);
            lemma_conversions_step(enum_name@, upto);
        }
        match variants[i].payload_type() {
            Some(text) => {
                let made = Conversion {
                    enum_name: enum_name.clone(),
                    variant: variants[i].name.clone(),
                    payload: text.clone(),
                    position: i,
                };
                from_impls.push(made);
                proof {
                    assert(conversion_views(from_impls@) =~= before.push(made@));
                }
            },
            None => {},
        }
        i += 1;
    }
    proof {
        assert(vs.take(i as int) =~= vs);
    }
    from_impls
}

} // verus!
