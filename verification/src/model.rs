//! The plain-data model of an enum declaration.

use vstd::prelude::*;

verus! {

/// What a variant carries.
#[derive(Debug, PartialEq, Eq)]
pub enum Payload {
    /// Nothing: `A`.
    Unit,
    /// Positional fields, each given by the text of its type: `B(u32)`.
    Unnamed(Vec<String>),
    /// Named fields: `C { a: u32 }`. Their contents are never looked at.
    Named,
}

/// The mathematical value of a [`Payload`].
pub ghost enum PayloadView {
    Unit,
    Unnamed(Seq<Seq<char>>),
    Named,
}

/// One arm of an enum.
#[derive(Debug, PartialEq, Eq)]
pub struct Variant {
    pub name: String,
    pub payload: Payload,
}

/// The mathematical value of a [`Variant`].
pub ghost struct VariantView {
    pub name: Seq<char>,
    pub payload: PayloadView,
}

/// An enum declaration: its name and its variants in declaration order.
#[derive(Debug, PartialEq, Eq)]
pub struct EnumDeclaration {
    pub name: String,
    pub variants: Vec<Variant>,
}

/// The texts of a list of strings.
pub open spec fn texts(items: Seq<String>) -> Seq<Seq<char>> {
    Seq::new(items.len(), |i: int| items[i]@)
}

/// The values of a list of variants.
pub open spec fn variant_views(items: Seq<Variant>) -> Seq<VariantView> {
    Seq::new(items.len(), |i: int| items[i]@)
}

impl View for Payload {
    type V = PayloadView;

    open spec fn view(&self) -> PayloadView {
        match self {
            Payload::Unit => PayloadView::Unit,
            Payload::Unnamed(types) => PayloadView::Unnamed(texts(types@)),
            Payload::Named => PayloadView::Named,
        }
    }
}

impl View for Variant {
    type V = VariantView;

    open spec fn view(&self) -> VariantView {
        VariantView { name: self.name@, payload: self.payload@ }
    }
}

/// The type text of a variant's payload when it has exactly one unnamed
/// field, and `None` for every other shape.
pub open spec fn payload_type(v: VariantView) -> Option<Seq<char>> {
    match v.payload {
        PayloadView::Unnamed(types) => if types.len() == 1 {
            Some(types[0])
        } else {
            None
        },
        _ => None,
    }
}

/// Whether a variant receives a conversion: it has exactly one unnamed field.
pub open spec fn qualifies(v: VariantView) -> bool {
    payload_type(v) is Some
}

impl Variant {
    /// The type text of the single unnamed field, if that is the variant's shape.
    pub fn payload_type(&self) -> (r: Option<&String>)
        ensures
            match r {
                Some(t) => payload_type(self@) == Some(t@),
                None => payload_type(self@) is None,
            },
    {
        match &self.payload {
            Payload::Unnamed(types) => {
                if types.len() == 1 {
                    Some(&types[0])
                } else {
                    None
                }
            },
            _ => None,
        }
    }
}

} // verus!
