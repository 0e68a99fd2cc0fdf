use std::str::FromStr;

use ace_it::ace_it_impl;
use ace_it::model::{Payload, Variant};
use ace_it::syntax::{read_declaration, synthesize};
use proc_macro2::TokenStream;

fn parse(source: &str) -> syn::ItemEnum {
    syn::parse_str::<syn::ItemEnum>(source).unwrap()
}

fn printed(source: &str) -> String {
    TokenStream::from_str(source).unwrap().to_string()
}

#[test]
fn ace_it() {
    let parsed = parse(
        "enum Test {
            A,
            B(u32),
            C { a: u32, b: u32 },
        }",
    );
    let expected = printed(
        "enum Test {
            A,
            B(u32),
            C { a: u32, b: u32 },
        }

        impl From<u32> for Test {
            fn from(value: u32) -> Self {
                Self::B(value)
            }
        }",
    );
    let result = ace_it_impl(parsed);
    assert_eq!(result.to_string(), expected);
}

#[test]
fn repeating_types_error() {
    let parsed = parse(
        "enum Test {
            A,
            B(u32),
            C(u32),
        }",
    );
    let result = ace_it_impl(parsed);
    assert!(result.to_string().contains("Duplicate variant type"));
}

#[test]
fn single_conversion_prints_exactly() {
    let result = ace_it_impl(parse("enum Test { A, B(u32), C { a: u32, b: u32 } }"));
    assert_eq!(
        result.to_string(),
        "enum Test { A , B (u32) , C { a : u32 , b : u32 } } impl From < u32 > for Test { fn from (value : u32) -> Self { Self :: B (value) } }"
    );
}

#[test]
fn duplicate_gives_one_diagnostic_and_nothing_else() {
    let result = ace_it_impl(parse("enum Test { A, B(u32), C(u32) }"));
    let text = result.to_string();
    assert_eq!(
        text,
        ":: core :: compile_error ! { \"Duplicate variant type, can't auto-generate From impls\" }"
    );
    assert!(!text.contains("impl From"));
    assert!(!text.contains("enum"));
}

#[test]
fn duplicate_suppresses_conversions_of_other_variants() {
    let result = ace_it_impl(parse("enum E { A(String), B(u32), C(u8), D(u32) }"));
    let text = result.to_string();
    assert!(text.contains("Duplicate variant type, can't auto-generate From impls"));
    assert!(!text.contains("From <"));
    assert_eq!(text.matches("compile_error").count(), 1);
}

#[test]
fn declaration_without_single_payloads_passes_through() {
    let source = "pub enum Plain { A, B { x: u8 }, C(u8, u16), D() }";
    let result = ace_it_impl(parse(source));
    assert_eq!(result.to_string(), printed(source));
}

#[test]
fn empty_enum_passes_through() {
    let result = ace_it_impl(parse("enum Never {}"));
    assert_eq!(result.to_string(), printed("enum Never {}"));
}

#[test]
fn attributes_and_visibility_are_kept() {
    let source = "#[derive(Debug)] pub enum Error { Io(std::io::Error), Other }";
    let result = ace_it_impl(parse(source)).to_string();
    let expected = printed(
        "#[derive(Debug)] pub enum Error { Io(std::io::Error), Other }
        impl From<std::io::Error> for Error {
            fn from(value: std::io::Error) -> Self { Self::Io(value) }
        }",
    );
    assert_eq!(result, expected);
}

#[test]
fn conversions_follow_declaration_order() {
    let result = ace_it_impl(parse(
        "enum Error {
            Io(std::io::Error),
            Nothing,
            ParseInt(std::num::ParseIntError),
            Pair(u8, u8),
            ParseFloat(std::num::ParseFloatError),
        }",
    ))
    .to_string();
    let expected = printed(
        "enum Error {
            Io(std::io::Error),
            Nothing,
            ParseInt(std::num::ParseIntError),
            Pair(u8, u8),
            ParseFloat(std::num::ParseFloatError),
        }
        impl From<std::io::Error> for Error {
            fn from(value: std::io::Error) -> Self { Self::Io(value) }
        }
        impl From<std::num::ParseIntError> for Error {
            fn from(value: std::num::ParseIntError) -> Self { Self::ParseInt(value) }
        }
        impl From<std::num::ParseFloatError> for Error {
            fn from(value: std::num::ParseFloatError) -> Self { Self::ParseFloat(value) }
        }",
    );
    assert_eq!(result, expected);
    assert_eq!(result.matches("impl From").count(), 3);
}

#[test]
fn spelling_decides_equality_of_types() {
    let distinct = ace_it_impl(parse("enum E { A(u32), B(std::primitive::u32) }")).to_string();
    assert!(!distinct.contains("Duplicate variant type"));
    assert_eq!(distinct.matches("impl From").count(), 2);

    let spaced = ace_it_impl(parse("enum E { A(Vec<u8>), B(Vec < u8 >) }")).to_string();
    assert!(spaced.contains("Duplicate variant type"));
}

#[test]
fn multi_field_variants_do_not_collide() {
    let result = ace_it_impl(parse("enum E { A(u32), B(u32, u32), C { x: u32 } }")).to_string();
    assert!(!result.contains("Duplicate variant type"));
    assert_eq!(result.matches("impl From").count(), 1);
    assert!(result.contains("Self :: A (value)"));
}

#[test]
fn read_declaration_gives_names_and_shapes() {
    let declaration =
        read_declaration(&parse("enum Shapes { A, B(u32), C { a: u32 }, D(Vec<u8>, &'static str), E() }"));
    assert_eq!(declaration.name, "Shapes");
    assert_eq!(
        declaration.variants,
        vec![
            Variant { name: "A".to_string(), payload: Payload::Unit },
            Variant { name: "B".to_string(), payload: Payload::Unnamed(vec!["u32".to_string()]) },
            Variant { name: "C".to_string(), payload: Payload::Named },
            Variant {
                name: "D".to_string(),
                payload: Payload::Unnamed(vec!["Vec < u8 >".to_string(), "& 'static str".to_string()]),
            },
            Variant { name: "E".to_string(), payload: Payload::Unnamed(vec![]) },
        ]
    );
}

#[test]
fn payload_type_keeps_its_own_tokens() {
    let result = ace_it_impl(parse("enum E { A(Vec<(u8, &'static str)>) }"));
    assert_eq!(
        result.to_string(),
        "enum E { A (Vec < (u8 , & 'static str) >) } \
         impl From < Vec < (u8 , & 'static str) > > for E \
         { fn from (value : Vec < (u8 , & 'static str) >) -> Self { Self :: A (value) } }"
    );
    let file = syn::parse2::<syn::File>(result).unwrap();
    assert_eq!(file.items.len(), 2);
}

#[test]
fn output_parses_as_an_enum_and_its_impls() {
    let result = ace_it_impl(parse("enum E { A(u8), B, C(u16), D { x: u8 }, F(u32) }"));
    let file = syn::parse2::<syn::File>(result).unwrap();
    assert_eq!(file.items.len(), 4);
    assert!(matches!(file.items[0], syn::Item::Enum(_)));
    assert!(matches!(file.items[1], syn::Item::Impl(_)));
    assert!(matches!(file.items[2], syn::Item::Impl(_)));
    assert!(matches!(file.items[3], syn::Item::Impl(_)));
}

#[test]
fn synthesize_writes_the_impl_of_one_variant() {
    let item = parse("enum Test { A, B(u32), C { a: u32, b: u32 }, D(u8, u8), E(), F(String) }");
    assert_eq!(
        synthesize(&item, 1).unwrap().to_string(),
        "impl From < u32 > for Test { fn from (value : u32) -> Self { Self :: B (value) } }"
    );
    assert_eq!(
        synthesize(&item, 5).unwrap().to_string(),
        "impl From < String > for Test { fn from (value : String) -> Self { Self :: F (value) } }"
    );
}

#[test]
fn synthesize_writes_nothing_for_other_shapes() {
    let item = parse("enum Test { A, B(u32), C { a: u32, b: u32 }, D(u8, u8), E(), F(String) }");
    assert!(synthesize(&item, 0).is_none());
    assert!(synthesize(&item, 2).is_none());
    assert!(synthesize(&item, 3).is_none());
    assert!(synthesize(&item, 4).is_none());
    assert!(synthesize(&item, 6).is_none());
    assert!(synthesize(&item, usize::MAX).is_none());
}

#[test]
fn raw_identifiers_are_kept() {
    let result = ace_it_impl(parse("enum r#Enum { r#type(u8) }")).to_string();
    assert_eq!(
        result,
        "enum r#Enum { r#type (u8) } impl From < u8 > for r#Enum { fn from (value : u8) -> Self { Self :: r#type (value) } }"
    );
}
