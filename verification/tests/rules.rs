use ace_it::expand::{duplicate_message, expand, Expansion};
use ace_it::guard::find_duplicate_variant_type;
use ace_it::model::{EnumDeclaration, Payload, Variant};
use ace_it::synth::{process_variants, Conversion};

fn unit(name: &str) -> Variant {
    Variant { name: name.to_string(), payload: Payload::Unit }
}

fn named(name: &str) -> Variant {
    Variant { name: name.to_string(), payload: Payload::Named }
}

fn tuple(name: &str, types: &[&str]) -> Variant {
    Variant {
        name: name.to_string(),
        payload: Payload::Unnamed(types.iter().map(|t| t.to_string()).collect()),
    }
}

fn conversion(enum_name: &str, variant: &str, payload: &str, position: usize) -> Conversion {
    Conversion {
        enum_name: enum_name.to_string(),
        variant: variant.to_string(),
        payload: payload.to_string(),
        position,
    }
}

#[test]
fn payload_type_is_the_single_unnamed_field() {
    assert_eq!(tuple("B", &["u32"]).payload_type(), Some(&"u32".to_string()));
    assert_eq!(tuple("B", &["u32", "u8"]).payload_type(), None);
    assert_eq!(tuple("B", &[]).payload_type(), None);
    assert_eq!(unit("A").payload_type(), None);
    assert_eq!(named("C").payload_type(), None);
}

#[test]
fn guard_finds_nothing_in_distinct_types() {
    let variants = vec![unit("A"), tuple("B", &["u32"]), named("C"), tuple("D", &["u64"])];
    assert_eq!(find_duplicate_variant_type(&variants), None);
    assert_eq!(find_duplicate_variant_type(&Vec::new()), None);
}

#[test]
fn guard_reports_the_repeating_variant() {
    let variants = vec![unit("A"), tuple("B", &["u32"]), tuple("C", &["u32"])];
    assert_eq!(find_duplicate_variant_type(&variants), Some(2));
}

#[test]
fn guard_reports_only_the_first_repetition() {
    let variants = vec![
        tuple("A", &["u8"]),
        tuple("B", &["u32"]),
        unit("C"),
        tuple("D", &["u32"]),
        tuple("E", &["u8"]),
        tuple("F", &["u32"]),
    ];
    assert_eq!(find_duplicate_variant_type(&variants), Some(3));
}

#[test]
fn guard_skips_other_shapes() {
    let variants = vec![
        tuple("A", &["u32", "u32"]),
        tuple("B", &["u32", "u32"]),
        named("C"),
        named("D"),
        unit("E"),
        unit("F"),
        tuple("G", &[]),
        tuple("H", &[]),
        tuple("I", &["u32"]),
    ];
    assert_eq!(find_duplicate_variant_type(&variants), None);
}

#[test]
fn guard_compares_text_only() {
    let variants = vec![tuple("A", &["u32"]), tuple("B", &["std :: primitive :: u32"])];
    assert_eq!(find_duplicate_variant_type(&variants), None);
}

#[test]
fn scanner_keeps_order_and_skips_other_shapes() {
    let variants = vec![
        unit("A"),
        tuple("B", &["u32"]),
        named("C"),
        tuple("D", &["u8", "u8"]),
        tuple("E", &["String"]),
        tuple("F", &[]),
    ];
    let found = process_variants(&variants, &"Test".to_string());
    assert_eq!(found, vec![conversion("Test", "B", "u32", 1), conversion("Test", "E", "String", 4)]);
}

#[test]
fn scanner_does_not_deduplicate() {
    let variants = vec![tuple("B", &["u32"]), tuple("C", &["u32"])];
    let found = process_variants(&variants, &"Test".to_string());
    assert_eq!(found, vec![conversion("Test", "B", "u32", 0), conversion("Test", "C", "u32", 1)]);
}

#[test]
fn scanner_gives_nothing_without_single_payloads() {
    let variants = vec![unit("A"), named("C"), tuple("D", &["u8", "u8"])];
    assert_eq!(process_variants(&variants, &"Test".to_string()), Vec::new());
}

#[test]
fn expand_accepts_distinct_types() {
    let declaration = EnumDeclaration {
        name: "Test".to_string(),
        variants: vec![unit("A"), tuple("B", &["u32"]), named("C")],
    };
    assert_eq!(
        expand(&declaration),
        Expansion::Accepted { conversions: vec![conversion("Test", "B", "u32", 1)] }
    );
}

#[test]
fn expand_rejects_a_repeated_type() {
    let declaration = EnumDeclaration {
        name: "Test".to_string(),
        variants: vec![unit("A"), tuple("B", &["u32"]), tuple("C", &["u32"]), tuple("D", &["u8"])],
    };
    assert_eq!(expand(&declaration), Expansion::Rejected { variant: 2 });
}

#[test]
fn expand_passes_untouched_shapes_through() {
    let declaration = EnumDeclaration {
        name: "Test".to_string(),
        variants: vec![unit("A"), named("C"), tuple("D", &["u8", "u8"])],
    };
    assert_eq!(expand(&declaration), Expansion::Accepted { conversions: Vec::new() });
}

#[test]
fn message_is_fixed() {
    assert_eq!(duplicate_message(), "Duplicate variant type, can't auto-generate From impls");
}
