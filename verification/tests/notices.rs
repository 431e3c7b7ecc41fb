//! Notices that repeat.
use steve::notices::{format_with_count, split_count_suffix};

#[test]
fn split_count_suffix_no_suffix() {
    assert_eq!(split_count_suffix("Hello"), ("Hello".to_string(), 1));
}

#[test]
fn split_count_suffix_basic_count() {
    assert_eq!(split_count_suffix("Hello (×2)"), ("Hello".to_string(), 2));
    assert_eq!(split_count_suffix("Hello (×42)"), ("Hello".to_string(), 42));
}

#[test]
fn split_count_suffix_rejects_invalid_shapes() {
    // Missing close paren
    assert_eq!(split_count_suffix("Hello (×2"), ("Hello (×2".to_string(), 1));
    // Trailing content after the close paren
    assert_eq!(
        split_count_suffix("Hello (×2) more"),
        ("Hello (×2) more".to_string(), 1)
    );
    // Non-digit content
    assert_eq!(split_count_suffix("Hello (×x)"), ("Hello (×x)".to_string(), 1));
    // Empty digits
    assert_eq!(split_count_suffix("Hello (×)"), ("Hello (×)".to_string(), 1));
    // Plain "x" not "×" (multiplication sign)
    assert_eq!(split_count_suffix("Hello (x2)"), ("Hello (x2)".to_string(), 1));
}

#[test]
fn split_count_suffix_handles_utf8_base() {
    // The base text contains multi-byte characters — slicing must land
    // on a UTF-8 boundary, not split a character.
    assert_eq!(split_count_suffix("café (×3)"), ("café".to_string(), 3));
    assert_eq!(
        split_count_suffix("LSP yaml server restarted successfully (×100)"),
        ("LSP yaml server restarted successfully".to_string(), 100)
    );
}

#[test]
fn split_count_suffix_uses_last_prefix_match() {
    // A base text that itself contains " (×" should split on the LAST
    // occurrence so the count parses against the genuine suffix.
    assert_eq!(
        split_count_suffix("inner (×note) (×4)"),
        ("inner (×note)".to_string(), 4)
    );
    // Multiple valid-looking suffixes — `rfind` must grab the rightmost.
    assert_eq!(
        split_count_suffix("a (×1) b (×2) c (×3)"),
        ("a (×1) b (×2) c".to_string(), 3)
    );
    // A genuine count to the right of an invalid `" (×note)"` cluster.
    assert_eq!(
        split_count_suffix("first (×nope) middle (×7)"),
        ("first (×nope) middle".to_string(), 7)
    );
}

#[test]
fn format_with_count_and_split_roundtrip() {
    // Property: parse(format(base, n)) == (base, n) for any base that
    // doesn't already end with the count format. 
    for &(base, n) in &[
        ("Hello", 2usize),
        ("LSP yaml server restarted successfully", 12),
        ("café", 999),
        ("", 1),
    ] {
        let rendered = format_with_count(base, n);
        assert_eq!(
            split_count_suffix(&rendered),
            (base.to_string(), n),
            "roundtrip failed for ({base:?}, {n})"
        );
    }
}

#[test]
fn a_sign_is_no_count() {
    for s in ["Hello (×+5)", "Hello (×-5)", "Hello (×+)", "Hello (× 5)"] {
        assert_eq!(split_count_suffix(s), (s.to_string(), 1));
    }
}
