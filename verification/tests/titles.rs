//! Titles of sessions.
use steve::titles::{sanitize_title, title_fallback};

#[test]
fn app_title_fallback_short_text() {
    assert_eq!(title_fallback("Fix the login bug"), "Fix the login bug");
}

#[test]
fn app_title_fallback_exactly_60_chars() {
    let text = "a".repeat(60);
    assert_eq!(title_fallback(&text), text);
}

#[test]
fn app_title_fallback_over_60_chars_truncates() {
    let text = "a".repeat(80);
    let result = title_fallback(&text);
    assert_eq!(result.chars().count(), 60);
    assert!(result.ends_with("..."));
    assert_eq!(&result[..57], "a".repeat(57));
}

#[test]
fn app_title_fallback_unicode_truncation() {
    // 70 emoji characters — should truncate to 57 + "..."
    let text = "🦀".repeat(70);
    let result = title_fallback(&text);
    assert_eq!(result.chars().count(), 60);
    assert!(result.ends_with("..."));
}

#[test]
fn app_sanitize_title_clean_response() {
    assert_eq!(sanitize_title("Fix login redirect"), "Fix login redirect");
}

#[test]
fn app_sanitize_title_strips_double_quotes() {
    assert_eq!(sanitize_title("\"Fix login redirect\""), "Fix login redirect");
}

#[test]
fn app_sanitize_title_strips_single_quotes() {
    assert_eq!(sanitize_title("'Fix login redirect'"), "Fix login redirect");
}

#[test]
fn app_sanitize_title_strips_title_prefix() {
    assert_eq!(sanitize_title("Title: Fix login redirect"), "Fix login redirect");
}

#[test]
fn app_sanitize_title_strips_title_prefix_case_insensitive() {
    assert_eq!(sanitize_title("TITLE: Fix login redirect"), "Fix login redirect");
}

#[test]
fn app_sanitize_title_takes_first_line() {
    assert_eq!(
        sanitize_title("Fix login redirect\nHere is some explanation"),
        "Fix login redirect"
    );
}

#[test]
fn app_sanitize_title_skips_empty_first_line() {
    assert_eq!(
        sanitize_title("\n  \nFix login redirect\n"),
        "Fix login redirect"
    );
}

#[test]
fn app_sanitize_title_enforces_60_char_cap() {
    let long = "a".repeat(80);
    let result = sanitize_title(&long);
    assert_eq!(result.chars().count(), 60);
    assert!(result.ends_with("..."));
}

#[test]
fn app_sanitize_title_trims_whitespace() {
    assert_eq!(sanitize_title("  Fix login redirect  \n"), "Fix login redirect");
}

#[test]
fn app_sanitize_title_empty_returns_empty() {
    assert_eq!(sanitize_title(""), "");
}

#[test]
fn app_sanitize_title_combined_quote_and_prefix() {
    // Quotes stripped first, then prefix stripped too
    assert_eq!(sanitize_title("\"Title: Fix login\""), "Fix login");
}

#[test]
fn app_sanitize_title_single_quote_char_no_panic() {
    assert_eq!(sanitize_title("\""), "\"");
}

#[test]
fn app_sanitize_title_single_apostrophe_no_panic() {
    assert_eq!(sanitize_title("'"), "'");
}

#[test]
fn app_sanitize_title_non_ascii_prefix_no_panic() {
    // "Título:" starts with a multibyte char — must not panic on byte-index
    assert_eq!(sanitize_title("Título: Fix"), "Título: Fix");
}

#[test]
fn app_title_fallback_strips_newlines() {
    assert_eq!(
        title_fallback("Fix bug\nin login.rs"),
        "Fix bug"
    );
}

#[test]
fn app_title_fallback_empty_returns_empty() {
    assert_eq!(title_fallback(""), "");
}

#[test]
fn tests_title_fallback_short_text() {
    assert_eq!(title_fallback("Fix the login bug"), "Fix the login bug");
}

#[test]
fn tests_title_fallback_exactly_60_chars() {
    let text = "a".repeat(60);
    assert_eq!(title_fallback(&text), text);
}

#[test]
fn tests_title_fallback_over_60_chars_truncates() {
    let text = "a".repeat(80);
    let result = title_fallback(&text);
    assert_eq!(result.chars().count(), 60);
    assert!(result.ends_with("..."));
    assert_eq!(&result[..57], "a".repeat(57));
}

#[test]
fn tests_title_fallback_unicode_truncation() {
    // 70 emoji characters — should truncate to 57 + "..."
    let text = "🦀".repeat(70);
    let result = title_fallback(&text);
    assert_eq!(result.chars().count(), 60);
    assert!(result.ends_with("..."));
}

#[test]
fn tests_sanitize_title_clean_response() {
    assert_eq!(sanitize_title("Fix login redirect"), "Fix login redirect");
}

#[test]
fn tests_sanitize_title_strips_double_quotes() {
    assert_eq!(sanitize_title("\"Fix login redirect\""), "Fix login redirect");
}

#[test]
fn tests_sanitize_title_strips_single_quotes() {
    assert_eq!(sanitize_title("'Fix login redirect'"), "Fix login redirect");
}

#[test]
fn tests_sanitize_title_strips_title_prefix() {
    assert_eq!(sanitize_title("Title: Fix login redirect"), "Fix login redirect");
}

#[test]
fn tests_sanitize_title_strips_title_prefix_case_insensitive() {
    assert_eq!(sanitize_title("TITLE: Fix login redirect"), "Fix login redirect");
}

#[test]
fn tests_sanitize_title_takes_first_line() {
    assert_eq!(
        sanitize_title("Fix login redirect\nHere is some explanation"),
        "Fix login redirect"
    );
}

#[test]
fn tests_sanitize_title_skips_empty_first_line() {
    assert_eq!(
        sanitize_title("\n  \nFix login redirect\n"),
        "Fix login redirect"
    );
}

#[test]
fn tests_sanitize_title_enforces_60_char_cap() {
    let long = "a".repeat(80);
    let result = sanitize_title(&long);
    assert_eq!(result.chars().count(), 60);
    assert!(result.ends_with("..."));
}

#[test]
fn tests_sanitize_title_trims_whitespace() {
    assert_eq!(sanitize_title("  Fix login redirect  \n"), "Fix login redirect");
}

#[test]
fn tests_sanitize_title_empty_returns_empty() {
    assert_eq!(sanitize_title(""), "");
}

#[test]
fn tests_sanitize_title_combined_quote_and_prefix() {
    // Quotes stripped first, then prefix stripped too
    assert_eq!(sanitize_title("\"Title: Fix login\""), "Fix login");
}

#[test]
fn tests_sanitize_title_single_quote_char_no_panic() {
    assert_eq!(sanitize_title("\""), "\"");
}

#[test]
fn tests_sanitize_title_single_apostrophe_no_panic() {
    assert_eq!(sanitize_title("'"), "'");
}

#[test]
fn tests_sanitize_title_non_ascii_prefix_no_panic() {
    // "Título:" starts with a multibyte char — must not panic on byte-index
    assert_eq!(sanitize_title("Título: Fix"), "Título: Fix");
}

#[test]
fn tests_title_fallback_strips_newlines() {
    assert_eq!(
        title_fallback("Fix bug\nin login.rs"),
        "Fix bug"
    );
}

#[test]
fn tests_title_fallback_empty_returns_empty() {
    assert_eq!(title_fallback(""), "");
}

#[test]
fn a_title_is_its_own_title() {
    for text in ["", "  \n\r\n ", "\n  Fix it \nthen rest", &"ab ".repeat(40), &"🦀".repeat(70)] {
        let title = title_fallback(text);
        assert_eq!(title_fallback(&title), title);
    }
}

#[test]
fn lines_behind_the_first_filled_one_do_not_count() {
    assert_eq!(sanitize_title("\n \nTitle: \"a\"\nmore\n"), sanitize_title("Title: \"a\""));
    assert_eq!(sanitize_title("Fix it\n"), sanitize_title("Fix it\nand more"));
    assert_eq!(sanitize_title(" \n\t"), "");
}
