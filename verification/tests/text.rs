use clipboard_queue::errors::AppError;
use clipboard_queue::format::{supported_codes, Format};
use clipboard_queue::text::{display_text, trim_text, MAX_TEXT};

#[test]
fn trim_removes_surrounding_white_space() {
    assert_eq!(trim_text("  hello  "), "hello");
    assert_eq!(trim_text("\n Hello\tworld\t\n"), "Hello\tworld");
    assert_eq!(trim_text("hello"), "hello");
    assert_eq!(trim_text("a b"), "a b");
    assert_eq!(trim_text(""), "");
    assert_eq!(trim_text(" \t\r\n"), "");
    assert_eq!(trim_text("\u{a0}x\u{3000}"), "x");
}

#[test]
fn display_keeps_short_text() {
    assert_eq!(display_text(""), "");
    assert_eq!(display_text("hello"), "hello");
    let exact: String = "a".repeat(150);
    assert_eq!(display_text(&exact), exact);
}

#[test]
fn display_cuts_long_text() {
    assert_eq!(MAX_TEXT, 150);
    let long: String = "a".repeat(151);
    let shown = display_text(&long);
    assert_eq!(shown, format!("{}...", "a".repeat(150)));
    let longer: String = "xy".repeat(200);
    assert_eq!(display_text(&longer), format!("{}...", "xy".repeat(75)));
}

#[test]
fn display_counts_bytes_for_the_dots() {
    // 100 characters of three bytes each: fewer than 150 characters, more than 150 bytes.
    let wide: String = "\u{4e2d}".repeat(100);
    assert_eq!(display_text(&wide), format!("{}...", wide));
    // 50 such characters are exactly 150 bytes: no dots.
    let fits: String = "\u{4e2d}".repeat(50);
    assert_eq!(display_text(&fits), fits);
    // 200 such characters: cut to 150 characters, then dots.
    let many: String = "\u{4e2d}".repeat(200);
    assert_eq!(display_text(&many), format!("{}...", "\u{4e2d}".repeat(150)));
}

#[test]
fn app_error_messages() {
    assert_eq!(AppError::InitializeFailed.message(), "Failed to Initialize");
    assert_eq!(AppError::RunningError.message(), "Something went wrong when running");
}

#[test]
fn format_codes_round_trip() {
    assert_eq!(Format::UnicodeText.code(), 13);
    assert_eq!(Format::AnsiText.code(), 1);
    assert_eq!(Format::Bitmap.code(), 8);
    for f in [Format::UnicodeText, Format::AnsiText, Format::Bitmap] {
        assert_eq!(Format::from_code(f.code()), Some(f));
    }
    assert_eq!(Format::from_code(0), None);
    assert_eq!(Format::from_code(2), None);
    assert_eq!(Format::from_code(u32::MAX), None);
}

#[test]
fn format_priority_and_kind() {
    assert_eq!(supported_codes(), [13, 1, 8]);
    assert!(Format::UnicodeText.is_text());
    assert!(Format::AnsiText.is_text());
    assert!(!Format::Bitmap.is_text());
}
