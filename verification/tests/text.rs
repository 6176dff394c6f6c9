use marketshield::text::{at_or_before, decimal_text, escape, is_blank, precedes, same_text, short_date};

#[test]
fn markup_is_escaped() {
    assert_eq!(
        escape("Ridgeline & <script>"),
        "Ridgeline &amp; &lt;script&gt;"
    );
}

#[test]
fn quotes_are_escaped_for_attributes() {
    assert_eq!(escape("say \"hi\""), "say &quot;hi&quot;");
    assert_eq!(escape(""), "");
    assert_eq!(escape("Table Bay"), "Table Bay");
    assert_eq!(escape("✓ <b>"), "✓ &lt;b&gt;");
}

#[test]
fn short_date_keeps_the_date_of_a_timestamp() {
    assert_eq!(short_date("2026-05-14T09:30:00Z"), "2026-05-14");
    assert_eq!(short_date("2026-05"), "2026-05");
    assert_eq!(short_date("2026-05-14"), "2026-05-14");
    // The tenth byte falls inside a multi-byte character: the text is kept.
    assert_eq!(short_date("2026-05-1é9"), "2026-05-1é9");
}

#[test]
fn timestamps_order_chronologically() {
    assert!(precedes("2026-01-01T00:00:00Z", "2026-05-01T00:00:00Z"));
    assert!(!precedes("2026-05-01T00:00:00Z", "2026-01-01T00:00:00Z"));
    assert!(!precedes("2026-05-01T00:00:00Z", "2026-05-01T00:00:00Z"));
    assert!(precedes("2026", "2026-01"));
    assert!(at_or_before("2026-05-01T00:00:00Z", "2026-05-01T00:00:00Z"));
    assert!(at_or_before("2026-03-01T00:00:00Z", "2026-05-01T00:00:00Z"));
    assert!(!at_or_before("2026-06-01T00:00:00Z", "2026-05-01T00:00:00Z"));
}

#[test]
fn blank_means_only_white_space() {
    assert!(is_blank(""));
    assert!(is_blank("   "));
    assert!(is_blank(" \t\n\u{3000}"));
    assert!(!is_blank(" x "));
    assert_eq!(is_blank("\u{a0}"), "\u{a0}".trim().is_empty());
}

#[test]
fn texts_compare_character_by_character() {
    assert!(same_text("ridgeline", "ridgeline"));
    assert!(!same_text("ridgeline", "ridgelin"));
    assert!(!same_text("a", "b"));
}

#[test]
fn counts_render_in_decimal() {
    assert_eq!(decimal_text(0), "0");
    assert_eq!(decimal_text(7), "7");
    assert_eq!(decimal_text(10), "10");
    assert_eq!(decimal_text(214), "214");
    assert_eq!(decimal_text(usize::MAX), usize::MAX.to_string());
}
