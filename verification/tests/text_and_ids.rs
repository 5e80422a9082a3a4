use mcp_identity::sources::{new_short_id, short_id};
use mcp_identity::text::{chars_of, contains_text};

#[test]
fn short_id_takes_eight_uppercased_characters() {
    assert_eq!(short_id("AR-", "0123abcd89ef4567"), "AR-0123ABCD");
    assert_eq!(short_id("LT-", "deadbeef"), "LT-DEADBEEF");
}

#[test]
fn fresh_ids_differ() {
    let a = new_short_id("AR-");
    let b = new_short_id("AR-");
    assert!(a.starts_with("AR-"));
    assert_eq!(a.len(), 11);
    assert_ne!(a, b);
    assert!(a[3..].chars().all(|c| c.is_ascii_digit() || ('A'..='F').contains(&c)));
}

#[test]
fn short_id_uppercases_beyond_ascii_hex() {
    assert_eq!(short_id("X-", "straße-long-text"), "X-STRASSE-L");
}

#[test]
fn substring_search() {
    assert!(contains_text("james.karanja@company.com", "karanja@"));
    assert!(contains_text("abc", ""));
    assert!(contains_text("abc", "abc"));
    assert!(!contains_text("abc", "abcd"));
    assert!(!contains_text("abc", "ac"));
    assert!(!contains_text("", "a"));
    assert!(contains_text("naïve café", "é"));
}

#[test]
fn characters_in_order() {
    assert_eq!(chars_of("héllo"), vec!['h', 'é', 'l', 'l', 'o']);
    assert!(chars_of("").is_empty());
}

