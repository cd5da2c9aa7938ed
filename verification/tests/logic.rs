//! Tests of the verified normalization logic: trimming, read-outcome and
//! delete-outcome resolution, and the error type's reporting.

use keystore::is_space;
use keystore::resolve_delete_outcome;
use keystore::resolve_read_outcome;
use keystore::trim_value;
use keystore::KeyringError;

#[test]
fn trim_strips_surrounding_whitespace() {
    assert_eq!(trim_value(" abc123 "), "abc123");
    assert_eq!(trim_value("\t\r\n key \n\t"), "key");
    assert_eq!(trim_value("abc123"), "abc123");
}

#[test]
fn trim_keeps_inner_whitespace() {
    assert_eq!(trim_value("  a b\tc  "), "a b\tc");
}

#[test]
fn trim_of_blank_is_empty() {
    assert_eq!(trim_value(""), "");
    assert_eq!(trim_value("   "), "");
    assert_eq!(trim_value(" \t\r\n\u{000B}\u{000C}"), "");
    assert_eq!(trim_value("\u{00A0}"), "");
    assert_eq!(trim_value("\u{2003}\u{3000}\u{0085}"), "");
}

#[test]
fn trim_strips_unicode_whitespace() {
    assert_eq!(trim_value("\u{00A0}key\u{00A0}"), "key");
    assert_eq!(trim_value("\u{2028}\u{202F}abc123\u{205F}\u{1680}"), "abc123");

    // Agreement with the standard library's trim on a mixed sample.
    let mixed = "\u{0085}\u{00A0} key1 \u{2000}\u{2007}\u{200A}\u{2029}\u{3000}";
    assert_eq!(trim_value(mixed), mixed.trim());
}

#[test]
fn trim_handles_non_ascii_content() {
    assert_eq!(trim_value("  clé-API  "), "clé-API");
}

#[test]
fn space_characters_are_recognized() {
    assert!(is_space(' '));
    assert!(is_space('\t'));
    assert!(is_space('\n'));
    assert!(is_space('\r'));
    assert!(is_space('\u{000B}'));
    assert!(is_space('\u{000C}'));
    assert!(!is_space('a'));
    assert!(!is_space('0'));
}

#[test]
fn read_of_stored_value_comes_back_trimmed() {
    let r = resolve_read_outcome(Ok(" abc123 ".to_string()));
    assert_eq!(r.unwrap(), "abc123");
}

#[test]
fn read_of_plain_value_comes_back_unchanged() {
    let r = resolve_read_outcome(Ok("key2".to_string()));
    assert_eq!(r.unwrap(), "key2");
}

#[test]
fn read_of_empty_value_reports_not_found() {
    let r = resolve_read_outcome(Ok(String::new()));
    assert!(r.unwrap_err().is_not_found());
}

#[test]
fn read_of_blank_value_reports_not_found() {
    let r = resolve_read_outcome(Ok("  \t\n ".to_string()));
    assert!(r.unwrap_err().is_not_found());

    let r = resolve_read_outcome(Ok("\u{00A0}".to_string()));
    assert!(r.unwrap_err().is_not_found());
}

#[test]
fn read_strips_unicode_whitespace() {
    let r = resolve_read_outcome(Ok("\u{00A0}abc\u{3000}".to_string()));
    assert_eq!(r.unwrap(), "abc");
}

#[test]
fn failed_read_reports_not_found() {
    let r = resolve_read_outcome(Err("no entry found".to_string()));
    assert!(r.unwrap_err().is_not_found());
}

#[test]
fn delete_outcome_is_always_success() {
    assert!(resolve_delete_outcome(Ok(())).is_ok());
    assert!(resolve_delete_outcome(Err("no entry found".to_string())).is_ok());
}

#[test]
fn error_kinds_report_themselves() {
    let not_found = KeyringError::KeyNotFound;
    assert!(not_found.is_not_found());
    assert!(!not_found.is_keychain_error());

    let access = KeyringError::KeychainError("store unavailable".to_string());
    assert!(access.is_keychain_error());
    assert!(!access.is_not_found());
}
