//! Tests against the real platform credential store. A host without a usable
//! store backend reports access failures; every assertion here holds either
//! way, and the full round trip is exercised wherever a store is available.

use keystore::delete_api_key;
use keystore::get_api_key;
use keystore::has_api_key;
use keystore::store_api_key;

#[test]
fn store_round_trip_when_store_is_available() {
    // Start from a clean slate; a failure here means no usable backend.
    if delete_api_key().is_err() {
        return;
    }

    // With no prior store, retrieval reports absence and existence is false.
    let before = get_api_key();
    if let Err(e) = &before {
        assert!(e.is_not_found() || e.is_keychain_error());
    }

    if store_api_key(" abc123 ").is_ok() {
        // A stored secret comes back with surrounding whitespace stripped.
        assert_eq!(get_api_key().unwrap(), "abc123");
        assert!(has_api_key());

        // Last write wins: a second store overwrites the first.
        assert!(store_api_key("key1").is_ok());
        assert!(store_api_key("key2").is_ok());
        assert_eq!(get_api_key().unwrap(), "key2");

        // Delete always reports success, and is idempotent: a second delete
        // finds the entry absent and still succeeds.
        assert!(delete_api_key().is_ok());
        assert!(delete_api_key().is_ok());

        // After the delete, retrieval reports absence and existence is false.
        assert!(get_api_key().unwrap_err().is_not_found());
        assert!(!has_api_key());
    }
}

#[test]
fn delete_reports_alike_with_and_without_entry() {
    let first = delete_api_key();
    let second = delete_api_key();
    assert_eq!(first.is_ok(), second.is_ok());
}
