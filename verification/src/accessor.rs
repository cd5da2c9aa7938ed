//! The credential accessor: store, retrieve, delete and existence check for
//! the one fixed (service, account) identity.
//!
//! Each operation acquires a fresh handle to the platform store, makes one
//! call against it, and normalizes the outcome. The normalization of each
//! outcome is verified here; what the store answers depends on its own state,
//! so the contracts state what holds of every possible answer.

use vstd::prelude::*;

use crate::backend::entry_new;
use crate::backend::read_secret;
use crate::backend::remove_secret;
use crate::backend::set_secret;
use crate::errors::KeyringError;
use crate::model::retrieve_result;
use crate::trim::lemma_trim_idempotent;
use crate::trim::trim_spec;
use crate::trim::trim_value;

verus! {

/// What the accessor takes the store to hold, given the outcome of one read:
/// the raw stored value when the read succeeded, absence otherwise. A read
/// failure is deliberately collapsed into absence rather than reported as a
/// distinct access error.
pub open spec fn observed_entry(outcome: Result<String, String>) -> Option<Seq<char>> {
    match outcome {
        Ok(raw) => Some(raw@),
        Err(_) => None,
    }
}

/// A fresh handle for the fixed identity, or a `KeychainError` carrying the
/// platform store's message when no handle can be built.
fn get_entry() -> (r: Result<keyring::Entry, KeyringError>)
    ensures
        r matches Err(e) ==> e is KeychainError,
{
    match entry_new("BananaSlice-API", "Gemini-Key") {
        Ok(entry) => Ok(entry),
        Err(msg) => Err(
            KeyringError::KeychainError(
                "Failed to create keyring entry: ".to_owned().concat(msg.as_str()),
            ),
        ),
    }
}

/// Turns the outcome of one read against the store into the accessor's
/// answer: the stored value comes back trimmed, an absent entry, a failed
/// read and a value that trims to nothing all report `KeyNotFound`.
pub fn resolve_read_outcome(outcome: Result<String, String>) -> (r: Result<String, KeyringError>)
    ensures
        retrieve_result(observed_entry(outcome)) matches Some(v) ==> (r matches Ok(k) && k@ == v),
        retrieve_result(observed_entry(outcome)) is None ==> (r matches Err(e)
            && e is KeyNotFound),
        r matches Ok(k) ==> trim_spec(k@) == k@ && k@.len() > 0,
{
    match outcome {
        Ok(raw) => {
            let trimmed = trim_value(raw.as_str());
            if trimmed.as_str().is_empty() {
                Err(KeyringError::KeyNotFound)
            } else {
                proof {
                    lemma_trim_idempotent(raw@);
                }
                Ok(trimmed)
            }
        },
        Err(_) => Err(KeyringError::KeyNotFound),
    }
}

/// Turns the outcome of one removal against the store into the accessor's
/// answer: a removal failure (the entry was already absent, or the store
/// refused to remove it) is suppressed, so the answer is always success.
pub fn resolve_delete_outcome(outcome: Result<(), String>) -> (r: Result<(), KeyringError>)
    ensures
        r is Ok,
{
    let _ = outcome;
    Ok(())
}

/// Writes `api_key` to the stored entry for the fixed identity, overwriting
/// any prior value, then reads it back once as a best-effort verification
/// whose outcome does not change the result. The only failures are access
/// failures: building the handle or persisting the value.
pub fn store_api_key(api_key: &str) -> (r: Result<(), KeyringError>)
    ensures
        r matches Err(e) ==> e is KeychainError,
{
    let entry = match get_entry() {
        Ok(entry) => entry,
        Err(e) => return Err(e),
    };
    match set_secret(&entry, api_key) {
        Ok(()) => (),
        Err(msg) => return Err(
            KeyringError::KeychainError("Failed to set password: ".to_owned().concat(msg.as_str())),
        ),
    }
    let _ = read_secret(&entry);
    Ok(())
}

/// Reads the stored entry for the fixed identity. A returned secret is
/// always the stored value with surrounding whitespace stripped, and never
/// empty; an absent entry, a failed read and a value that trims to nothing
/// all report `KeyNotFound`, while a handle that cannot be built reports
/// `KeychainError`.
pub fn get_api_key() -> (r: Result<String, KeyringError>)
    ensures
        r matches Ok(k) ==> trim_spec(k@) == k@ && k@.len() > 0,
{
    let entry = match get_entry() {
        Ok(entry) => entry,
        Err(e) => return Err(e),
    };
    let outcome = read_secret(&entry);
    resolve_read_outcome(outcome)
}

/// Removes the stored entry for the fixed identity. Idempotent: an entry
/// that is already absent is not an error, so the only failure is a handle
/// that cannot be built.
pub fn delete_api_key() -> (r: Result<(), KeyringError>)
    ensures
        r matches Err(e) ==> e is KeychainError,
{
    let entry = match get_entry() {
        Ok(entry) => entry,
        Err(e) => return Err(e),
    };
    let outcome = remove_secret(&entry);
    resolve_delete_outcome(outcome)
}

/// Whether a retrieval would currently succeed: implemented exactly as a
/// retrieval whose value is discarded.
pub fn has_api_key() -> (r: bool) {
    get_api_key().is_ok()
}

} // verus!
