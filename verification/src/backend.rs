//! Trusted boundary to the operating system's credential store.
//!
//! Each function here makes one call into the `keyring` crate and converts
//! its error into its display message. What each call returns depends on the
//! state of the platform store, which no contract here can see, so none of
//! these wrappers promises anything about its result: the verified code
//! around them handles every outcome.

use vstd::prelude::*;

verus! {

/// The handle type of the `keyring` crate for one (service, user) identity
/// in the platform store.
#[verifier::external_type_specification]
#[verifier::external_body]
pub struct ExEntry(keyring::Entry);

/// Relies on `keyring::Entry::new`: builds a handle for the (service, user)
/// pair, failing when the platform store cannot provide one.
#[verifier::external_body]
pub(crate) fn entry_new(service: &str, user: &str) -> (r: Result<keyring::Entry, String>) {
    match keyring::Entry::new(service, user) {
        Ok(entry) => Ok(entry),
        Err(e) => Err(format!("{}", e)),
    }
}

/// Relies on `keyring::Entry::set_password`: writes the value for this
/// entry's identity, overwriting any prior value.
#[verifier::external_body]
pub(crate) fn set_secret(entry: &keyring::Entry, value: &str) -> (r: Result<(), String>) {
    match entry.set_password(value) {
        Ok(()) => Ok(()),
        Err(e) => Err(format!("{}", e)),
    }
}

/// Relies on `keyring::Entry::get_password`: reads the value stored for this
/// entry's identity, failing when no entry exists or the store cannot be
/// read.
#[verifier::external_body]
pub(crate) fn read_secret(entry: &keyring::Entry) -> (r: Result<String, String>) {
    match entry.get_password() {
        Ok(value) => Ok(value),
        Err(e) => Err(format!("{}", e)),
    }
}

/// Relies on `keyring::Entry::delete_credential`: removes the entry for this
/// identity, failing when none exists or the store refuses.
#[verifier::external_body]
pub(crate) fn remove_secret(entry: &keyring::Entry) -> (r: Result<(), String>) {
    match entry.delete_credential() {
        Ok(()) => Ok(()),
        Err(e) => Err(format!("{}", e)),
    }
}

} // verus!
