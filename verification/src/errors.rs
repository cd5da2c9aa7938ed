//! The two failure kinds the accessor reports.

use vstd::prelude::*;

verus! {

/// Failure reported by the credential accessor.
///
/// `KeychainError` means the platform store could not be reached or refused
/// the operation; it carries a human-readable message from the underlying
/// failure. `KeyNotFound` means the secret is absent: no entry exists, the
/// entry could not be read, or the stored value trims to nothing.
#[derive(Debug, Clone)]
pub enum KeyringError {
    KeychainError(String),
    KeyNotFound,
}

impl KeyringError {
    /// True exactly when this error reports an absent secret.
    pub fn is_not_found(&self) -> (r: bool)
        ensures
            r == (self is KeyNotFound),
    {
        match self {
            KeyringError::KeyNotFound => true,
            KeyringError::KeychainError(_) => false,
        }
    }

    /// True exactly when this error reports a store-access failure.
    pub fn is_keychain_error(&self) -> (r: bool)
        ensures
            r == (self is KeychainError),
    {
        match self {
            KeyringError::KeychainError(_) => true,
            KeyringError::KeyNotFound => false,
        }
    }
}

} // verus!
