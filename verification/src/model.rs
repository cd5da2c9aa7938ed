//! A model of the accessor's behaviour against the credential store.
//!
//! The stored entry itself lives inside the operating system's secure-storage
//! subsystem, so its state cannot appear as a value in the accessor's code.
//! This module makes that state explicit — `Option<Seq<char>>` is the stored
//! string, if an entry exists — and states each operation's effect on it as a
//! spec function. The lemmas below prove the guarantees the accessor gives
//! across sequences of calls, under the store's own guarantee that it keeps
//! exactly the last value written per identity.

use vstd::prelude::*;

use crate::trim::trim_spec;

verus! {

/// The secret a retrieval reports for a stored entry: the trimmed value, or
/// nothing when the value trims to the empty string.
pub open spec fn normalized_secret(raw: Seq<char>) -> Option<Seq<char>> {
    if trim_spec(raw).len() == 0 {
        None
    } else {
        Some(trim_spec(raw))
    }
}

/// What a retrieval reports for a given store state: absence when no entry
/// exists, otherwise the normalized stored value.
pub open spec fn retrieve_result(state: Option<Seq<char>>) -> Option<Seq<char>> {
    match state {
        Some(raw) => normalized_secret(raw),
        None => None,
    }
}

/// The store state after a successful store of `secret`: the prior value, if
/// any, is overwritten.
pub open spec fn store_result(state: Option<Seq<char>>, secret: Seq<char>) -> Option<Seq<char>> {
    Some(secret)
}

/// The store state after a delete: no entry exists, whatever was there.
pub open spec fn delete_result(state: Option<Seq<char>>) -> Option<Seq<char>> {
    None
}

/// What the existence check reports: exactly whether a retrieval would
/// succeed.
pub open spec fn exists_result(state: Option<Seq<char>>) -> bool {
    retrieve_result(state) is Some
}

/// Storing a secret whose trimmed form is non-empty and then retrieving
/// yields exactly that trimmed form, whatever was stored before.
pub proof fn lemma_store_then_retrieve(state: Option<Seq<char>>, secret: Seq<char>)
    requires
        trim_spec(secret).len() > 0,
    ensures
        retrieve_result(store_result(state, secret)) == Some(trim_spec(secret)),
{
}

/// Retrieval against a store that holds no entry reports absence.
pub proof fn lemma_retrieve_absent()
    ensures
        retrieve_result(None::<Seq<char>>) is None,
{
}

/// Deleting is idempotent on the store state: a second delete finds and
/// leaves the same absent state as the first.
pub proof fn lemma_delete_idempotent(state: Option<Seq<char>>)
    ensures
        delete_result(delete_result(state)) == delete_result(state),
{
}

/// After a store followed by a delete, a retrieval reports absence.
pub proof fn lemma_store_delete_retrieve(state: Option<Seq<char>>, secret: Seq<char>)
    ensures
        retrieve_result(delete_result(store_result(state, secret))) is None,
{
}

/// Storing a secret that trims to nothing leaves retrieval reporting
/// absence: an empty value is treated as an absent one.
pub proof fn lemma_store_blank_retrieve(state: Option<Seq<char>>, secret: Seq<char>)
    requires
        trim_spec(secret).len() == 0,
    ensures
        retrieve_result(store_result(state, secret)) is None,
{
}

/// The existence check reports true right after a store of a secret whose
/// trimmed form is non-empty.
pub proof fn lemma_exists_after_store(state: Option<Seq<char>>, secret: Seq<char>)
    requires
        trim_spec(secret).len() > 0,
    ensures
        exists_result(store_result(state, secret)),
{
}

/// The existence check reports false right after a delete.
pub proof fn lemma_exists_after_delete(state: Option<Seq<char>>)
    ensures
        !exists_result(delete_result(state)),
{
}

/// The last write wins: after two stores in a row, retrieval answers as if
/// only the second had happened, whatever both secrets are.
pub proof fn lemma_last_write_wins(
    state: Option<Seq<char>>,
    first: Seq<char>,
    second: Seq<char>,
)
    ensures
        retrieve_result(store_result(store_result(state, first), second)) == retrieve_result(
            store_result(state, second),
        ),
{
}

} // verus!
