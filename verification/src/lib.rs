//! Accessor for a single secret held in the operating system's native
//! credential store, keyed by a fixed (service, account) identity.

use vstd::prelude::*;

mod accessor;
mod backend;
mod errors;
mod model;
mod trim;

pub use accessor::delete_api_key;
pub use accessor::get_api_key;
pub use accessor::has_api_key;
pub use accessor::observed_entry;
pub use accessor::resolve_delete_outcome;
pub use accessor::resolve_read_outcome;
pub use accessor::store_api_key;
pub use errors::KeyringError;
pub use model::delete_result;
pub use model::exists_result;
pub use model::lemma_delete_idempotent;
pub use model::lemma_exists_after_delete;
pub use model::lemma_exists_after_store;
pub use model::lemma_last_write_wins;
pub use model::lemma_retrieve_absent;
pub use model::lemma_store_blank_retrieve;
pub use model::lemma_store_delete_retrieve;
pub use model::lemma_store_then_retrieve;
pub use model::normalized_secret;
pub use model::retrieve_result;
pub use model::store_result;
pub use trim::is_space;
pub use trim::is_space_char;
pub use trim::lemma_trim_idempotent;
pub use trim::trim_end_spec;
pub use trim::trim_spec;
pub use trim::trim_start_spec;
pub use trim::trim_value;
