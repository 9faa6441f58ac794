//! An in-process memoization cache whose entries are refreshed lazily, on
//! access, according to the refresh policies bound to each entry.

mod clock;
mod laws;
mod context;
mod policy;
mod store;

pub use context::CacheContext;
pub use policy::{
    any_stale, has_custom, policy_stale, CacheOption, NoPredicate, Policy, StalePredicate,
    MICROS_PER_SECOND,
};
pub use store::{accessed, entry_stale, refreshed, refreshed_entry, unchanged_entry, CacheUp, Key, Value};
pub use laws::{
    lemma_age_boundary, lemma_always_fresh, lemma_always_stale, lemma_key_independence,
    lemma_no_policy_idempotent,
};
