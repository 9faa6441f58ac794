use vstd::prelude::*;
use crate::context::CacheContext;

verus! {

/// Microseconds in one second.
pub const MICROS_PER_SECOND: i128 = 1_000_000;

/// A caller-supplied staleness rule. It should be pure: its answer should
/// depend on its arguments alone.
pub trait StalePredicate<K, V>: Sized {
    /// Whether the entry of `key`, holding `value` with `context`, must be
    /// recomputed at time `now` (microseconds since the Unix epoch, UTC).
    fn is_stale(&self, key: &K, value: &V, context: &CacheContext<Self>, now: i64) -> bool;
}

/// The caller-supplied rule of caches that use only the built-in policies:
/// it never asks for a refresh.
#[derive(Clone, Copy, Debug, Default, PartialEq, Eq)]
pub struct NoPredicate;

impl<K, V> StalePredicate<K, V> for NoPredicate {
    fn is_stale(&self, key: &K, value: &V, context: &CacheContext<Self>, now: i64) -> bool {
        false
    }
}

/// A rule deciding, at access time, whether a cached entry is stale.
#[derive(Clone, Copy, Debug, PartialEq, Eq)]
pub enum Policy<P = NoPredicate> {
    /// Stale once at least this many seconds have passed since the last update.
    MaxAge(i64),
    /// Stale on every access.
    Always,
    /// Never stale.
    Never,
    /// Stale when the caller's predicate says so.
    Custom(P),
}

/// Whether built-in `policy` judges an entry last updated at `updated_at`
/// stale at time `now` (both in microseconds). A caller's predicate is not
/// known here, and counts as fresh.
pub open spec fn policy_stale<P>(policy: Policy<P>, updated_at: i64, now: i64) -> bool {
    match policy {
        Policy::MaxAge(secs) => now - updated_at >= secs * MICROS_PER_SECOND,
        Policy::Always => true,
        Policy::Never => false,
        Policy::Custom(_) => false,
    }
}

/// Whether some built-in policy of `policies` judges the entry stale.
pub open spec fn any_stale<P>(policies: Seq<Policy<P>>, updated_at: i64, now: i64) -> bool {
    exists|i: int| 0 <= i < policies.len() && policy_stale(#[trigger] policies[i], updated_at, now)
}

/// Whether `policies` holds a caller-supplied predicate.
pub open spec fn has_custom<P>(policies: Seq<Policy<P>>) -> bool {
    exists|i: int| 0 <= i < policies.len() && #[trigger] policies[i] is Custom
}

impl<P> Policy<P> {
    /// Evaluates this policy for the entry of `key`, holding `value` with
    /// `context`, at time `now`.
    pub fn is_stale<K, V>(&self, key: &K, value: &V, context: &CacheContext<P>, now: i64) -> (r:
        bool) where P: StalePredicate<K, V>
        ensures
            !(*self is Custom) ==> r == policy_stale(*self, context.updated_at, now),
    {
        match self {
            Policy::MaxAge(secs) => {
                let elapsed: i128 = (now as i128) - (context.updated_at as i128);
                elapsed >= (*secs as i128) * MICROS_PER_SECOND
            },
            Policy::Always => true,
            Policy::Never => false,
            Policy::Custom(p) => p.is_stale(key, value, context, now),
        }
    }
}

/// The ordered list of refresh policies bound to an entry when it is created.
#[derive(Clone, Debug, Default)]
pub struct CacheOption<P = NoPredicate> {
    pub policies: Vec<Policy<P>>,
}

impl<P> CacheOption<P> {
    /// An empty policy list.
    pub fn new() -> (r: CacheOption<P>)
        ensures
            r.policies@ == Seq::<Policy<P>>::empty(),
    {
        CacheOption { policies: Vec::new() }
    }

    /// Appends `policy` after the policies already present.
    pub fn add_policy(self, policy: Policy<P>) -> (r: CacheOption<P>)
        ensures
            r.policies@ == self.policies@.push(policy),
    {
        let mut s = self;
        s.policies.push(policy);
        s
    }

    /// Appends a policy that judges an entry stale once at least `max_age`
    /// seconds have passed since its last update.
    pub fn max_age(self, max_age: i64) -> (r: CacheOption<P>)
        ensures
            r.policies@ == self.policies@.push(Policy::MaxAge(max_age)),
    {
        self.add_policy(Policy::MaxAge(max_age))
    }
}

} // verus!
