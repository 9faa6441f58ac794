use vstd::prelude::*;
use crate::policy::{any_stale, has_custom, policy_stale, CacheOption, NoPredicate, StalePredicate};

verus! {

/// Bookkeeping of one entry: when it was created, when its value was last
/// produced (both in microseconds since the Unix epoch, UTC), and the
/// policies bound to it at creation.
#[derive(Clone, Debug)]
pub struct CacheContext<P = NoPredicate> {
    pub created_at: i64,
    pub updated_at: i64,
    pub option: CacheOption<P>,
}

impl<P> CacheContext<P> {
    /// Creation never comes after the last update.
    pub open spec fn wf(&self) -> bool {
        self.created_at <= self.updated_at
    }

    /// Evaluates the bound policies in order for the entry of `key` holding
    /// `value`, at time `now`, stopping at the first one that judges the
    /// entry stale, and returns its index; `None` when none does.
    pub fn first_stale<K, V>(&self, key: &K, value: &V, now: i64) -> (r: Option<usize>) where
        P: StalePredicate<K, V>,
        ensures
            match r {
                Some(i) => {
                    &&& i < self.option.policies@.len()
                    &&& !(self.option.policies@[i as int] is Custom) ==> policy_stale(
                        self.option.policies@[i as int],
                        self.updated_at,
                        now,
                    )
                    &&& forall|j: int|
                        0 <= j < i ==> !policy_stale(
                            #[trigger] self.option.policies@[j],
                            self.updated_at,
                            now,
                        )
                },
                None => !any_stale(self.option.policies@, self.updated_at, now),
            },
    {
        let mut i: usize = 0;
        while i < self.option.policies.len()
            invariant
                i <= self.option.policies@.len(),
                forall|j: int|
                    0 <= j < i ==> !policy_stale(
                        #[trigger] self.option.policies@[j],
                        self.updated_at,
                        now,
                    ),
            decreases self.option.policies@.len() - i,
        {
            if self.option.policies[i].is_stale(key, value, self, now) {
                return Some(i);
            }
            i = i + 1;
        }
        None
    }

    /// Whether some bound policy judges the entry of `key` holding `value`
    /// stale at time `now`; evaluation stops at the first policy that does.
    pub fn needs_refresh<K, V>(&self, key: &K, value: &V, now: i64) -> (r: bool) where
        P: StalePredicate<K, V>,
        ensures
            any_stale(self.option.policies@, self.updated_at, now) ==> r,
            !has_custom(self.option.policies@) ==> r == any_stale(
                self.option.policies@,
                self.updated_at,
                now,
            ),
    {
        match self.first_stale(key, value, now) {
            Some(_) => true,
            None => false,
        }
    }
}

} // verus!
