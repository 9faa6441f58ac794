use vstd::prelude::*;
use std::collections::hash_map::Entry;
use std::collections::HashMap;
use std::fmt::Debug;
use std::hash::Hash;
use vstd::std_specs::hash::obeys_key_model;
use crate::clock::now_micros;
use crate::context::CacheContext;
use crate::policy::{any_stale, has_custom, CacheOption, NoPredicate, StalePredicate};

verus! {

broadcast use vstd::std_specs::hash::group_hash_axioms;

/// What a cache can be keyed by.
pub trait Key: Clone + Eq + Hash + Debug {}

impl<T: Clone + Eq + Hash + Debug> Key for T {}

/// What a cache can hold.
pub trait Value: Clone + Debug {}

impl<T: Clone + Debug> Value for T {}

/// A memoization cache holding at most one entry, a value and its context,
/// per key. `P` is the type of the caller-supplied staleness predicates.
#[derive(Debug)]
pub struct CacheUp<K: Key, V: Value, P = NoPredicate> {
    store: HashMap<K, (V, CacheContext<P>)>,
}

/// Whether the policies bound to entry `e` ask for a refresh at time `now`.
pub open spec fn entry_stale<V, P>(e: (V, CacheContext<P>), now: i64) -> bool {
    any_stale(e.1.option.policies@, e.1.updated_at, now)
}

/// The context of `c` after a refresh at time `now`: the update time is
/// `now`, or the creation time if the clock reads earlier than that.
pub open spec fn refreshed<P>(c: CacheContext<P>, now: i64) -> CacheContext<P> {
    CacheContext {
        created_at: c.created_at,
        updated_at: if now >= c.created_at { now } else { c.created_at },
        option: c.option,
    }
}

/// The state `after` and returned entry `r` of an access to `key` at time
/// `now` from state `before`, with producer `f` and `option` for a new entry.
/// A built-in policy that judges the entry stale forces a refresh; with
/// none, an entry without caller-supplied predicates stays as it is, and one
/// with them is either refreshed or left as it is, as the predicates decide.
pub open spec fn accessed<K, V, P, F: Fn() -> V>(
    before: Map<K, (V, CacheContext<P>)>,
    after: Map<K, (V, CacheContext<P>)>,
    key: K,
    f: F,
    option: CacheOption<P>,
    now: i64,
    r: (V, CacheContext<P>),
) -> bool {
    if !before.contains_key(key) {
        &&& f.ensures((), r.0)
        &&& r.1.created_at == now
        &&& r.1.updated_at == now
        &&& r.1.option.policies@ == option.policies@
        &&& after == before.insert(key, r)
    } else if entry_stale(before[key], now) {
        refreshed_entry(before, after, key, f, now, r)
    } else if has_custom(before[key].1.option.policies@) {
        refreshed_entry(before, after, key, f, now, r) || unchanged_entry(before, after, key, r)
    } else {
        unchanged_entry(before, after, key, r)
    }
}

/// The entry of `key` took a new value from `f` at time `now`, keeping its
/// creation time and policies.
pub open spec fn refreshed_entry<K, V, P, F: Fn() -> V>(
    before: Map<K, (V, CacheContext<P>)>,
    after: Map<K, (V, CacheContext<P>)>,
    key: K,
    f: F,
    now: i64,
    r: (V, CacheContext<P>),
) -> bool {
    &&& f.ensures((), r.0)
    &&& r.1 == refreshed(before[key].1, now)
    &&& after == before.insert(key, r)
}

/// The access returned the entry of `key` and changed nothing.
pub open spec fn unchanged_entry<K, V, P>(
    before: Map<K, (V, CacheContext<P>)>,
    after: Map<K, (V, CacheContext<P>)>,
    key: K,
    r: (V, CacheContext<P>),
) -> bool {
    &&& r == before[key]
    &&& after =~= before
}

impl<K: Key, V: Value, P> View for CacheUp<K, V, P> {
    type V = Map<K, (V, CacheContext<P>)>;

    closed spec fn view(&self) -> Map<K, (V, CacheContext<P>)> {
        self.store@
    }
}

impl<K: Key, V: Value, P: StalePredicate<K, V>> CacheUp<K, V, P> {
    /// The key type hashes and compares lawfully, and every entry's context
    /// is well formed.
    pub closed spec fn wf(&self) -> bool {
        &&& obeys_key_model::<K>()
        &&& forall|k: K| #[trigger] self.store@.contains_key(k) ==> self.store@[k].1.wf()
    }

    /// An empty cache.
    pub fn new() -> (r: Self)
        requires
            obeys_key_model::<K>(),
        ensures
            r.wf(),
            r@ == Map::<K, (V, CacheContext<P>)>::empty(),
    {
        CacheUp { store: HashMap::new() }
    }

    /// Accesses `key` at time `now`. On a miss, stores `f()` with a new
    /// context created at `now` carrying `option`. On a hit, evaluates the
    /// entry's own policies in order; if one judges it stale, replaces the
    /// value by `f()` and moves the update time to `now` (to the creation
    /// time, if the clock reads earlier than that) without evaluating the
    /// rest; otherwise leaves the entry as it is and does not call `f`.
    /// `option` is used only on a miss.
    /// Returns the entry as stored after the access.
    pub fn execute_with_option_at<F: Fn() -> V>(
        &mut self,
        key: K,
        f: F,
        option: CacheOption<P>,
        now: i64,
    ) -> (r: &(V, CacheContext<P>))
        requires
            old(self).wf(),
            f.requires(()),
        ensures
            final(self).wf(),
            r.1.wf(),
            accessed(old(self)@, final(self)@, key, f, option, now, *r),
    {
        match self.store.entry(key) {
            Entry::Occupied(occ) => {
                let stale = {
                    let item = occ.get();
                    item.1.needs_refresh(occ.key(), &item.0, now)
                };
                let item = occ.into_mut();
                if stale {
                    item.0 = f();
                    item.1.updated_at = if now >= item.1.created_at {
                        now
                    } else {
                        item.1.created_at
                    };
                }
                &*item
            },
            Entry::Vacant(vac) => {
                let v = f();
                let context = CacheContext { created_at: now, updated_at: now, option };
                let item = vac.insert((v, context));
                &*item
            },
        }
    }

    /// Accesses `key` at the current time, as `execute_with_option_at` does.
    pub fn execute_with_option<F: Fn() -> V>(&mut self, key: K, f: F, option: CacheOption<P>) -> (r: &(
        V,
        CacheContext<P>,
    ))
        requires
            old(self).wf(),
            f.requires(()),
        ensures
            final(self).wf(),
            r.1.wf(),
            exists|now: i64| accessed(old(self)@, final(self)@, key, f, option, now, *r),
    {
        let now = now_micros();
        self.execute_with_option_at(key, f, option, now)
    }

    /// Accesses `key` at the current time; a new entry gets no policies.
    pub fn execute<F: Fn() -> V>(&mut self, key: K, f: F) -> (r: &(V, CacheContext<P>))
        requires
            old(self).wf(),
            f.requires(()),
        ensures
            final(self).wf(),
            r.1.wf(),
            exists|now: i64, option: CacheOption<P>|
                option.policies@.len() == 0 && accessed(old(self)@, final(self)@, key, f, option, now, *r),
    {
        self.execute_with_option(key, f, CacheOption::<P>::new())
    }
}

impl<K: Key, V: Value, P: StalePredicate<K, V>> Default for CacheUp<K, V, P> {
    /// An empty cache.
    fn default() -> (r: Self)
        ensures
            r@ == Map::<K, (V, CacheContext<P>)>::empty(),
            obeys_key_model::<K>() ==> r.wf(),
    {
        CacheUp { store: HashMap::new() }
    }
}

} // verus!
