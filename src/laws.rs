//! Properties of accesses that relate several calls.
use vstd::prelude::*;
use crate::context::CacheContext;
use crate::policy::{any_stale, has_custom, policy_stale, CacheOption, Policy, MICROS_PER_SECOND};
use crate::store::accessed;

verus! {

/// An access changes no entry but the one of the key it was made for.
pub proof fn lemma_key_independence<K, V, P, F: Fn() -> V>(
    before: Map<K, (V, CacheContext<P>)>,
    after: Map<K, (V, CacheContext<P>)>,
    key: K,
    f: F,
    option: CacheOption<P>,
    now: i64,
    r: (V, CacheContext<P>),
    other: K,
)
    requires
        accessed(before, after, key, f, option, now, r),
        other != key,
    ensures
        after.contains_key(other) == before.contains_key(other),
        before.contains_key(other) ==> after[other] == before[other],
{
}

/// Without policies, a second access to a key returns what the first one
/// stored and leaves the cache as it was: the second producer's value is
/// never taken.
pub proof fn lemma_no_policy_idempotent<K, V, P, F1: Fn() -> V, F2: Fn() -> V>(
    s0: Map<K, (V, CacheContext<P>)>,
    s1: Map<K, (V, CacheContext<P>)>,
    s2: Map<K, (V, CacheContext<P>)>,
    key: K,
    f1: F1,
    f2: F2,
    option1: CacheOption<P>,
    option2: CacheOption<P>,
    t1: i64,
    t2: i64,
    r1: (V, CacheContext<P>),
    r2: (V, CacheContext<P>),
)
    requires
        s0.contains_key(key) ==> s0[key].1.option.policies@.len() == 0,
        option1.policies@.len() == 0,
        accessed(s0, s1, key, f1, option1, t1, r1),
        accessed(s1, s2, key, f2, option2, t2, r2),
    ensures
        r2 == r1,
        s2 == s1,
{
}

/// An entry created with a policy that always judges it stale takes the
/// producer's value on every later access, whatever policies that access
/// passes, and keeps the policies it was created with.
pub proof fn lemma_always_stale<K, V, P, F1: Fn() -> V, F2: Fn() -> V>(
    s0: Map<K, (V, CacheContext<P>)>,
    s1: Map<K, (V, CacheContext<P>)>,
    s2: Map<K, (V, CacheContext<P>)>,
    key: K,
    f1: F1,
    f2: F2,
    option1: CacheOption<P>,
    option2: CacheOption<P>,
    t1: i64,
    t2: i64,
    r1: (V, CacheContext<P>),
    r2: (V, CacheContext<P>),
)
    requires
        !s0.contains_key(key),
        option1.policies@ == seq![Policy::<P>::Always],
        accessed(s0, s1, key, f1, option1, t1, r1),
        accessed(s1, s2, key, f2, option2, t2, r2),
    ensures
        f1.ensures((), r1.0),
        f2.ensures((), r2.0),
        r2.1.option.policies@ == seq![Policy::<P>::Always],
        s2 == s1.insert(key, r2),
{
    assert(policy_stale(s1[key].1.option.policies@[0], s1[key].1.updated_at, t2));
}

/// An entry created with a policy that never judges it stale keeps its first
/// value: a later access returns it and changes nothing.
pub proof fn lemma_always_fresh<K, V, P, F1: Fn() -> V, F2: Fn() -> V>(
    s0: Map<K, (V, CacheContext<P>)>,
    s1: Map<K, (V, CacheContext<P>)>,
    s2: Map<K, (V, CacheContext<P>)>,
    key: K,
    f1: F1,
    f2: F2,
    option1: CacheOption<P>,
    option2: CacheOption<P>,
    t1: i64,
    t2: i64,
    r1: (V, CacheContext<P>),
    r2: (V, CacheContext<P>),
)
    requires
        !s0.contains_key(key),
        option1.policies@ == seq![Policy::<P>::Never],
        accessed(s0, s1, key, f1, option1, t1, r1),
        accessed(s1, s2, key, f2, option2, t2, r2),
    ensures
        f1.ensures((), r1.0),
        r2 == r1,
        s2 == s1,
{
    assert(!has_custom(s1[key].1.option.policies@)) by {
        assert forall|i: int| 0 <= i < s1[key].1.option.policies@.len() implies !(
        #[trigger] s1[key].1.option.policies@[i] is Custom) by {
            assert(i == 0);
        }
    }
    assert(!any_stale(s1[key].1.option.policies@, s1[key].1.updated_at, t2)) by {
        assert forall|i: int| 0 <= i < s1[key].1.option.policies@.len() implies !policy_stale(
            #[trigger] s1[key].1.option.policies@[i],
            s1[key].1.updated_at,
            t2,
        ) by {
            assert(i == 0);
        }
    }
}

/// With a single age policy of `secs` seconds, the access that follows the
/// creation of an entry (at a time not before it) refreshes the entry exactly
/// when at least `secs` seconds have passed; so an age of zero always
/// refreshes it, and a large age leaves it as it is.
pub proof fn lemma_age_boundary<K, V, P, F1: Fn() -> V, F2: Fn() -> V>(
    s0: Map<K, (V, CacheContext<P>)>,
    s1: Map<K, (V, CacheContext<P>)>,
    s2: Map<K, (V, CacheContext<P>)>,
    key: K,
    f1: F1,
    f2: F2,
    secs: i64,
    option1: CacheOption<P>,
    option2: CacheOption<P>,
    t1: i64,
    t2: i64,
    r1: (V, CacheContext<P>),
    r2: (V, CacheContext<P>),
)
    requires
        !s0.contains_key(key),
        option1.policies@ == seq![Policy::<P>::MaxAge(secs)],
        t1 <= t2,
        accessed(s0, s1, key, f1, option1, t1, r1),
        accessed(s1, s2, key, f2, option2, t2, r2),
    ensures
        t2 - t1 >= secs * MICROS_PER_SECOND ==> {
            &&& f2.ensures((), r2.0)
            &&& r2.1.created_at == t1
            &&& r2.1.updated_at == t2
            &&& s2 == s1.insert(key, r2)
        },
        t2 - t1 < secs * MICROS_PER_SECOND ==> r2 == r1 && s2 == s1,
        secs == 0 ==> f2.ensures((), r2.0) && r2.1.updated_at == t2,
{
    let c = s1[key].1;
    assert(c.option.policies@[0] == Policy::<P>::MaxAge(secs));
    if t2 - t1 >= secs * MICROS_PER_SECOND {
        assert(policy_stale(c.option.policies@[0], c.updated_at, t2));
    } else {
        assert forall|i: int| 0 <= i < c.option.policies@.len() implies !(
        #[trigger] c.option.policies@[i] is Custom) by {
            assert(i == 0);
        }
        assert forall|i: int| 0 <= i < c.option.policies@.len() implies !policy_stale(
            #[trigger] c.option.policies@[i],
            c.updated_at,
            t2,
        ) by {
            assert(i == 0);
        }
    }
}

} // verus!
