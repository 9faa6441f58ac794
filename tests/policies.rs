use cache_up::{CacheContext, CacheOption, CacheUp, Policy, StalePredicate};
use std::cell::Cell;
use std::rc::Rc;

#[derive(Debug)]
struct Counting {
    answer: bool,
    calls: Rc<Cell<u32>>,
}

impl StalePredicate<u32, u32> for Counting {
    fn is_stale(&self, _key: &u32, _value: &u32, _context: &CacheContext<Self>, _now: i64) -> bool {
        self.calls.set(self.calls.get() + 1);
        self.answer
    }
}

fn context_with(option: CacheOption) -> CacheContext {
    CacheContext { created_at: 10, updated_at: 10, option }
}

#[test]
fn no_policy_second_producer_never_called() {
    let mut cache = CacheUp::<u32, u32>::new();
    let calls = Cell::new(0u32);
    let (v, _) = cache.execute_with_option_at(7, || 1, CacheOption::new(), 100);
    assert_eq!(*v, 1);
    let (v, ctx) = cache.execute_with_option_at(
        7,
        || {
            calls.set(calls.get() + 1);
            2
        },
        CacheOption::new(),
        200,
    );
    assert_eq!(*v, 1);
    assert_eq!(ctx.created_at, 100);
    assert_eq!(ctx.updated_at, 100);
    assert_eq!(calls.get(), 0);
}

#[test]
fn distinct_keys_are_independent() {
    let mut cache = CacheUp::<u32, u32>::new();
    cache.execute_with_option_at(1, || 10, CacheOption::new().add_policy(Policy::Always), 5);
    cache.execute_with_option_at(2, || 20, CacheOption::new(), 6);
    let (v, ctx) = cache.execute_with_option_at(1, || 11, CacheOption::new(), 9);
    assert_eq!(*v, 11);
    assert_eq!(ctx.updated_at, 9);
    let (v, ctx) = cache.execute_with_option_at(2, || 21, CacheOption::new(), 10);
    assert_eq!(*v, 20);
    assert_eq!(ctx.created_at, 6);
    assert_eq!(ctx.updated_at, 6);
}

#[test]
fn always_stale_keeps_creation_policies() {
    let mut cache = CacheUp::<u32, u32>::new();
    let (v, _) = cache.execute_with_option_at(1, || 4, CacheOption::new().add_policy(Policy::Always), 1);
    assert_eq!(*v, 4);
    let (v, ctx) = cache.execute_with_option_at(1, || 10, CacheOption::new().add_policy(Policy::Never), 2);
    assert_eq!(*v, 10);
    assert_eq!(ctx.created_at, 1);
    assert_eq!(ctx.updated_at, 2);
    assert_eq!(ctx.option.policies, vec![Policy::Always]);
    let (v, _) = cache.execute_with_option_at(1, || 12, CacheOption::new(), 3);
    assert_eq!(*v, 12);
}

#[test]
fn always_fresh_never_refreshes() {
    let mut cache = CacheUp::<u32, u32>::new();
    let (v, _) = cache.execute_with_option_at(1, || 4, CacheOption::new().add_policy(Policy::Never), 1);
    assert_eq!(*v, 4);
    for t in 2..50 {
        let (v, ctx) = cache.execute_with_option_at(1, || 10, CacheOption::new().add_policy(Policy::Always), t);
        assert_eq!(*v, 4);
        assert_eq!(ctx.updated_at, 1);
    }
}

#[test]
fn first_stale_stops_at_first_true() {
    let ctx = context_with(CacheOption::new().add_policy(Policy::Never).add_policy(Policy::Always).add_policy(Policy::Always));
    assert_eq!(ctx.first_stale(&0u32, &0u32, 10), Some(1));
    let ctx = context_with(CacheOption::new().add_policy(Policy::Always).add_policy(Policy::Never));
    assert_eq!(ctx.first_stale(&0u32, &0u32, 10), Some(0));
    let ctx = context_with(CacheOption::new().add_policy(Policy::Never).add_policy(Policy::Never));
    assert_eq!(ctx.first_stale(&0u32, &0u32, 10), None);
    assert!(!ctx.needs_refresh(&0u32, &0u32, 10));
    assert_eq!(context_with(CacheOption::new()).first_stale(&0u32, &0u32, 10), None);
}

#[test]
fn custom_predicates_short_circuit() {
    let first = Rc::new(Cell::new(0));
    let second = Rc::new(Cell::new(0));
    let third = Rc::new(Cell::new(0));
    let option = CacheOption::new()
        .add_policy(Policy::Custom(Counting { answer: false, calls: first.clone() }))
        .add_policy(Policy::Custom(Counting { answer: true, calls: second.clone() }))
        .add_policy(Policy::Custom(Counting { answer: true, calls: third.clone() }));
    let mut cache = CacheUp::<u32, u32, Counting>::new();
    let (v, _) = cache.execute_with_option_at(1, || 4, option, 0);
    assert_eq!(*v, 4);
    assert_eq!((first.get(), second.get(), third.get()), (0, 0, 0));
    let (v, ctx) = cache.execute_with_option_at(1, || 10, CacheOption::new(), 7);
    assert_eq!(*v, 10);
    assert_eq!(ctx.updated_at, 7);
    assert_eq!((first.get(), second.get(), third.get()), (1, 1, 0));
}

#[test]
fn custom_predicate_false_then_true() {
    let first = Rc::new(Cell::new(0));
    let second = Rc::new(Cell::new(0));
    let option = CacheOption::new()
        .add_policy(Policy::Custom(Counting { answer: true, calls: first.clone() }))
        .add_policy(Policy::Custom(Counting { answer: false, calls: second.clone() }));
    let mut cache = CacheUp::<u32, u32, Counting>::new();
    cache.execute_with_option_at(1, || 4, option, 0);
    let (v, _) = cache.execute_with_option_at(1, || 10, CacheOption::new(), 1);
    assert_eq!(*v, 10);
    assert_eq!((first.get(), second.get()), (1, 0));

    let never = Rc::new(Cell::new(0));
    let option = CacheOption::new().add_policy(Policy::Custom(Counting { answer: false, calls: never.clone() }));
    let mut cache = CacheUp::<u32, u32, Counting>::new();
    cache.execute_with_option_at(1, || 4, option, 0);
    for t in 1..4 {
        let (v, _) = cache.execute_with_option_at(1, || 10, CacheOption::new(), t);
        assert_eq!(*v, 4);
    }
    assert_eq!(never.get(), 3);
}

#[test]
fn max_age_zero_refreshes_next_access() {
    let mut cache = CacheUp::<u32, u32>::new();
    cache.execute_with_option_at(1, || 4, CacheOption::new().max_age(0), 1_000);
    let (v, ctx) = cache.execute_with_option_at(1, || 10, CacheOption::new(), 1_000);
    assert_eq!(*v, 10);
    assert_eq!(ctx.created_at, 1_000);
    assert_eq!(ctx.updated_at, 1_000);
}

#[test]
fn max_age_large_does_not_refresh() {
    let mut cache = CacheUp::<u32, u32>::new();
    cache.execute_with_option_at(1, || 4, CacheOption::new().max_age(i64::MAX), 0);
    for t in 1..100 {
        let (v, _) = cache.execute_with_option_at(1, || 10, CacheOption::new(), t * 1_000_000_000);
        assert_eq!(*v, 4);
    }
}

#[test]
fn max_age_boundary_in_seconds() {
    let at = |updated_at: i64| -> CacheContext { CacheContext { created_at: updated_at, updated_at, option: CacheOption::new() } };
    let stale = |secs: i64, updated_at: i64, now: i64| Policy::MaxAge(secs).is_stale(&0u32, &0u32, &at(updated_at), now);
    assert!(!stale(2, 0, 1_999_999));
    assert!(stale(2, 0, 2_000_000));
    assert!(stale(-1, 5, 4));
    assert!(!stale(0, 5, 4));
    assert!(stale(0, i64::MIN, i64::MAX));
    assert!(!stale(i64::MAX, i64::MIN, i64::MAX));
}

#[test]
fn refresh_with_clock_behind_creation_keeps_order() {
    let mut cache = CacheUp::<u32, u32>::new();
    cache.execute_with_option_at(1, || 4, CacheOption::new().add_policy(Policy::Always), 500);
    let (v, ctx) = cache.execute_with_option_at(1, || 6, CacheOption::new(), 100);
    assert_eq!(*v, 6);
    assert_eq!(ctx.created_at, 500);
    assert_eq!(ctx.updated_at, 500);
}

#[test]
fn scenario_always_stale_then_plain_access() {
    let mut cache = CacheUp::<i64, i64>::new();
    let (v, _) = cache.execute_with_option(1, || 4, CacheOption::new().add_policy(Policy::Always));
    assert_eq!(*v, 4);
    let (v, _) = cache.execute(1, || 10);
    assert_eq!(*v, 10);
}

#[test]
fn scenario_always_fresh_then_plain_access() {
    let mut cache = CacheUp::<i64, i64>::new();
    let (v, _) = cache.execute_with_option(1, || 4, CacheOption::new().add_policy(Policy::Never));
    assert_eq!(*v, 4);
    let (v, _) = cache.execute(1, || 10);
    assert_eq!(*v, 4);
}

#[test]
fn clock_reads_current_time() {
    let mut cache = CacheUp::<i64, i64>::new();
    let (_, ctx) = cache.execute(1, || 1);
    // 2020-01-01T00:00:00Z in microseconds.
    assert!(ctx.created_at > 1_577_836_800_000_000);
    assert_eq!(ctx.created_at, ctx.updated_at);
    assert!(ctx.option.policies.is_empty());
}

#[test]
fn debug_lists_entries() {
    let mut cache = CacheUp::<i64, i64>::new();
    cache.execute_with_option_at(3, || 9, CacheOption::new(), 0);
    let text = format!("{:?}", cache);
    assert!(text.contains("3"));
    assert!(text.contains("9"));
}

#[test]
fn default_cache_is_empty() {
    let mut cache: CacheUp<u8, u8> = CacheUp::default();
    let (v, ctx) = cache.execute_with_option_at(0, || 3, CacheOption::default(), 42);
    assert_eq!(*v, 3);
    assert_eq!(ctx.created_at, 42);
    assert_eq!(ctx.updated_at, 42);
}

#[test]
fn builders_append_in_order() {
    let opt: CacheOption = CacheOption::new().max_age(5).add_policy(Policy::Never).max_age(0);
    assert_eq!(opt.policies, vec![Policy::MaxAge(5), Policy::Never, Policy::MaxAge(0)]);
    let ctx = context_with(opt);
    assert!(ctx.needs_refresh(&0u32, &0u32, 10));
    assert_eq!(ctx.first_stale(&0u32, &0u32, 10), Some(2));
    assert_eq!(ctx.first_stale(&0u32, &0u32, 5_000_010), Some(0));
}
