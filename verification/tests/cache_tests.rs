use std::cell::Cell;

use winmove::cache::{FetchError, StaleTolerantCache};

#[test]
fn empty_cell_fetches_once_and_keeps_a_success() {
    let calls: Cell<u32> = Cell::new(0);
    let mut cache: StaleTolerantCache<u32> = StaleTolerantCache::empty();
    assert!(cache.cached().is_none());
    let fetched = cache.get_or_fetch(|| {
        calls.set(calls.get() + 1);
        Ok(42)
    });
    assert_eq!(fetched, Ok(42));
    assert_eq!(calls.get(), 1);
    assert_eq!(cache.cached(), Some(Ok(42)));
}

#[test]
fn fail_once_then_succeed_is_cached_and_not_fetched_a_third_time() {
    let calls: Cell<u32> = Cell::new(0);
    let mut cache: StaleTolerantCache<u32> = StaleTolerantCache::empty();
    let fetcher = || {
        calls.set(calls.get() + 1);
        if calls.get() == 1 {
            Err(FetchError)
        } else {
            Ok(7)
        }
    };
    assert_eq!(cache.get_or_fetch(fetcher), Err(FetchError));
    assert_eq!(calls.get(), 1);
    // The stored failure makes the second access fetch again, and
    // this time the success sticks.
    assert_eq!(cache.get_or_fetch(fetcher), Ok(7));
    assert_eq!(calls.get(), 2);
    // A retained success is returned without invoking the fetcher.
    assert_eq!(cache.get_or_fetch(fetcher), Ok(7));
    assert_eq!(calls.get(), 2);
}

#[test]
fn always_failing_fetcher_is_invoked_on_every_access() {
    let calls: Cell<u32> = Cell::new(0);
    let mut cache: StaleTolerantCache<u32> = StaleTolerantCache::empty();
    let fetcher = || {
        calls.set(calls.get() + 1);
        Err(FetchError)
    };
    for expected in 1..=5u32 {
        assert_eq!(cache.get_or_fetch(fetcher), Err(FetchError));
        assert_eq!(calls.get(), expected);
        assert_eq!(cache.cached(), Some(Err(FetchError)));
    }
}

#[test]
fn success_is_never_silently_refetched() {
    let mut cache: StaleTolerantCache<i64> = StaleTolerantCache::empty();
    assert_eq!(cache.get_or_fetch(|| Ok(10)), Ok(10));
    // A later fetcher with a different answer is never consulted.
    assert_eq!(cache.get_or_fetch(|| Ok(99)), Ok(10));
    assert_eq!(cache.cached(), Some(Ok(10)));
}
