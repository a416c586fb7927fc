use yahoo_finance_api::crumb::{CacheAction, CacheEvent, Crumb, CRUMB_TTL_SECS};
use yahoo_finance_api::uri::{append_crumb, append_crumb_to_query};
use yahoo_finance_api::YahooError;

fn stored(crumb: &str, now: u64) -> Crumb {
    let mut cache = Crumb::new();
    let action = cache.step(CacheEvent::Acquired { crumb: crumb.to_string(), now });
    assert!(matches!(action, CacheAction::Use(value) if value == crumb));
    cache
}

#[test]
fn empty_cache_sends_the_caller_to_acquire() {
    let mut cache = Crumb::new();
    assert!(cache.fresh(0).is_none());
    assert!(matches!(cache.consult(0), CacheAction::Lock));
    assert!(matches!(cache.step(CacheEvent::Arrived { now: 0 }), CacheAction::Lock));
    assert!(matches!(cache.step(CacheEvent::Locked { now: 0 }), CacheAction::Acquire));
    assert!(matches!(cache.step(CacheEvent::Locked { now: u64::MAX }), CacheAction::Acquire));
}

#[test]
fn acquired_crumb_is_kept_for_a_day() {
    assert_eq!(CRUMB_TTL_SECS, 24 * 60 * 60);
    let mut cache = stored("abc", 1000);
    assert_eq!(cache.fresh(1000).as_deref(), Some("abc"));
    assert_eq!(cache.fresh(1000 + 86399).as_deref(), Some("abc"));
    assert_eq!(cache.fresh(1000 + 86400).as_deref(), Some("abc"));
    assert_eq!(cache.fresh(1000 + 86401), None);
    assert!(matches!(cache.consult(5000), CacheAction::Use(value) if value == "abc"));
    assert!(matches!(
        cache.step(CacheEvent::Locked { now: 5000 }),
        CacheAction::Use(value) if value == "abc"
    ));
}

#[test]
fn expired_crumb_is_not_reused() {
    let mut cache = stored("old", 1000);
    let later = 1000 + 86400 + 1;
    assert!(matches!(cache.consult(later), CacheAction::Lock));
    assert!(matches!(cache.step(CacheEvent::Locked { now: later }), CacheAction::Acquire));
    assert!(cache.enrich("https://x/y", later).is_none());
    let action = cache.step(CacheEvent::Acquired { crumb: "new".to_string(), now: later });
    assert!(matches!(action, CacheAction::Use(value) if value == "new"));
    assert_eq!(cache.fresh(later).as_deref(), Some("new"));
    assert_eq!(cache.fresh(later + 86400).as_deref(), Some("new"));
}

#[test]
fn failure_is_not_cached() {
    let mut cache = Crumb::new();
    let action = cache.step(CacheEvent::Failed(YahooError::FetchFailed("down".to_string())));
    assert!(matches!(action, CacheAction::Fail(YahooError::FetchFailed(text)) if text == "down"));
    assert!(cache.fresh(0).is_none());
    assert!(matches!(cache.step(CacheEvent::Locked { now: 0 }), CacheAction::Acquire));
    assert!(matches!(cache.step(CacheEvent::Locked { now: 1 }), CacheAction::Acquire));
}

#[test]
fn failure_empties_a_cache_that_held_a_crumb() {
    let mut cache = stored("abc", 1000);
    let action = cache.step(CacheEvent::Failed(YahooError::EmptyDataSet));
    assert!(matches!(action, CacheAction::Fail(YahooError::EmptyDataSet)));
    assert!(cache.fresh(1000).is_none());
    assert!(matches!(cache.consult(1000), CacheAction::Lock));
    assert!(matches!(cache.step(CacheEvent::Locked { now: 1000 }), CacheAction::Acquire));
}

#[test]
fn callers_that_meet_at_an_empty_cache_share_one_acquisition() {
    let mut cache = Crumb::new();
    let callers = 8;
    // all of them find the cache empty while they only read it
    for _ in 0..callers {
        assert!(matches!(cache.consult(10), CacheAction::Lock));
    }
    // then they get the cache to themselves one after the other
    let mut acquisitions = 0;
    let mut crumbs = Vec::new();
    for turn in 0..callers {
        let now = 10 + turn;
        let crumb = match cache.step(CacheEvent::Locked { now }) {
            CacheAction::Use(crumb) => crumb,
            CacheAction::Acquire => {
                acquisitions += 1;
                let fresh = format!("crumb-{}", acquisitions);
                match cache.step(CacheEvent::Acquired { crumb: fresh, now: now + 2 }) {
                    CacheAction::Use(crumb) => crumb,
                    other => panic!("unexpected {:?}", other),
                }
            }
            other => panic!("unexpected {:?}", other),
        };
        crumbs.push(crumb);
    }
    assert_eq!(acquisitions, 1);
    assert_eq!(crumbs.len(), 8);
    assert!(crumbs.iter().all(|crumb| crumb == "crumb-1"));
}

#[test]
fn expiry_does_not_overflow() {
    let cache = stored("abc", u64::MAX - 5);
    assert_eq!(cache.fresh(u64::MAX).as_deref(), Some("abc"));
    let cache = stored("abc", u64::MAX);
    assert_eq!(cache.fresh(u64::MAX).as_deref(), Some("abc"));
}

#[test]
fn enriching_appends_the_crumb_to_the_query() {
    let cache = stored("abc", 0);
    assert_eq!(cache.enrich("https://x/y", 1).unwrap().unwrap(), "https://x/y?crumb=abc");
    assert_eq!(cache.enrich("https://x/y?z=1", 1).unwrap().unwrap(), "https://x/y?z=1&crumb=abc");
    assert_eq!(
        append_crumb("https://x/y?z=1&w=2", "abc").unwrap(),
        "https://x/y?z=1&w=2&crumb=abc"
    );
}

#[test]
fn enriching_keeps_scheme_authority_and_path() {
    assert_eq!(
        append_crumb("https://query1.finance.yahoo.com/v8/finance/chart/AAPL?symbol=AAPL&interval=1d", "Xy.z9")
            .unwrap(),
        "https://query1.finance.yahoo.com/v8/finance/chart/AAPL?symbol=AAPL&interval=1d&crumb=Xy.z9"
    );
    assert_eq!(
        append_crumb("http://user@host.example:8080/a/b", "c1").unwrap(),
        "http://user@host.example:8080/a/b?crumb=c1"
    );
}

#[test]
fn empty_query_is_started_afresh() {
    assert_eq!(append_crumb("https://x/y?", "abc").unwrap(), "https://x/y?crumb=abc");
    assert_eq!(append_crumb("https://x", "abc").unwrap(), "https://x/?crumb=abc");
    assert_eq!(append_crumb("/only/a/path", "abc").unwrap(), "/only/a/path?crumb=abc");
}

#[test]
fn query_gets_the_crumb_as_its_last_parameter() {
    assert_eq!(append_crumb_to_query(&None, "abc"), "crumb=abc");
    assert_eq!(append_crumb_to_query(&Some(String::new()), "abc"), "crumb=abc");
    assert_eq!(append_crumb_to_query(&Some("z=1".to_string()), "abc"), "z=1&crumb=abc");
    assert_eq!(append_crumb_to_query(&Some("z=1".to_string()), ""), "z=1&crumb=");
}

#[test]
fn text_that_is_no_uri_fails_the_build() {
    match append_crumb("http://[", "abc") {
        Err(YahooError::BuildFailed(text)) => {
            assert!(text.starts_with("failed to parse the URL: "), "{}", text);
            assert!(text.len() > "failed to parse the URL: ".len());
        }
        other => panic!("unexpected {:?}", other),
    }
    assert!(matches!(append_crumb("", "abc"), Err(YahooError::BuildFailed(_))));
}

#[test]
fn crumb_that_fits_no_uri_fails_the_build() {
    match append_crumb("https://x/y", "a b") {
        Err(YahooError::BuildFailed(text)) => assert!(!text.is_empty()),
        other => panic!("unexpected {:?}", other),
    }
}

#[test]
fn cache_without_fresh_crumb_does_not_enrich() {
    let cache = Crumb::new();
    assert!(cache.enrich("https://x/y", 0).is_none());
}

/// Where a caller stands on its way to a crumb.
#[derive(Debug, Clone, PartialEq)]
enum Standing {
    Arriving,
    Waiting,
    Acquiring,
    Served(String),
}

#[test]
fn callers_in_any_order_share_one_acquisition() {
    for seed in 1u64..40 {
        let mut cache = Crumb::new();
        let mut callers = vec![Standing::Arriving; 7];
        let mut holder: Option<usize> = None;
        let mut acquisitions = 0;
        let mut state = seed;
        let mut now = 100;
        while callers.iter().any(|caller| !matches!(caller, Standing::Served(_))) {
            state = state.wrapping_mul(6364136223846793005).wrapping_add(1442695040888963407);
            let who = ((state >> 33) % 7) as usize;
            now += 1;
            let standing = callers[who].clone();
            callers[who] = match standing {
                // the lock keeps readers and waiters out while the cache is held
                Standing::Arriving | Standing::Waiting if holder.is_some() => standing,
                Standing::Arriving => match cache.consult(now) {
                    CacheAction::Use(crumb) => Standing::Served(crumb),
                    CacheAction::Lock => Standing::Waiting,
                    other => panic!("unexpected {:?}", other),
                },
                Standing::Waiting => match cache.step(CacheEvent::Locked { now }) {
                    CacheAction::Use(crumb) => Standing::Served(crumb),
                    CacheAction::Acquire => {
                        holder = Some(who);
                        acquisitions += 1;
                        assert!(!callers.contains(&Standing::Acquiring));
                        Standing::Acquiring
                    }
                    other => panic!("unexpected {:?}", other),
                },
                Standing::Acquiring => {
                    assert_eq!(holder, Some(who));
                    holder = None;
                    let crumb = format!("crumb-{}", acquisitions);
                    match cache.step(CacheEvent::Acquired { crumb, now }) {
                        CacheAction::Use(crumb) => Standing::Served(crumb),
                        other => panic!("unexpected {:?}", other),
                    }
                }
                Standing::Served(crumb) => Standing::Served(crumb),
            };
        }
        assert_eq!(acquisitions, 1);
        assert!(callers.iter().all(|caller| *caller == Standing::Served("crumb-1".to_string())));
    }
}

#[test]
fn caller_that_comes_after_the_crumb_expired_acquires_again() {
    let mut cache = stored("crumb-1", 100);
    let late = 100 + CRUMB_TTL_SECS + 1;
    assert!(matches!(cache.consult(late), CacheAction::Lock));
    assert!(matches!(cache.step(CacheEvent::Locked { now: late }), CacheAction::Acquire));
}
