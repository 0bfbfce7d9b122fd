//! The token cache, driven step by step with a clock that the tests set.

use object_store_client::time::{Clock, Duration, Instant};
use object_store_client::token::{
    CacheEntry, Request, TemporaryToken, TokenCache, STALE_WHILE_REVALIDATE_ENV_VAR,
};

/// A point in time, in nanoseconds, from which the tests count
const START: i128 = 1_000_000_000_000_000;

const MILLI: i128 = 1_000_000;
const SECOND: i128 = 1_000_000_000;

fn instant(nanos: i128) -> Instant {
    Instant { nanos }
}

/// A token that expires this long after `now`
fn create_token(token: &str, now: i128, expiry: Option<Duration>) -> TemporaryToken<String> {
    TemporaryToken {
        token: token.to_string(),
        expiry: expiry.map(|d| instant(now + d.nanos as i128)),
    }
}

fn default_cache() -> TokenCache<String> {
    TokenCache::default_for_env(None)
}

/// A cache with its guard and a clock
struct Shared {
    cache: TokenCache<String>,
    guard_taken: bool,
    now: i128,
    fetches: u32,
}

impl Shared {
    fn new(cache: TokenCache<String>) -> Shared {
        Shared { cache, guard_taken: false, now: START, fetches: 0 }
    }

    fn now(&self) -> Instant {
        instant(self.now)
    }

    /// The first step of a call
    fn call(&self) -> Request<String> {
        self.cache.first_step_at(self.now(), self.now())
    }

    /// The step after a call tried for the guard
    fn try_guard(&mut self, stale: String) -> Request<String> {
        let acquired = !self.guard_taken;
        self.guard_taken = true;
        Request::guard_tried(stale, acquired)
    }

    /// The step of a call that has the guard
    fn recheck(&mut self) -> Request<String> {
        let next = self.cache.guarded_step_at(self.now(), self.now());
        if matches!(next, Request::Answer(_)) {
            self.guard_taken = false;
        }
        if matches!(next, Request::Fetch) {
            self.fetches += 1;
        }
        next
    }

    fn fetched(
        &mut self,
        outcome: Result<TemporaryToken<String>, String>,
    ) -> Result<String, String> {
        let now = self.now();
        let answer = self.cache.store(outcome, now);
        self.guard_taken = false;
        answer
    }

    /// A whole call that no other call gets in between of
    fn get(&mut self, expiry: Option<Duration>) -> Result<String, String> {
        let mut next = self.call();
        loop {
            next = match next {
                Request::Answer(token) => return Ok(token),
                Request::TryGuard { stale } => self.try_guard(stale),
                Request::AwaitGuard => {
                    assert!(!self.guard_taken);
                    self.guard_taken = true;
                    Request::guard_awaited()
                }
                Request::Recheck => self.recheck(),
                Request::Fetch => {
                    let token = create_token("test_token", self.now, expiry);
                    return self.fetched(Ok(token));
                }
            };
        }
    }
}

fn answered(request: Request<String>) -> String {
    match request {
        Request::Answer(token) => token,
        other => panic!("not an answer: {other:?}"),
    }
}

#[test]
fn test_expired_token_is_refreshed() {
    let mut shared = Shared::new(default_cache());

    // Should fetch initial token
    let _ = shared.get(Some(Duration::from_secs(0))).unwrap();
    assert_eq!(shared.fetches, 1);

    shared.now += 2 * MILLI;

    // Token is expired, so should fetch again
    let _ = shared.get(Some(Duration::from_secs(0))).unwrap();
    assert_eq!(shared.fetches, 2);
}

#[test]
fn test_min_ttl_causes_refresh() {
    let mut shared = Shared::new(TokenCache {
        cache: None,
        min_ttl: Duration::from_secs(1),
        fetch_backoff: Duration::from_millis(1),
        stale_while_revalidate: true,
    });

    // Initial fetch
    let _ = shared.get(Some(Duration::from_millis(100))).unwrap();
    assert_eq!(shared.fetches, 1);

    // Should not fetch again since not expired and within fetch_backoff
    let _ = shared.get(Some(Duration::from_millis(100))).unwrap();
    assert_eq!(shared.fetches, 1);

    shared.now += 2 * MILLI;

    // Should fetch, since we've passed fetch_backoff
    let _ = shared.get(Some(Duration::from_millis(100))).unwrap();
    assert_eq!(shared.fetches, 2);
}

#[test]
fn test_concurrent_refresh_is_singleflight() {
    let mut shared = Shared::new(default_cache().with_stale_while_revalidate(false));

    // Both calls find nothing and wait for the guard, which the first one takes.
    assert!(matches!(shared.call(), Request::AwaitGuard));
    assert!(matches!(shared.call(), Request::AwaitGuard));
    shared.guard_taken = true;
    assert!(matches!(shared.recheck(), Request::Fetch));

    shared.now += 50 * MILLI;
    let token = create_token("fresh_token", shared.now, Some(Duration::from_secs(60)));
    assert_eq!(shared.fetched(Ok(token)).unwrap(), "fresh_token");

    // The second one then has the guard and finds the token of the first.
    shared.guard_taken = true;
    assert_eq!(answered(shared.recheck()), "fresh_token");
    assert_eq!(shared.fetches, 1);
}

#[test]
fn test_stale_while_revalidate_returns_stale_token() {
    let cache = default_cache()
        .with_fetch_backoff(Duration::from_millis(0))
        .with_stale_while_revalidate(true);
    let mut shared = Shared::new(cache);
    shared.cache.cache = Some(CacheEntry {
        token: create_token("stale_token", START, Some(Duration::from_secs(60))),
        fetched_at: instant(START - 301 * SECOND),
    });

    // The leader takes the guard and fetches.
    let stale = match shared.call() {
        Request::TryGuard { stale } => stale,
        other => panic!("the leader should try for the guard: {other:?}"),
    };
    assert!(matches!(shared.try_guard(stale), Request::Recheck));
    assert!(matches!(shared.recheck(), Request::Fetch));

    // The follower answers with the stale token.
    let stale = match shared.call() {
        Request::TryGuard { stale } => stale,
        other => panic!("stale follower should not fetch: {other:?}"),
    };
    let stale = answered(shared.try_guard(stale));
    assert_eq!(stale, "stale_token");

    let token = create_token("fresh_token", shared.now, Some(Duration::from_secs(600)));
    assert_eq!(shared.fetched(Ok(token)).unwrap(), "fresh_token");
}

#[test]
fn test_disable_stale_while_revalidate_waits_for_refresh() {
    let cache = default_cache()
        .with_fetch_backoff(Duration::from_millis(0))
        .with_stale_while_revalidate(false);
    let mut shared = Shared::new(cache);
    shared.cache.cache = Some(CacheEntry {
        token: create_token("stale_token", START, Some(Duration::from_secs(60))),
        fetched_at: instant(START - 301 * SECOND),
    });

    assert!(matches!(shared.call(), Request::AwaitGuard));
    shared.guard_taken = true;
    assert!(matches!(shared.recheck(), Request::Fetch));

    // The follower waits, and still does 20 milliseconds later.
    assert!(matches!(shared.call(), Request::AwaitGuard));
    shared.now += 20 * MILLI;
    assert!(matches!(shared.call(), Request::AwaitGuard));
    assert!(shared.guard_taken);

    let token = create_token("fresh_token", shared.now, Some(Duration::from_secs(600)));
    assert_eq!(shared.fetched(Ok(token)).unwrap(), "fresh_token");
    shared.guard_taken = true;
    assert_eq!(answered(shared.recheck()), "fresh_token");
    assert_eq!(shared.fetches, 1);
}

#[test]
fn defaults() {
    let cache = default_cache();
    assert!(cache.cache.is_none());
    assert_eq!(cache.min_ttl, Duration::from_secs(300));
    assert_eq!(cache.fetch_backoff, Duration::from_millis(100));
    assert!(cache.stale_while_revalidate);
    assert_eq!(
        STALE_WHILE_REVALIDATE_ENV_VAR,
        "OBJECT_STORE_TOKEN_CACHE_STALE_WHILE_REVALIDATE"
    );
}

#[test]
fn environment_decides_on_stale_tokens() {
    let allowed = |value: Option<&str>| {
        TokenCache::<String>::default_for_env(value).stale_while_revalidate
    };
    assert!(allowed(None));
    assert!(allowed(Some("true")));
    assert!(!allowed(Some("false")));
    assert!(allowed(Some("False")));
    assert!(allowed(Some(" false")));
    assert!(allowed(Some("0")));
    assert!(allowed(Some("")));
}

#[test]
fn builders_change_one_setting() {
    let cache = default_cache().with_min_ttl(Duration::from_secs(7));
    assert_eq!(cache.min_ttl, Duration::from_secs(7));
    assert_eq!(cache.fetch_backoff, Duration::from_millis(100));
    assert!(cache.stale_while_revalidate);

    let cache = cache.with_fetch_backoff(Duration::from_secs(8));
    assert_eq!(cache.min_ttl, Duration::from_secs(7));
    assert_eq!(cache.fetch_backoff, Duration::from_secs(8));

    let cache = cache.with_stale_while_revalidate(false);
    assert_eq!(cache.min_ttl, Duration::from_secs(7));
    assert_eq!(cache.fetch_backoff, Duration::from_secs(8));
    assert!(!cache.stale_while_revalidate);
}

#[test]
fn validity_at_its_limits() {
    let cache = default_cache();
    let entry = |left: i128, age: i128| CacheEntry {
        token: TemporaryToken { token: "t".to_string(), expiry: Some(instant(START + left)) },
        fetched_at: instant(START - age),
    };
    let valid = |e: &CacheEntry<String>| cache.is_token_valid_at(e, instant(START), instant(START));

    // More than the minimum is needed.
    assert!(!valid(&entry(300 * SECOND, 100 * MILLI)));
    assert!(valid(&entry(300 * SECOND + 1, 100 * MILLI)));

    // The back-off ends after exactly its length.
    assert!(valid(&entry(1, 100 * MILLI - 1)));
    assert!(!valid(&entry(1, 100 * MILLI)));

    // An expired token is not used, however fresh.
    assert!(!valid(&entry(0, 0)));
    assert!(!valid(&entry(-1, 0)));

    // A token from the future has no age.
    assert!(valid(&entry(1, -5 * SECOND)));
}

#[test]
fn token_without_expiry_is_always_valid() {
    let mut shared = Shared::new(default_cache());
    assert_eq!(shared.get(None).unwrap(), "test_token");
    shared.now += 1_000_000 * SECOND;
    assert_eq!(shared.get(None).unwrap(), "test_token");
    assert_eq!(shared.fetches, 1);

    // It is never stale either.
    let entry = shared.cache.cache.as_ref().unwrap();
    assert!(!shared.cache.can_use_stale_while_revalidate(entry, shared.now()));
}

#[test]
fn stale_tokens_end_with_their_expiry() {
    let cache = default_cache();
    let entry = CacheEntry {
        token: create_token("t", START, Some(Duration::from_secs(1))),
        fetched_at: instant(START - 400 * SECOND),
    };
    assert!(cache.can_use_stale_while_revalidate(&entry, instant(START + SECOND - 1)));
    assert!(!cache.can_use_stale_while_revalidate(&entry, instant(START + SECOND)));
    let cache = cache.with_stale_while_revalidate(false);
    assert!(!cache.can_use_stale_while_revalidate(&entry, instant(START)));
}

#[test]
fn expired_token_is_not_served() {
    let mut shared = Shared::new(default_cache());
    shared.cache.cache = Some(CacheEntry {
        token: create_token("expired", START, Some(Duration::from_secs(0))),
        fetched_at: instant(START),
    });
    assert!(matches!(shared.call(), Request::AwaitGuard));
    assert!(matches!(shared.recheck(), Request::Fetch));
}

#[test]
fn failed_fetch_leaves_the_cache() {
    let mut shared = Shared::new(default_cache());
    shared.cache.cache = Some(CacheEntry {
        token: create_token("old", START, Some(Duration::from_secs(60))),
        fetched_at: instant(START - 400 * SECOND),
    });
    assert!(matches!(shared.recheck(), Request::Fetch));
    assert_eq!(shared.fetched(Err("no".to_string())), Err("no".to_string()));
    let entry = shared.cache.cache.as_ref().unwrap();
    assert_eq!(entry.token.token, "old");
    assert_eq!(entry.fetched_at, instant(START - 400 * SECOND));
}

#[test]
fn stored_token_carries_the_time_of_its_fetch() {
    let mut cache = default_cache();
    let token = create_token("new", START, Some(Duration::from_secs(60)));
    let answer: Result<String, String> = cache.store(Ok(token), instant(START + 3));
    assert_eq!(answer.unwrap(), "new");
    let entry = cache.cache.as_ref().unwrap();
    assert_eq!(entry.token.token, "new");
    assert_eq!(entry.token.expiry, Some(instant(START + 60 * SECOND)));
    assert_eq!(entry.fetched_at, instant(START + 3));
}

#[test]
fn an_entry_stays_invalid() {
    let cache = default_cache();
    let entry = CacheEntry {
        token: create_token("t", START, Some(Duration::from_secs(301))),
        fetched_at: instant(START),
    };
    let valid = |after: i128| {
        cache.is_token_valid_at(&entry, instant(START + after), instant(START + after))
    };
    assert!(valid(0));
    assert!(valid(SECOND - 1));
    assert!(!valid(SECOND));
    assert!(!valid(100 * SECOND));
    assert!(!valid(400 * SECOND));
}

#[test]
fn a_higher_minimum_refreshes_earlier() {
    let entry = CacheEntry {
        token: create_token("t", START, Some(Duration::from_secs(60))),
        fetched_at: instant(START - 10 * SECOND),
    };
    let valid = |secs: u64| {
        let cache = default_cache().with_min_ttl(Duration::from_secs(secs));
        cache.is_token_valid_at(&entry, instant(START), instant(START))
    };
    assert!(valid(59));
    assert!(!valid(60));
    assert!(!valid(61));
}

#[test]
fn the_clock_measures_the_age() {
    let clock = Clock::start();
    // The entry was fetched an hour from now, so it has no age yet, and expires much later.
    let hour = 3600 * SECOND;
    let mut cache = default_cache().with_min_ttl(Duration::from_secs(1_000_000));
    cache.cache = Some(CacheEntry {
        token: create_token("t", hour, Some(Duration::from_secs(3600))),
        fetched_at: instant(hour),
    });
    let now = clock.now();
    let entry = cache.cache.as_ref().unwrap();
    assert!(cache.is_token_valid(entry, now, &clock));
    assert_eq!(answered(cache.get_or_insert_with(now, &clock)), "t");
    assert_eq!(answered(cache.refresh_and_store(now, &clock)), "t");

    // Fetched an hour ago, it is past the back-off.
    cache.cache = Some(CacheEntry {
        token: create_token("t", hour, Some(Duration::from_secs(3600))),
        fetched_at: instant(-hour),
    });
    let entry = cache.cache.as_ref().unwrap();
    assert!(!cache.is_token_valid(entry, now, &clock));
    assert!(matches!(cache.get_or_insert_with(now, &clock), Request::TryGuard { .. }));
    assert!(matches!(cache.refresh_and_store(now, &clock), Request::Fetch));
}

#[test]
fn an_empty_cache_is_filled_under_the_guard() {
    let clock = Clock::start();
    let cache = default_cache();
    assert!(matches!(cache.get_or_insert_with(clock.now(), &clock), Request::AwaitGuard));
    assert!(matches!(cache.refresh_and_store(clock.now(), &clock), Request::Fetch));
}

#[test]
fn a_call_that_waited_looks_again() {
    assert!(matches!(Request::<String>::guard_awaited(), Request::Recheck));
}

#[test]
fn a_call_fetches_once_even_for_an_expired_token() {
    let mut shared = Shared::new(default_cache());
    // The token is expired as soon as it arrives, and the call answers with it nevertheless.
    assert_eq!(shared.get(Some(Duration::from_secs(0))).unwrap(), "test_token");
    assert_eq!(shared.fetches, 1);
}
