//! Caching a temporary token based on its expiry.
//!
//! A call for a token looks at the cache ([`TokenCache::get_or_insert_with`]). Where the cached
//! token will not do, the call takes the refresh guard, of which there is one, looks again
//! ([`TokenCache::refresh_and_store`]) and, if need be, fetches a token and puts it into the
//! cache ([`TokenCache::store`]). Taking the guard and fetching are up to the caller of these
//! functions; what to do next is in the [`Request`] that they give back.

use vstd::prelude::*;

use crate::text::same;
use crate::time::{Clock, Duration, Instant};

verus! {

/// The environment variable that says whether calls may use a token that is due for a refresh
/// while another call refreshes it.
pub const STALE_WHILE_REVALIDATE_ENV_VAR: &'static str = "OBJECT_STORE_TOKEN_CACHE_STALE_WHILE_REVALIDATE";

/// A temporary authentication token with an associated expiry.
#[derive(Debug)]
pub struct TemporaryToken<T> {
    /// The temporary credential
    pub token: T,
    /// The instant at which this credential is no longer valid.
    /// None means the credential does not expire
    pub expiry: Option<Instant>,
}

/// A token in the cache.
#[derive(Debug)]
pub struct CacheEntry<T> {
    /// The token
    pub token: TemporaryToken<T>,
    /// When the token was fetched
    pub fetched_at: Instant,
}

/// A cache of one token.
#[derive(Debug)]
pub struct TokenCache<T> {
    /// The cached token, if there is one
    pub cache: Option<CacheEntry<T>>,
    /// The remaining time that a cached token must exceed to be used without further ado
    pub min_ttl: Duration,
    /// How long to wait before another fetch after one that gave a token which is already within
    /// the minimum remaining time
    pub fetch_backoff: Duration,
    /// Whether calls may use a token that is due for a refresh while another call refreshes it
    pub stale_while_revalidate: bool,
}

/// What a call for a token does next.
#[derive(Debug)]
pub enum Request<T> {
    /// Answer with this token
    Answer(T),
    /// Take the refresh guard if it is free
    TryGuard {
        /// The token to answer with if the guard is taken
        stale: T,
    },
    /// Wait for the refresh guard
    AwaitGuard,
    /// With the guard, look at the cache again
    Recheck,
    /// With the guard, fetch a token
    Fetch,
}

impl<T> CacheEntry<T> {
    /// The token is not expired at `now`.
    pub open spec fn live(self, now: Instant) -> bool {
        match self.token.expiry {
            Some(ttl) => ttl.nanos > now.nanos,
            None => true,
        }
    }
}

/// What the text of a truth value means, `None` for any other text.
pub open spec fn parsed_bool(text: Seq<char>) -> Option<bool> {
    if text == "true"@ {
        Some(true)
    } else if text == "false"@ {
        Some(false)
    } else {
        None
    }
}

/// What the text of a truth value means, `None` for any other text.
fn parse_bool(text: &str) -> (r: Option<bool>)
    ensures
        r == parsed_bool(text@),
{
    if same(text, "true") {
        Some(true)
    } else if same(text, "false") {
        Some(false)
    } else {
        None
    }
}

/// What the environment variable says of the use of stale tokens. They may be used unless it
/// says no.
pub open spec fn stale_allowed(env_value: Option<&str>) -> bool {
    match env_value {
        Some(text) => match parsed_bool(text@) {
            Some(b) => b,
            None => true,
        },
        None => true,
    }
}

impl<T> TokenCache<T> {
    /// The entry may be used for a call made at `now`, where `at` is the moment at which its age
    /// is measured: its token does not expire, or has more than the minimum time left, or was
    /// fetched a moment ago and is not expired.
    pub open spec fn valid(self, entry: CacheEntry<T>, now: Instant, at: Instant) -> bool {
        match entry.token.expiry {
            None => true,
            Some(ttl) => {
                ||| crate::time::nanos_since(ttl, now) > self.min_ttl.nanos
                ||| crate::time::nanos_since(at, entry.fetched_at) < self.fetch_backoff.nanos
                    && ttl.nanos > now.nanos
            },
        }
    }

    /// The entry may be used at `now` while another call refreshes it: stale tokens are allowed,
    /// and its token expires, but has not yet.
    pub open spec fn stale_usable(self, entry: CacheEntry<T>, now: Instant) -> bool {
        self.stale_while_revalidate && entry.token.expiry is Some && entry.live(now)
    }

    /// What a call made at `now` does first.
    pub open spec fn first_step(self, now: Instant, at: Instant) -> Request<T> {
        match self.cache {
            Some(entry) => if self.valid(entry, now, at) {
                Request::Answer(entry.token.token)
            } else if self.stale_usable(entry, now) {
                Request::TryGuard { stale: entry.token.token }
            } else {
                Request::AwaitGuard
            },
            None => Request::AwaitGuard,
        }
    }

    /// What a call does that has the guard and looks at the cache again at `now`.
    pub open spec fn guarded_step(self, now: Instant, at: Instant) -> Request<T> {
        match self.cache {
            Some(entry) => if self.valid(entry, now, at) {
                Request::Answer(entry.token.token)
            } else {
                Request::Fetch
            },
            None => Request::Fetch,
        }
    }

    /// The cache once `fetched` is put into it.
    pub open spec fn with_entry(self, fetched: TemporaryToken<T>, fetched_at: Instant) -> Self {
        TokenCache { cache: Some(CacheEntry { token: fetched, fetched_at }), ..self }
    }
}

/// `r` is `expected`, up to a copy of the token in it.
pub open spec fn copies<T: Clone>(expected: Request<T>, r: Request<T>) -> bool {
    match expected {
        Request::Answer(token) => r matches Request::Answer(copy) && cloned(token, copy),
        Request::TryGuard { stale } => r matches Request::TryGuard { stale: copy } && cloned(
            stale,
            copy,
        ),
        Request::AwaitGuard => r is AwaitGuard,
        Request::Recheck => r is Recheck,
        Request::Fetch => r is Fetch,
    }
}

impl<T> TokenCache<T> {
    /// An empty cache with the default settings, where `env_value` is the value of the
    /// environment variable [`STALE_WHILE_REVALIDATE_ENV_VAR`], if it has one.
    pub fn default_for_env(env_value: Option<&str>) -> (r: Self)
        ensures
            r.cache is None,
            r.min_ttl.nanos == 300 * 1_000_000_000,
            r.fetch_backoff.nanos == 100 * 1_000_000,
            r.stale_while_revalidate == stale_allowed(env_value),
            !r.stale_while_revalidate <==> env_value is Some && env_value->0@ == "false"@,
    {
        proof {
            reveal_strlit("true");
            reveal_strlit("false");
            assert("true"@.len() != "false"@.len());
        }
        let stale_while_revalidate = match env_value {
            Some(text) => match parse_bool(text) {
                Some(b) => b,
                None => true,
            },
            None => true,
        };
        TokenCache {
            cache: None,
            min_ttl: Duration::from_secs(300),
            fetch_backoff: Duration::from_millis(100),
            stale_while_revalidate,
        }
    }

    /// Override the minimum remaining TTL for a cached token to be used.
    pub fn with_min_ttl(self, min_ttl: Duration) -> (r: Self)
        ensures
            r == (TokenCache { min_ttl, ..self }),
    {
        TokenCache { min_ttl, ..self }
    }

    /// Override whether calls may use a token that is due for a refresh while another call
    /// refreshes it.
    pub fn with_stale_while_revalidate(self, stale_while_revalidate: bool) -> (r: Self)
        ensures
            r == (TokenCache { stale_while_revalidate, ..self }),
    {
        TokenCache { stale_while_revalidate, ..self }
    }

    /// Override how long to wait before another fetch.
    pub fn with_fetch_backoff(self, fetch_backoff: Duration) -> (r: Self)
        ensures
            r == (TokenCache { fetch_backoff, ..self }),
    {
        TokenCache { fetch_backoff, ..self }
    }

    /// Whether the entry may be used for a call made at `now`, its age measured at `at`.
    pub fn is_token_valid_at(&self, entry: &CacheEntry<T>, now: Instant, at: Instant) -> (r: bool)
        ensures
            r == self.valid(*entry, now, at),
            entry.token.expiry is None ==> r,
            entry.token.expiry matches Some(ttl) ==> (r <==> {
                ||| ttl.nanos - now.nanos > self.min_ttl.nanos
                ||| ttl.nanos > now.nanos && self.fetch_backoff.nanos > 0 && at.nanos
                    - entry.fetched_at.nanos < self.fetch_backoff.nanos
            }),
    {
        match entry.token.expiry {
            None => true,
            Some(ttl) => {
                ttl.duration_since(now).nanos > self.min_ttl.nanos || (at.duration_since(
                    entry.fetched_at,
                ).nanos < self.fetch_backoff.nanos && ttl.nanos > now.nanos)
            },
        }
    }

    /// Whether the entry may be used for a call made at `now`, its age measured by the clock. The
    /// clock does not run backwards, so a reading that is taken now is not before `now`, where
    /// that was read from it earlier.
    pub fn is_token_valid(&self, entry: &CacheEntry<T>, now: Instant, clock: &Clock) -> (r: bool)
        ensures
            exists|at: Instant| at.nanos >= 0 && r == #[trigger] self.valid(*entry, now, at),
            exists|reading: Instant, at: Instant| #[trigger]
                call_ensures(Clock::now, (clock,), reading) && at.nanos == (if reading.nanos
                    > now.nanos {
                    reading.nanos
                } else {
                    now.nanos
                }) && r == #[trigger] self.valid(*entry, now, at),
            entry.token.expiry is None ==> r,
            entry.token.expiry matches Some(ttl) ==> {
                &&& ttl.nanos - now.nanos > self.min_ttl.nanos ==> r
                &&& ttl.nanos <= now.nanos ==> !r
                &&& ttl.nanos - now.nanos <= self.min_ttl.nanos && now.nanos
                    - entry.fetched_at.nanos >= self.fetch_backoff.nanos ==> !r
            },
    {
        let reading = clock.now();
        let at = if reading.nanos > now.nanos {
            reading
        } else {
            now
        };
        self.is_token_valid_at(entry, now, at)
    }

    /// Whether the entry may be used at `now` while another call refreshes it.
    pub fn can_use_stale_while_revalidate(&self, entry: &CacheEntry<T>, now: Instant) -> (r: bool)
        ensures
            r == self.stale_usable(*entry, now),
            r ==> self.stale_while_revalidate && entry.token.expiry is Some,
            self.stale_while_revalidate ==> (entry.token.expiry matches Some(ttl) ==> (r
                <==> ttl.nanos > now.nanos)),
    {
        self.stale_while_revalidate && match entry.token.expiry {
            Some(ttl) => ttl.nanos > now.nanos,
            None => false,
        }
    }
}

impl<T: Clone> TokenCache<T> {
    /// What a call made at `now` does first, the age of the cached token measured at `at`.
    pub fn first_step_at(&self, now: Instant, at: Instant) -> (r: Request<T>)
        ensures
            copies(self.first_step(now, at), r),
            self.cache is None ==> r is AwaitGuard,
            self.cache matches Some(entry) ==> (entry.token.expiry is None ==> (r matches
                Request::Answer(copy) && cloned(entry.token.token, copy))),
            self.cache matches Some(entry) ==> (entry.token.expiry matches Some(ttl) ==> {
                let enough = ttl.nanos - now.nanos > self.min_ttl.nanos;
                let fresh = ttl.nanos > now.nanos && self.fetch_backoff.nanos > 0 && at.nanos
                    - entry.fetched_at.nanos < self.fetch_backoff.nanos;
                let stale_allowed = self.stale_while_revalidate && ttl.nanos > now.nanos;
                &&& enough || fresh ==> (r matches Request::Answer(copy) && cloned(
                    entry.token.token,
                    copy,
                ))
                &&& !enough && !fresh && stale_allowed ==> (r matches Request::TryGuard {
                    stale,
                } && cloned(entry.token.token, stale))
                &&& !enough && !fresh && !stale_allowed ==> r is AwaitGuard
            }),
    {
        if let Some(entry) = &self.cache {
            if self.is_token_valid_at(entry, now, at) {
                return Request::Answer(entry.token.token.clone());
            }
            if self.can_use_stale_while_revalidate(entry, now) {
                return Request::TryGuard { stale: entry.token.token.clone() };
            }
        }
        Request::AwaitGuard
    }

    /// What a call made at `now` does first, the age of the cached token measured by the clock.
    /// The clock does not run backwards, so a reading that is taken now is not before `now`, where
    /// that was read from it earlier.
    pub fn get_or_insert_with(&self, now: Instant, clock: &Clock) -> (r: Request<T>)
        ensures
            exists|at: Instant| at.nanos >= 0 && copies(#[trigger] self.first_step(now, at), r),
            exists|reading: Instant, at: Instant| #[trigger]
                call_ensures(Clock::now, (clock,), reading) && at.nanos == (if reading.nanos
                    > now.nanos {
                    reading.nanos
                } else {
                    now.nanos
                }) && copies(#[trigger] self.first_step(now, at), r),
            self.cache is None ==> r is AwaitGuard,
            self.cache matches Some(entry) ==> (entry.token.expiry is None ==> (r matches
                Request::Answer(copy) && cloned(entry.token.token, copy))),
            self.cache matches Some(entry) ==> (entry.token.expiry matches Some(ttl) ==> {
                let due = ttl.nanos - now.nanos <= self.min_ttl.nanos && now.nanos
                    - entry.fetched_at.nanos >= self.fetch_backoff.nanos;
                let stale_allowed = self.stale_while_revalidate && ttl.nanos > now.nanos;
                &&& ttl.nanos - now.nanos > self.min_ttl.nanos ==> (r matches Request::Answer(copy)
                    && cloned(entry.token.token, copy))
                &&& ttl.nanos <= now.nanos ==> r is AwaitGuard
                &&& due && stale_allowed ==> (r matches Request::TryGuard { stale } && cloned(
                    entry.token.token,
                    stale,
                ))
                &&& due && !stale_allowed ==> r is AwaitGuard
                &&& r matches Request::Answer(copy) ==> cloned(entry.token.token, copy)
            }),
    {
        let reading = clock.now();
        let at = if reading.nanos > now.nanos {
            reading
        } else {
            now
        };
        self.first_step_at(now, at)
    }

    /// What a call does that has the guard and looks at the cache again at `now`, the age of the
    /// cached token measured at `at`.
    pub fn guarded_step_at(&self, now: Instant, at: Instant) -> (r: Request<T>)
        ensures
            copies(self.guarded_step(now, at), r),
            self.cache is None ==> r is Fetch,
            self.cache matches Some(entry) ==> (entry.token.expiry is None ==> (r matches
                Request::Answer(copy) && cloned(entry.token.token, copy))),
            self.cache matches Some(entry) ==> (entry.token.expiry matches Some(ttl) ==> {
                let enough = ttl.nanos - now.nanos > self.min_ttl.nanos;
                let fresh = ttl.nanos > now.nanos && self.fetch_backoff.nanos > 0 && at.nanos
                    - entry.fetched_at.nanos < self.fetch_backoff.nanos;
                &&& enough || fresh ==> (r matches Request::Answer(copy) && cloned(
                    entry.token.token,
                    copy,
                ))
                &&& !enough && !fresh ==> r is Fetch
            }),
    {
        if let Some(entry) = &self.cache {
            if self.is_token_valid_at(entry, now, at) {
                return Request::Answer(entry.token.token.clone());
            }
        }
        Request::Fetch
    }

    /// What a call does that has the guard and looks at the cache again at `now`, the age of the
    /// cached token measured by the clock. The clock does not run backwards, so a reading that is
    /// taken now is not before `now`, where that was read from it earlier.
    pub fn refresh_and_store(&self, now: Instant, clock: &Clock) -> (r: Request<T>)
        ensures
            exists|at: Instant| at.nanos >= 0 && copies(#[trigger] self.guarded_step(now, at), r),
            exists|reading: Instant, at: Instant| #[trigger]
                call_ensures(Clock::now, (clock,), reading) && at.nanos == (if reading.nanos
                    > now.nanos {
                    reading.nanos
                } else {
                    now.nanos
                }) && copies(#[trigger] self.guarded_step(now, at), r),
            self.cache is None ==> r is Fetch,
            self.cache matches Some(entry) ==> (entry.token.expiry is None ==> (r matches
                Request::Answer(copy) && cloned(entry.token.token, copy))),
            self.cache matches Some(entry) ==> (entry.token.expiry matches Some(ttl) ==> {
                let due = ttl.nanos - now.nanos <= self.min_ttl.nanos && now.nanos
                    - entry.fetched_at.nanos >= self.fetch_backoff.nanos;
                &&& ttl.nanos - now.nanos > self.min_ttl.nanos ==> (r matches Request::Answer(copy)
                    && cloned(entry.token.token, copy))
                &&& ttl.nanos <= now.nanos || due ==> r is Fetch
                &&& r matches Request::Answer(copy) ==> cloned(entry.token.token, copy)
            }),
    {
        let reading = clock.now();
        let at = if reading.nanos > now.nanos {
            reading
        } else {
            now
        };
        self.guarded_step_at(now, at)
    }

    /// The fetch has ended at `fetched_at`. A token goes into the cache, and the call answers
    /// with it; a failure is the call's own, and the cache stays as it is.
    pub fn store<E>(
        &mut self,
        fetched: Result<TemporaryToken<T>, E>,
        fetched_at: Instant,
    ) -> (r: Result<T, E>)
        ensures
            match fetched {
                Ok(token) => {
                    &&& *final(self) == old(self).with_entry(token, fetched_at)
                    &&& r matches Ok(copy) && cloned(token.token, copy)
                },
                Err(e) => *final(self) == *old(self) && r == Err::<T, E>(e),
            },
            fetched matches Ok(token) ==> final(self).cache == Some(
                CacheEntry { token, fetched_at },
            ),
            final(self).min_ttl == old(self).min_ttl,
            final(self).fetch_backoff == old(self).fetch_backoff,
            final(self).stale_while_revalidate == old(self).stale_while_revalidate,
    {
        match fetched {
            Ok(token) => {
                let copy = token.token.clone();
                self.cache = Some(CacheEntry { token, fetched_at });
                Ok(copy)
            },
            Err(e) => Err(e),
        }
    }
}

impl<T> Request<T> {
    /// What a call does that tried to take the guard, having `stale` to fall back on.
    pub open spec fn tried_step(stale: T, acquired: bool) -> Request<T> {
        if acquired {
            Request::Recheck
        } else {
            Request::Answer(stale)
        }
    }

    /// The guard was tried for. If it was taken by another call, which refreshes the token, the
    /// stale token answers this call.
    pub fn guard_tried(stale: T, acquired: bool) -> (r: Request<T>)
        ensures
            r == Request::tried_step(stale, acquired),
            acquired ==> r is Recheck,
            !acquired ==> r == Request::Answer(stale),
    {
        if acquired {
            Request::Recheck
        } else {
            Request::Answer(stale)
        }
    }

    /// The guard was waited for, and the call has it: another call may have refreshed the token
    /// meanwhile, so this one looks at the cache again.
    pub fn guard_awaited() -> (r: Request<T>)
        ensures
            r == Request::<T>::Recheck,
    {
        Request::Recheck
    }
}

} // verus!
