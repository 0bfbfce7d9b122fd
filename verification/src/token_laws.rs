//! What holds of a token cache as a whole, also when many calls use it at once.

use vstd::prelude::*;

use crate::time::Instant;
use crate::token::{CacheEntry, Request, TemporaryToken, TokenCache};

verus! {

/// A token that a call answers with or may fall back on is never an expired one.
pub proof fn an_expired_token_is_never_used<T>(
    cache: TokenCache<T>,
    entry: CacheEntry<T>,
    now: Instant,
    at: Instant,
)
    requires
        cache.cache == Some(entry),
        !entry.live(now),
    ensures
        cache.first_step(now, at) == Request::<T>::AwaitGuard,
        cache.guarded_step(now, at) == Request::<T>::Fetch,
{
}

/// An entry that may no longer be used never may again, however the clock runs on.
pub proof fn an_entry_does_not_become_valid_again<T>(
    cache: TokenCache<T>,
    entry: CacheEntry<T>,
    now: Instant,
    at: Instant,
    later_now: Instant,
    later_at: Instant,
)
    requires
        now.nanos <= later_now.nanos,
        at.nanos <= later_at.nanos,
        cache.valid(entry, later_now, later_at),
    ensures
        cache.valid(entry, now, at),
{
}

/// A token that was just fetched is used for as long as the back-off lasts and it is not expired,
/// however little time it has left: it is not fetched again at once.
pub proof fn a_fresh_token_is_used_during_the_backoff<T>(
    cache: TokenCache<T>,
    fetched: TemporaryToken<T>,
    fetched_at: Instant,
    now: Instant,
    at: Instant,
)
    requires
        crate::time::nanos_since(at, fetched_at) < cache.fetch_backoff.nanos,
        (CacheEntry { token: fetched, fetched_at }).live(now),
    ensures
        cache.with_entry(fetched, fetched_at).first_step(now, at) == Request::Answer(fetched.token),
        cache.with_entry(fetched, fetched_at).guarded_step(now, at) == Request::Answer(
            fetched.token,
        ),
{
}

/// Once the back-off is over, a token that has no more than the minimum time left is due for a
/// refresh.
pub proof fn a_token_within_the_minimum_is_refreshed_after_the_backoff<T>(
    cache: TokenCache<T>,
    fetched: TemporaryToken<T>,
    fetched_at: Instant,
    now: Instant,
    at: Instant,
)
    requires
        fetched.expiry matches Some(ttl) && crate::time::nanos_since(ttl, now)
            <= cache.min_ttl.nanos,
        crate::time::nanos_since(at, fetched_at) >= cache.fetch_backoff.nanos,
    ensures
        !(cache.with_entry(fetched, fetched_at).first_step(now, at) is Answer),
        cache.with_entry(fetched, fetched_at).guarded_step(now, at) == Request::<T>::Fetch,
{
}

/// A token that does not expire is used for ever after.
pub proof fn a_token_without_expiry_is_always_used<T>(
    cache: TokenCache<T>,
    fetched: TemporaryToken<T>,
    fetched_at: Instant,
    now: Instant,
    at: Instant,
)
    requires
        fetched.expiry is None,
    ensures
        cache.with_entry(fetched, fetched_at).first_step(now, at) == Request::Answer(fetched.token),
{
}

/// While another call has the guard, a token that is due for a refresh but not expired answers
/// at once if stale tokens are allowed. If they are not, the call waits for the guard.
pub proof fn a_stale_token_answers_while_another_call_refreshes<T>(
    cache: TokenCache<T>,
    entry: CacheEntry<T>,
    now: Instant,
    at: Instant,
)
    requires
        cache.cache == Some(entry),
        entry.live(now),
        !cache.valid(entry, now, at),
    ensures
        cache.stale_while_revalidate ==> cache.first_step(now, at) == (Request::TryGuard {
            stale: entry.token.token,
        }),
        Request::tried_step(entry.token.token, false) == Request::Answer(entry.token.token),
        !cache.stale_while_revalidate ==> cache.first_step(now, at) == Request::<T>::AwaitGuard,
{
}

/// Raising the minimum time left never makes more entries usable.
pub proof fn a_higher_minimum_is_stricter<T>(
    low: TokenCache<T>,
    high: TokenCache<T>,
    entry: CacheEntry<T>,
    now: Instant,
    at: Instant,
)
    requires
        low.min_ttl.nanos <= high.min_ttl.nanos,
        low.fetch_backoff == high.fetch_backoff,
        high.valid(entry, now, at),
    ensures
        low.valid(entry, now, at),
{
}

/// Where a call for a token stands.
pub enum Phase<T> {
    /// It does next what this says
    Next(Request<T>),
    /// It has answered with this token
    Answered(T),
    /// Its fetch has failed
    Failed,
}

/// A cache that many calls use, each under a number of its own.
pub struct System<T> {
    /// The cache
    pub cache: TokenCache<T>,
    /// The call that has the refresh guard, if one has it
    pub guard: Option<nat>,
    /// Where each call stands
    pub calls: Map<nat, Phase<T>>,
}

/// Something that happens to one call.
pub enum Event<T> {
    /// The call is made at `now`
    Call { now: Instant, at: Instant },
    /// The call tries for the guard
    Try,
    /// The call, having waited, takes the guard
    Take,
    /// The call, having the guard, looks at the cache again at `now`
    Recheck { now: Instant, at: Instant },
    /// The call has fetched a token
    Fetched { token: TemporaryToken<T>, fetched_at: Instant },
    /// The call's fetch has failed
    FetchFailed,
    /// The call is given up
    Cancel,
}

/// Where a call stands after a look at the cache.
pub open spec fn phase_after<T>(request: Request<T>) -> Phase<T> {
    match request {
        Request::Answer(token) => Phase::Answered(token),
        other => Phase::Next(other),
    }
}

impl<T> System<T> {
    /// No call was made yet, whatever is cached.
    pub open spec fn initial(self) -> bool {
        &&& self.guard is None
        &&& self.calls == Map::<nat, Phase<T>>::empty()
    }

    /// The call is in the guarded part, in which it looks at the cache again and fetches.
    pub open spec fn in_guarded_part(self, id: nat) -> bool {
        self.calls.contains_key(id) && (self.calls[id] == Phase::Next(Request::<T>::Recheck)
            || self.fetching(id))
    }

    /// The call fetches a token.
    pub open spec fn fetching(self, id: nat) -> bool {
        self.calls.contains_key(id) && self.calls[id] == Phase::Next(Request::<T>::Fetch)
    }

    /// The guard once a call that has it leaves the guarded part for `phase`, or goes on in it.
    pub open spec fn guard_after(self, phase: Phase<T>) -> Option<nat> {
        if phase is Next {
            self.guard
        } else {
            None
        }
    }

    /// `event` happens to call `id` and takes the system to `post`.
    pub open spec fn step(self, id: nat, event: Event<T>, post: System<T>) -> bool {
        match event {
            Event::Call { now, at } => {
                &&& !self.calls.contains_key(id)
                &&& post == System {
                    calls: self.calls.insert(id, phase_after(self.cache.first_step(now, at))),
                    ..self
                }
            },
            Event::Try => {
                &&& self.calls.contains_key(id)
                &&& self.calls[id] matches Phase::Next(Request::TryGuard { stale })
                &&& post == System {
                    guard: if self.guard is None {
                        Some(id)
                    } else {
                        self.guard
                    },
                    calls: self.calls.insert(
                        id,
                        phase_after(Request::tried_step(stale, self.guard is None)),
                    ),
                    ..self
                }
            },
            Event::Take => {
                &&& self.calls.contains_key(id)
                &&& self.calls[id] == Phase::Next(Request::<T>::AwaitGuard)
                &&& self.guard is None
                &&& post == System {
                    guard: Some(id),
                    calls: self.calls.insert(id, Phase::Next(Request::Recheck)),
                    ..self
                }
            },
            Event::Recheck { now, at } => {
                let phase = phase_after(self.cache.guarded_step(now, at));
                &&& self.calls.contains_key(id)
                &&& self.calls[id] == Phase::Next(Request::<T>::Recheck)
                &&& post == System {
                    guard: self.guard_after(phase),
                    calls: self.calls.insert(id, phase),
                    ..self
                }
            },
            Event::Fetched { token, fetched_at } => {
                &&& self.fetching(id)
                &&& post == System {
                    cache: self.cache.with_entry(token, fetched_at),
                    guard: None,
                    calls: self.calls.insert(id, Phase::Answered(token.token)),
                }
            },
            Event::FetchFailed => {
                &&& self.fetching(id)
                &&& post == System {
                    guard: None,
                    calls: self.calls.insert(id, Phase::Failed),
                    ..self
                }
            },
            Event::Cancel => {
                &&& self.calls.contains_key(id)
                &&& post == System {
                    guard: if self.guard == Some(id) {
                        None
                    } else {
                        self.guard
                    },
                    calls: self.calls.remove(id),
                    ..self
                }
            },
        }
    }

    /// Exactly the call that has the guard is in the guarded part.
    pub open spec fn guarded(self) -> bool {
        forall|id: nat| #[trigger] self.in_guarded_part(id) <==> self.guard == Some(id)
    }
}

/// What happens, one event after the other: `events[i]` happens to the call `ids[i]` and takes
/// the system from `states[i]` to `states[i + 1]`.
pub open spec fn is_execution<T>(
    states: Seq<System<T>>,
    ids: Seq<nat>,
    events: Seq<Event<T>>,
) -> bool {
    &&& states.len() == events.len() + 1
    &&& ids.len() == events.len()
    &&& states[0].initial()
    &&& forall|i: int|
        0 <= i < events.len() ==> states[i].step(ids[i], #[trigger] events[i], states[i + 1])
}

/// Every event keeps the guard with the one call that is in the guarded part.
proof fn lemma_step_keeps_guarded<T>(pre: System<T>, id: nat, event: Event<T>, post: System<T>)
    requires
        pre.guarded(),
        pre.step(id, event, post),
    ensures
        post.guarded(),
{
    assert forall|other: nat| #[trigger]
        post.in_guarded_part(other) <==> post.guard == Some(other) by {
        assert(pre.in_guarded_part(other) <==> pre.guard == Some(other));
        assert(pre.in_guarded_part(id) <==> pre.guard == Some(id));
    }
}

/// At every moment of every execution the call that has the guard, and no other, is in the
/// guarded part.
proof fn lemma_execution_is_guarded<T>(
    states: Seq<System<T>>,
    ids: Seq<nat>,
    events: Seq<Event<T>>,
    n: int,
)
    requires
        is_execution(states, ids, events),
        0 <= n < states.len(),
    ensures
        states[n].guarded(),
    decreases n,
{
    if n > 0 {
        lemma_execution_is_guarded(states, ids, events, n - 1);
        assert(states[n - 1].step(ids[n - 1], events[n - 1], states[n - 1 + 1]));
        lemma_step_keeps_guarded(states[n - 1], ids[n - 1], events[n - 1], states[n]);
    }
}

/// However many calls there are and in whatever order they take their steps, no two of them
/// fetch a token at the same time.
pub proof fn at_most_one_call_fetches<T>(
    states: Seq<System<T>>,
    ids: Seq<nat>,
    events: Seq<Event<T>>,
    n: int,
    a: nat,
    b: nat,
)
    requires
        is_execution(states, ids, events),
        0 <= n < states.len(),
        states[n].fetching(a),
        states[n].fetching(b),
    ensures
        a == b,
{
    lemma_execution_is_guarded(states, ids, events, n);
    assert(states[n].in_guarded_part(a));
    assert(states[n].in_guarded_part(b));
}

/// No call waits for nothing: the guard is free for a waiting call to take, or another call has
/// it and is about to look at the cache again or fetches, after which it gives the guard back.
pub proof fn a_waiting_call_waits_for_a_call_that_goes_on<T>(
    states: Seq<System<T>>,
    ids: Seq<nat>,
    events: Seq<Event<T>>,
    n: int,
    id: nat,
)
    requires
        is_execution(states, ids, events),
        0 <= n < states.len(),
        states[n].calls.contains_key(id),
        states[n].calls[id] == Phase::Next(Request::<T>::AwaitGuard),
    ensures
        match states[n].guard {
            Some(other) => other != id && states[n].in_guarded_part(other),
            None => exists|post: System<T>| states[n].step(id, Event::Take, post),
        },
{
    lemma_execution_is_guarded(states, ids, events, n);
    match states[n].guard {
        Some(other) => {
            assert(states[n].in_guarded_part(other));
        },
        None => {
            let post = System {
                guard: Some(id),
                calls: states[n].calls.insert(id, Phase::Next(Request::Recheck)),
                ..states[n]
            };
            assert(states[n].step(id, Event::Take, post));
        },
    }
}

/// While a call fetches, a call made at that moment with a usable stale token answers with it as
/// soon as it tries for the guard, and changes neither the cache nor the guard.
pub proof fn a_stale_call_does_not_wait_for_the_fetch<T>(
    states: Seq<System<T>>,
    ids: Seq<nat>,
    events: Seq<Event<T>>,
    n: int,
    leader: nat,
    stale: T,
)
    requires
        is_execution(states, ids, events),
        0 <= n < events.len(),
        states[n].fetching(leader),
        events[n] is Try,
        states[n].calls[ids[n]] == Phase::Next(Request::TryGuard { stale }),
    ensures
        states[n + 1].calls[ids[n]] == Phase::Answered(stale),
        states[n + 1].cache == states[n].cache,
        states[n + 1].guard == states[n].guard,
        states[n + 1].fetching(leader),
{
    lemma_execution_is_guarded(states, ids, events, n);
    assert(states[n].in_guarded_part(leader));
    assert(states[n].step(ids[n], events[n], states[n + 1]));
}

/// Every token that the execution fetches may be used up to the moment `horizon`.
pub open spec fn fetches_last_until<T>(
    cache: TokenCache<T>,
    events: Seq<Event<T>>,
    horizon: Instant,
) -> bool {
    forall|i: int|
        0 <= i < events.len() ==> ((#[trigger] events[i]) matches Event::Fetched {
            token,
            fetched_at,
        } ==> cache.valid(CacheEntry { token, fetched_at }, horizon, horizon))
}

/// No call that has the guard looks at the cache after `horizon`.
pub open spec fn looks_until<T>(events: Seq<Event<T>>, horizon: Instant) -> bool {
    forall|i: int|
        0 <= i < events.len() ==> ((#[trigger] events[i]) matches Event::Recheck { now, at }
            ==> now.nanos <= horizon.nanos && at.nanos <= horizon.nanos)
}

/// How many fetches of the execution gave a token.
pub open spec fn fetch_count<T>(events: Seq<Event<T>>) -> nat
    decreases events.len(),
{
    if events.len() == 0 {
        0
    } else {
        fetch_count(events.drop_last()) + (if events.last() is Fetched {
            1nat
        } else {
            0
        })
    }
}

/// At most one token was fetched, and once one was, it may be used and no call fetches.
proof fn lemma_one_fetch_prefix<T>(
    states: Seq<System<T>>,
    ids: Seq<nat>,
    events: Seq<Event<T>>,
    horizon: Instant,
    n: int,
)
    requires
        is_execution(states, ids, events),
        fetches_last_until(states[0].cache, events, horizon),
        looks_until(events, horizon),
        0 <= n < states.len(),
    ensures
        states[n].cache == (TokenCache { cache: states[n].cache.cache, ..states[0].cache }),
        fetch_count(events.take(n)) <= 1,
        fetch_count(events.take(n)) == 1 ==> {
            &&& states[n].cache.cache matches Some(entry) && states[n].cache.valid(
                entry,
                horizon,
                horizon,
            )
            &&& forall|id: nat| !#[trigger] states[n].fetching(id)
        },
    decreases n,
{
    if n == 0 {
        assert(events.take(0).len() == 0);
    } else {
        lemma_one_fetch_prefix(states, ids, events, horizon, n - 1);
        lemma_execution_is_guarded(states, ids, events, n - 1);
        lemma_execution_is_guarded(states, ids, events, n);
        let pre = states[n - 1];
        let post = states[n];
        let event = events[n - 1];
        assert(pre.step(ids[n - 1], event, states[n - 1 + 1]));
        assert(events.take(n).drop_last() =~= events.take(n - 1));
        assert(events.take(n).last() == event);
        if fetch_count(events.take(n)) == 1 {
            assert forall|id: nat| !#[trigger] post.fetching(id) by {
                assert(pre.fetching(id) ==> pre.in_guarded_part(id));
                assert(pre.in_guarded_part(id) <==> pre.guard == Some(id));
                assert(post.fetching(id) ==> post.in_guarded_part(id));
                assert(post.in_guarded_part(id) <==> post.guard == Some(id));
            }
        }
    }
}

/// If the tokens that are fetched last for as long as the cache is looked at, one fetch serves
/// all calls: however many there are and in whatever order they take their steps, at most one of
/// them gets its token by a fetch, and once one has, none fetches.
pub proof fn one_fetch_serves_all_calls<T>(
    states: Seq<System<T>>,
    ids: Seq<nat>,
    events: Seq<Event<T>>,
    horizon: Instant,
)
    requires
        is_execution(states, ids, events),
        fetches_last_until(states[0].cache, events, horizon),
        looks_until(events, horizon),
    ensures
        fetch_count(events) <= 1,
        fetch_count(events) == 1 ==> forall|id: nat| !#[trigger] states.last().fetching(id),
{
    let n = events.len() as int;
    lemma_one_fetch_prefix(states, ids, events, horizon, n);
    assert(events.take(n) =~= events);
}

/// A call that has waited for the guard while another call fetched a token that lasts answers
/// with that token when it looks at the cache again, and does not fetch.
pub proof fn a_waiting_call_answers_with_the_fetched_token<T>(
    states: Seq<System<T>>,
    ids: Seq<nat>,
    events: Seq<Event<T>>,
    horizon: Instant,
    n: int,
    entry: CacheEntry<T>,
)
    requires
        is_execution(states, ids, events),
        fetches_last_until(states[0].cache, events, horizon),
        looks_until(events, horizon),
        0 <= n < events.len(),
        fetch_count(events.take(n)) > 0,
        events[n] is Recheck,
        states[n].cache.cache == Some(entry),
    ensures
        states[n + 1].calls[ids[n]] == Phase::Answered(entry.token.token),
        states[n + 1].cache == states[n].cache,
        states[n + 1].guard is None,
{
    lemma_one_fetch_prefix(states, ids, events, horizon, n);
    assert(states[n].step(ids[n], events[n], states[n + 1]));
}

/// `id` begins to fetch at position `i` of the execution.
pub open spec fn begins_fetch<T>(
    states: Seq<System<T>>,
    ids: Seq<nat>,
    i: int,
    id: nat,
) -> bool {
    ids[i] == id && !states[i].fetching(id) && states[i + 1].fetching(id)
}

/// The call `id` is given up at position `k` of the execution.
pub open spec fn is_given_up<T>(ids: Seq<nat>, events: Seq<Event<T>>, k: int, id: nat) -> bool {
    ids[k] == id && events[k] is Cancel
}

/// From the moment at which a call fetches until it is given up, it fetches or has ended.
proof fn lemma_a_fetch_is_the_last_step<T>(
    states: Seq<System<T>>,
    ids: Seq<nat>,
    events: Seq<Event<T>>,
    i: int,
    m: int,
    id: nat,
)
    requires
        is_execution(states, ids, events),
        0 <= i < m < states.len(),
        begins_fetch(states, ids, i, id),
        forall|k: int| i < k < m ==> !#[trigger] is_given_up(ids, events, k, id),
    ensures
        states[m].calls.contains_key(id),
        states[m].fetching(id) || states[m].calls[id] !is Next,
    decreases m,
{
    if m > i + 1 {
        lemma_a_fetch_is_the_last_step(states, ids, events, i, m - 1, id);
        assert(!is_given_up(ids, events, m - 1, id));
        assert(states[m - 1].step(ids[m - 1], events[m - 1], states[m - 1 + 1]));
    }
}

/// A call fetches at most once: where one number begins to fetch twice, its call was given up in
/// between, and the second fetch is that of a new call.
pub proof fn a_call_fetches_at_most_once<T>(
    states: Seq<System<T>>,
    ids: Seq<nat>,
    events: Seq<Event<T>>,
    i: int,
    j: int,
    id: nat,
)
    requires
        is_execution(states, ids, events),
        0 <= i < j < events.len(),
        begins_fetch(states, ids, i, id),
        begins_fetch(states, ids, j, id),
    ensures
        exists|k: int| i < k < j && #[trigger] is_given_up(ids, events, k, id),
{
    if forall|k: int| i < k < j ==> !#[trigger] is_given_up(ids, events, k, id) {
        lemma_a_fetch_is_the_last_step(states, ids, events, i, j, id);
        assert(states[j].step(ids[j], events[j], states[j + 1]));
        assert(false);
    }
}


/// A token is live up to its expiry, and for ever without one.
pub proof fn a_token_is_live_until_its_expiry<T>(entry: CacheEntry<T>, now: Instant)
    ensures
        entry.token.expiry is None ==> entry.live(now),
        entry.token.expiry matches Some(ttl) ==> (entry.live(now) <==> now.nanos < ttl.nanos),
{
}

/// Putting a token into the cache replaces what was there, and changes no setting.
pub proof fn storing_replaces_only_the_entry<T>(
    cache: TokenCache<T>,
    fetched: TemporaryToken<T>,
    fetched_at: Instant,
)
    ensures
        ({
            let after = cache.with_entry(fetched, fetched_at);
            &&& after.cache is Some
            &&& after.cache->0.token == fetched
            &&& after.cache->0.fetched_at == fetched_at
            &&& after.min_ttl == cache.min_ttl
            &&& after.fetch_backoff == cache.fetch_backoff
            &&& after.stale_while_revalidate == cache.stale_while_revalidate
        }),
{
}

/// A token that has more than the minimum time left is used whatever its age is, and wherever the
/// call stands.
pub proof fn a_token_with_time_left_is_used_whatever_its_age<T>(
    cache: TokenCache<T>,
    fetched: TemporaryToken<T>,
    fetched_at: Instant,
    now: Instant,
    at: Instant,
)
    requires
        fetched.expiry matches Some(ttl) && ttl.nanos - now.nanos > cache.min_ttl.nanos,
    ensures
        cache.with_entry(fetched, fetched_at).first_step(now, at) == Request::Answer(fetched.token),
        cache.with_entry(fetched, fetched_at).guarded_step(now, at) == Request::Answer(
            fetched.token,
        ),
{
}

/// A token that at `now` has no more than the minimum time left and was fetched longer ago than
/// the back-off is due for a refresh, whenever from then on its age is measured: the call does not
/// answer with it, and fetches one once it has the guard.
pub proof fn a_due_token_is_refreshed_whenever_its_age_is_measured<T>(
    cache: TokenCache<T>,
    fetched: TemporaryToken<T>,
    fetched_at: Instant,
    now: Instant,
    at: Instant,
)
    requires
        fetched.expiry matches Some(ttl) && ttl.nanos - now.nanos <= cache.min_ttl.nanos,
        fetched_at.nanos + cache.fetch_backoff.nanos <= now.nanos,
        now.nanos <= at.nanos,
    ensures
        ({
            let first = cache.with_entry(fetched, fetched_at).first_step(now, at);
            let ttl = fetched.expiry->0;
            &&& cache.stale_while_revalidate && now.nanos < ttl.nanos ==> first
                == (Request::TryGuard { stale: fetched.token })
            &&& !cache.stale_while_revalidate || ttl.nanos <= now.nanos ==> first
                == Request::<T>::AwaitGuard
            &&& cache.with_entry(fetched, fetched_at).guarded_step(now, at) == Request::<T>::Fetch
        }),
{
}

/// A token that was fetched less than the back-off ago and is not expired answers, whatever the
/// minimum time is.
pub proof fn a_token_just_fetched_answers_whatever_the_minimum<T>(
    cache: TokenCache<T>,
    fetched: TemporaryToken<T>,
    fetched_at: Instant,
    now: Instant,
    at: Instant,
)
    requires
        fetched.expiry matches Some(ttl) ==> now.nanos < ttl.nanos,
        fetched_at.nanos <= at.nanos,
        at.nanos < fetched_at.nanos + cache.fetch_backoff.nanos,
    ensures
        cache.with_entry(fetched, fetched_at).first_step(now, at) == Request::Answer(fetched.token),
        cache.with_entry(fetched, fetched_at).guarded_step(now, at) == Request::Answer(
            fetched.token,
        ),
{
}

/// A call answers with a cached token exactly if the token does not expire, or has more than the
/// minimum time left, or is not expired and was fetched less than the back-off ago. It does so
/// with the guard exactly if it does so without.
pub proof fn a_cached_token_answers_exactly_then<T>(
    cache: TokenCache<T>,
    entry: CacheEntry<T>,
    now: Instant,
    at: Instant,
)
    requires
        cache.cache == Some(entry),
    ensures
        cache.first_step(now, at) is Answer <==> cache.guarded_step(now, at) is Answer,
        entry.token.expiry is None ==> cache.first_step(now, at) is Answer,
        entry.token.expiry matches Some(ttl) ==> (cache.first_step(now, at) is Answer <==> {
            ||| ttl.nanos > now.nanos + cache.min_ttl.nanos
            ||| ttl.nanos > now.nanos && cache.fetch_backoff.nanos > 0 && at.nanos
                < entry.fetched_at.nanos + cache.fetch_backoff.nanos
        }),
        cache.valid(entry, now, at) <==> cache.first_step(now, at) is Answer,
{
}

/// A call answers with no other token than the cached one, and falls back on no other.
pub proof fn no_other_token_is_handed_out<T>(cache: TokenCache<T>, now: Instant, at: Instant)
    ensures
        cache.first_step(now, at) matches Request::Answer(token) ==> cache.cache is Some && token
            == cache.cache->0.token.token,
        cache.guarded_step(now, at) matches Request::Answer(token) ==> cache.cache is Some && token
            == cache.cache->0.token.token,
        cache.first_step(now, at) matches Request::TryGuard { stale } ==> cache.cache is Some
            && stale == cache.cache->0.token.token,
{
}

/// With nothing cached, a call waits for the guard, and fetches a token once it has it.
pub proof fn an_empty_cache_is_filled<T>(cache: TokenCache<T>, now: Instant, at: Instant)
    requires
        cache.cache is None,
    ensures
        cache.first_step(now, at) == Request::<T>::AwaitGuard,
        cache.guarded_step(now, at) == Request::<T>::Fetch,
{
}

/// Only the spans between instants matter: moving all of them by the same span changes nothing.
pub proof fn only_spans_of_time_matter<T>(
    cache: TokenCache<T>,
    token: T,
    ttl: Instant,
    fetched_at: Instant,
    now: Instant,
    at: Instant,
    moved_ttl: Instant,
    moved_fetched_at: Instant,
    moved_now: Instant,
    moved_at: Instant,
)
    requires
        moved_ttl.nanos - ttl.nanos == moved_now.nanos - now.nanos,
        moved_fetched_at.nanos - fetched_at.nanos == moved_now.nanos - now.nanos,
        moved_at.nanos - at.nanos == moved_now.nanos - now.nanos,
    ensures
        ({
            let here = cache.with_entry(TemporaryToken { token, expiry: Some(ttl) }, fetched_at);
            let moved = cache.with_entry(
                TemporaryToken { token, expiry: Some(moved_ttl) },
                moved_fetched_at,
            );
            &&& here.first_step(now, at) == moved.first_step(moved_now, moved_at)
            &&& here.guarded_step(now, at) == moved.guarded_step(moved_now, moved_at)
        }),
{
}

/// A call that tried for the guard looks at the cache again if it got it, and answers with its
/// own stale token if it did not.
pub proof fn a_try_for_the_guard_decides<T>(stale: T)
    ensures
        Request::tried_step(stale, true) == Request::<T>::Recheck,
        Request::tried_step(stale, false) == Request::Answer(stale),
{
}

/// A copy of what to do next is the same thing to do, with a copy of the token in it.
pub proof fn a_copy_differs_in_its_token_only<T: Clone>(expected: Request<T>, r: Request<T>)
    requires
        crate::token::copies(expected, r),
    ensures
        expected is Answer <==> r is Answer,
        expected is TryGuard <==> r is TryGuard,
        expected is AwaitGuard <==> r is AwaitGuard,
        expected is Recheck <==> r is Recheck,
        expected is Fetch <==> r is Fetch,
        expected matches Request::Answer(token) ==> cloned(token, r->Answer_0),
        expected matches Request::TryGuard { stale } ==> cloned(stale, r->TryGuard_stale),
{
}

/// Stale tokens are allowed unless the environment says `false`, in just these letters.
pub proof fn stale_tokens_are_allowed_unless_refused(env_value: Option<&str>)
    ensures
        !crate::token::stale_allowed(env_value) <==> env_value is Some && env_value->0@
            == "false"@,
{
    reveal_strlit("true");
    reveal_strlit("false");
    assert("true"@.len() != "false"@.len());
}

} // verus!
