//! Resolving a host to its addresses in random order.

use vstd::prelude::*;

use rand::seq::SliceRandom;

use crate::error::Described;
use crate::time::Instant;

verus! {

/// A lookup that takes this many milliseconds is worth a warning.
pub const SLOW_DNS_RESOLVE_LOG_THRESHOLD_MS: u128 = 500;

/// The port that stands in the addresses of a lookup; a connection puts its own there.
pub const LOOKUP_PORT: u16 = 0;

/// Resolves a host to its addresses in random order, so that connections spread over them.
#[derive(Clone, Copy, Debug)]
pub struct ShuffleResolver;

/// Why a host could not be resolved.
pub enum ResolveError<L, J> {
    /// The lookup failed
    Lookup(Described<L>),
    /// The task that ran the lookup failed
    Task(Described<J>),
}

impl<L, J> ResolveError<L, J> {
    /// How the error reads in a message.
    pub open spec fn text_view(&self) -> Seq<char> {
        match self {
            ResolveError::Lookup(described) => described.text@,
            ResolveError::Task(described) => described.text@,
        }
    }

    /// How the error reads in a message.
    pub fn text(&self) -> (r: String)
        ensures
            r@ == self.text_view(),
            self matches ResolveError::Lookup(described) ==> r@ == described.text@,
            self matches ResolveError::Task(described) ==> r@ == described.text@,
    {
        match self {
            ResolveError::Lookup(described) => described.text.clone(),
            ResolveError::Task(described) => described.text.clone(),
        }
    }
}

/// A warning about a slow lookup.
#[derive(Debug)]
pub struct SlowResolve {
    /// The host that was looked up
    pub host: String,
    /// How long the lookup took
    pub elapsed_ms: u128,
    /// The failure that it ended in, if it failed
    pub error: Option<String>,
}

/// The text and numbers of a [`SlowResolve`].
#[verifier::ext_equal]
pub struct SlowResolveView {
    /// The host that was looked up
    pub host: Seq<char>,
    /// How long the lookup took
    pub elapsed_ms: int,
    /// The failure that it ended in, if it failed
    pub error: Option<Seq<char>>,
}

impl View for SlowResolve {
    type V = SlowResolveView;

    open spec fn view(&self) -> SlowResolveView {
        SlowResolveView {
            host: self.host@,
            elapsed_ms: self.elapsed_ms as int,
            error: crate::slow::text_view(self.error),
        }
    }
}

impl SlowResolve {
    /// The sentence that the warning is logged under.
    pub fn message(&self) -> (r: &'static str)
        ensures
            r@ == "Slow object_store DNS resolve"@,
    {
        "Slow object_store DNS resolve"
    }
}

/// Calls `shuffle` of `rand::seq::SliceRandom` with the generator that `rand::rng` gives. The
/// items stay the same, each as often as before; their order is left to chance.
#[verifier::external_body]
fn shuffle<A>(items: &mut Vec<A>)
    ensures
        final(items)@.to_multiset() == old(items)@.to_multiset(),
{
    items.shuffle(&mut rand::rng());
}

/// The items in an order that a shuffle has drawn.
fn draw<A>(items: Vec<A>) -> (r: Vec<A>)
    ensures
        r@.to_multiset() == items@.to_multiset(),
        exists|drawn: &mut Vec<A>| #[trigger]
            call_ensures(shuffle::<A>, (drawn,), ()) && *drawn == items && *final(drawn) == r,
{
    let mut items = items;
    shuffle(&mut items);
    items
}

/// `after` is `before` in an order that a shuffle has drawn.
pub closed spec fn is_draw<A>(before: Vec<A>, after: Vec<A>) -> bool {
    call_ensures(draw::<A>, (before,), after)
}

/// The outcome of a lookup for the task that ran it.
pub open spec fn resolved<A, L, J>(
    joined: Result<Result<Vec<A>, Described<L>>, Described<J>>,
) -> Result<Vec<A>, ResolveError<L, J>> {
    match joined {
        Ok(Ok(addrs)) => Ok(addrs),
        Ok(Err(e)) => Err(ResolveError::Lookup(e)),
        Err(e) => Err(ResolveError::Task(e)),
    }
}

/// The warning that is due for a lookup of `host` that took `elapsed_ms`.
pub open spec fn resolve_warning<A, L, J>(
    host: Seq<char>,
    elapsed_ms: int,
    outcome: Result<Vec<A>, ResolveError<L, J>>,
) -> Option<SlowResolveView> {
    if elapsed_ms >= SLOW_DNS_RESOLVE_LOG_THRESHOLD_MS {
        Some(
            SlowResolveView {
                host,
                elapsed_ms,
                error: match outcome {
                    Ok(_) => None,
                    Err(e) => Some(e.text_view()),
                },
            },
        )
    } else {
        None
    }
}

impl ShuffleResolver {
    /// What to look up for a host: the name as it is, with the port that stands for none.
    pub fn query(&self, name: &str) -> (r: (String, u16))
        ensures
            r.0@ == name@,
            r.1 == LOOKUP_PORT,
            r.1 == 0,
    {
        (name.to_string(), LOOKUP_PORT)
    }

    /// What a lookup found, in random order: the same addresses, each as often as it was found.
    /// A failed lookup stays as it is.
    pub fn shuffled<A, E>(&self, found: Result<Vec<A>, E>) -> (r: Result<Vec<A>, E>)
        ensures
            match found {
                Ok(addrs) => r matches Ok(out) && out@.to_multiset() == addrs@.to_multiset()
                    && out@.len() == addrs@.len(),
                Err(e) => r == Err::<Vec<A>, E>(e),
            },
            found matches Ok(addrs) ==> (r matches Ok(out) && is_draw(addrs, out)),
    {
        match found {
            Ok(addrs) => {
                let ghost before = addrs@;
                let out = draw(addrs);
                proof {
                    before.to_multiset_ensures();
                    out@.to_multiset_ensures();
                }
                Ok(out)
            },
            Err(e) => Err(e),
        }
    }

    /// The lookup of `host`, begun at `start`, has ended at `at`, and the task that ran it gives
    /// `joined`. Warns if the lookup took long, whether or not it failed.
    pub fn resolve<A, L, J>(
        &self,
        host: &str,
        start: Instant,
        at: Instant,
        joined: Result<Result<Vec<A>, Described<L>>, Described<J>>,
    ) -> (r: (Result<Vec<A>, ResolveError<L, J>>, Option<SlowResolve>))
        ensures
            r.0 == resolved(joined),
            (match r.1 {
                Some(w) => Some(w@),
                None => None,
            }) == resolve_warning(host@, crate::time::millis_since(at, start), r.0),
            joined matches Ok(Ok(addrs)) ==> r.0 == Ok::<_, ResolveError<L, J>>(addrs),
            joined matches Ok(Err(e)) ==> r.0 == Err::<Vec<A>, _>(ResolveError::<L, J>::Lookup(e)),
            joined matches Err(e) ==> r.0 == Err::<Vec<A>, _>(ResolveError::<L, J>::Task(e)),
            r.1 is Some <==> at.nanos - start.nanos >= 500_000_000,
            r.1 matches Some(w) ==> w.host@ == host@ && w.elapsed_ms == (at.nanos - start.nanos)
                / 1_000_000,
            r.1 matches Some(w) ==> (w.error is None <==> r.0 is Ok),
            r.1 matches Some(w) ==> (joined matches Ok(Err(e)) ==> w.error->0@ == e.text@),
            r.1 matches Some(w) ==> (joined matches Err(e) ==> w.error->0@ == e.text@),
    {
        let result = match joined {
            Ok(Ok(addrs)) => Ok(addrs),
            Ok(Err(e)) => Err(ResolveError::Lookup(e)),
            Err(e) => Err(ResolveError::Task(e)),
        };
        let elapsed_ms: u128 = at.duration_since(start).as_millis();
        if elapsed_ms < SLOW_DNS_RESOLVE_LOG_THRESHOLD_MS {
            return (result, None);
        }
        let error = match &result {
            Ok(_) => None,
            Err(e) => Some(e.text()),
        };
        (result, Some(SlowResolve { host: host.to_string(), elapsed_ms, error }))
    }
}

/// Whatever the order, an address is among the resolved ones exactly if the lookup found it.
pub proof fn resolving_keeps_the_addresses<A, L, J>(found: Seq<A>, shuffled: Vec<A>, addr: A)
    requires
        shuffled@.to_multiset() == found.to_multiset(),
    ensures
        resolved::<A, L, J>(Ok(Ok(shuffled))) == Ok::<_, ResolveError<L, J>>(shuffled),
        shuffled@.contains(addr) <==> found.contains(addr),
        shuffled@.len() == found.len(),
{
    vstd::seq_lib::to_multiset_contains(found, addr);
    vstd::seq_lib::to_multiset_contains(shuffled@, addr);
    vstd::seq_lib::to_multiset_len(found);
    vstd::seq_lib::to_multiset_len(shuffled@);
}


/// A lookup gives the addresses that were found, or the very failure of the lookup or of its task.
pub proof fn a_lookup_gives_what_its_task_gives<A, L, J>(
    addrs: Vec<A>,
    lookup: Described<L>,
    task: Described<J>,
)
    ensures
        resolved::<A, L, J>(Ok(Ok(addrs))) matches Ok(out) && out == addrs,
        resolved::<A, L, J>(Ok(Err(lookup))) matches Err(ResolveError::Lookup(e)) && e == lookup,
        resolved::<A, L, J>(Err(task)) matches Err(ResolveError::Task(e)) && e == task,
{
}

/// A lookup is warned about exactly if it took half a second or more. The warning names the host
/// and reports the whole milliseconds from the start to the end, and the text of the failure if
/// there is one.
pub proof fn a_lookup_is_warned_about_from_half_a_second_on<A, L, J>(
    host: Seq<char>,
    start: Instant,
    at: Instant,
    outcome: Result<Vec<A>, ResolveError<L, J>>,
)
    ensures
        ({
            let warning = resolve_warning(host, crate::time::millis_since(at, start), outcome);
            &&& warning is Some <==> at.nanos - start.nanos >= 500_000_000
            &&& warning matches Some(w) ==> {
                &&& w.host == host
                &&& w.elapsed_ms == (at.nanos - start.nanos) / 1_000_000
                &&& w.error is Some <==> outcome is Err
                &&& outcome matches Err(ResolveError::Lookup(e)) ==> w.error == Some(e.text@)
                &&& outcome matches Err(ResolveError::Task(e)) ==> w.error == Some(e.text@)
            }
        }),
{
}

/// A lookup that ends later than one that is warned about is warned about too, with no smaller
/// time.
pub proof fn a_longer_lookup_is_warned_about_too<A, L, J>(
    host: Seq<char>,
    start: Instant,
    earlier: Instant,
    later: Instant,
    outcome: Result<Vec<A>, ResolveError<L, J>>,
)
    requires
        earlier.nanos <= later.nanos,
        resolve_warning(host, crate::time::millis_since(earlier, start), outcome) is Some,
    ensures
        ({
            let first = resolve_warning(host, crate::time::millis_since(earlier, start), outcome);
            let second = resolve_warning(host, crate::time::millis_since(later, start), outcome);
            &&& second is Some
            &&& first->0.elapsed_ms <= second->0.elapsed_ms
            &&& second->0.elapsed_ms - first->0.elapsed_ms >= (later.nanos - earlier.nanos)
                / 1_000_000
        }),
{
}

/// A warning about a lookup is seen as it is.
pub proof fn a_slow_lookup_is_seen_as_it_is(warning: SlowResolve)
    ensures
        warning@.host == warning.host@,
        warning@.elapsed_ms == warning.elapsed_ms,
        warning@.error is Some <==> warning.error is Some,
        warning.error matches Some(text) ==> warning@.error == Some(text@),
{
}


/// A drawn order holds the same items, each as often as before, and was drawn by a shuffle.
proof fn a_drawn_order_holds_the_same_items<A>(before: Vec<A>, after: Vec<A>)
    requires
        is_draw(before, after),
    ensures
        call_ensures(draw::<A>, (before,), after),
        after@.to_multiset() == before@.to_multiset(),
{
}

} // verus!
