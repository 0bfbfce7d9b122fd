//! What holds of a spawned request as a whole.

use vstd::prelude::*;

use crate::error::{ErrorSource, HttpError, HttpErrorKind, SpawnError};
use crate::request::FooterSpawnFields;
use crate::spawn::{
    Calling, Forwarding, Handoff, Polled, Replying, Reply, SpawnBody, StreamItem, StreamStep,
    Streaming,
};
use crate::time::Instant;

verus! {

/// The worker passes on `items`: before the item at each position it stands as in `states`,
/// while the item is on its way as in `sending`, and the caller takes each.
pub open spec fn is_stream_run<F, S>(
    states: Seq<Streaming>,
    sending: Seq<Forwarding>,
    items: Seq<StreamItem<F, S>>,
) -> bool {
    &&& states.len() == items.len() + 1
    &&& sending.len() == items.len()
    &&& forall|i: int|
        0 <= i < items.len() ==> {
            &&& states[i].counts(items[i], #[trigger] sending[i])
            &&& sending[i].resumes(states[i + 1])
        }
}

/// The length of the data in all items together.
pub open spec fn total_bytes<F, S>(items: Seq<StreamItem<F, S>>) -> int
    decreases items.len(),
{
    if items.len() == 0 {
        0
    } else {
        total_bytes(items.drop_last()) + crate::spawn::item_bytes(items.last())
    }
}

/// After any number of items that the caller took, the worker has counted that many frames. For
/// a footer it has counted the bytes of all their data, otherwise none.
pub proof fn frames_and_bytes_are_counted<F, S>(
    states: Seq<Streaming>,
    sending: Seq<Forwarding>,
    items: Seq<StreamItem<F, S>>,
    n: int,
)
    requires
        is_stream_run(states, sending, items),
        0 <= n <= items.len(),
    ensures
        states[n].footer_fields == states[0].footer_fields,
        states[n].body_start == states[0].body_start,
        states[n].frame_index == states[0].frame_index + n,
        states[n].bytes_sent == states[0].bytes_sent + (if states[0].footer_fields is Some {
            total_bytes(items.take(n))
        } else {
            0
        }),
    decreases n,
{
    if n == 0 {
        assert(items.take(0).len() == 0);
    } else {
        frames_and_bytes_are_counted(states, sending, items, n - 1);
        assert(states[n - 1].counts(items[n - 1], sending[n - 1]));
        assert(sending[n - 1].resumes(states[n - 1 + 1]));
        assert(items.take(n).drop_last() =~= items.take(n - 1));
        assert(items.take(n).last() == items[n - 1]);
    }
}

/// When the body of a footer ends after `items`, a warning that is due reports how many items
/// there were and how long their data is altogether.
pub proof fn the_end_of_a_body_reports_all_of_it<F, S>(
    replying: Replying,
    body_start: Instant,
    states: Seq<Streaming>,
    sending: Seq<Forwarding>,
    items: Seq<StreamItem<F, S>>,
    at: Instant,
)
    requires
        is_stream_run(states, sending, items),
        states[0] == (Streaming {
            footer_fields: replying.footer_fields,
            body_start,
            frame_index: 0,
            bytes_sent: 0,
        }),
        replying.footer_fields is Some,
    ensures
        states.last().stream_warning::<F, S>(at, None) == ({
            let elapsed_ms = crate::time::millis_since(at, body_start);
            crate::slow::warning_due(
                replying.footer_fields,
                elapsed_ms,
                crate::slow::SlowEventView::BodyStream {
                    elapsed_ms,
                    frame_count: items.len() as int,
                    bytes_sent: total_bytes(items),
                },
            )
        }),
{
    frames_and_bytes_are_counted(states, sending, items, items.len() as int);
    assert(items.take(items.len() as int) =~= items);
}

/// What travels from the worker to the caller for a reply: the failure, or the head of the
/// response with the moment at which the worker had it.
pub open spec fn message<P, Q, S>(
    reply: Reply<P, S>,
    head: spec_fn(P) -> Q,
    ready_at: Instant,
) -> Result<(Q, Instant), HttpError<S>> {
    match reply {
        Reply::Failed(e) => Err(e),
        Reply::Response { response, .. } => Ok((head(response), ready_at)),
    }
}

/// A call gives back what the inner service replied: the head of its response with an unread
/// body, or its failure unchanged.
pub proof fn a_call_answers_with_the_inner_reply<P, Q, S>(
    worker: Calling,
    footer_fields: Option<FooterSpawnFields>,
    outcome: Result<P, HttpError<S>>,
    head: spec_fn(P) -> Q,
    ready_at: Instant,
)
    ensures
        crate::spawn::answer(
            footer_fields,
            Some(message(worker.reply_to(outcome), head, ready_at)),
        ) == (match outcome {
            Ok(response) => Ok(
                (
                    head(response),
                    SpawnBody { footer_fields, pending_since: None, frame_index: 0 },
                ),
            ),
            Err(e) => Err(e),
        }),
{
}

/// A call whose worker goes away without a reply fails as interrupted.
pub proof fn a_lost_worker_interrupts_the_call<Q, S>(footer_fields: Option<FooterSpawnFields>)
    ensures
        crate::spawn::answer::<Q, S>(footer_fields, None) == Err::<(Q, SpawnBody), _>(
            HttpError {
                kind: HttpErrorKind::Interrupted,
                source: ErrorSource::<S>::Spawn(SpawnError {  }),
            },
        ),
{
}

/// The body is polled: each poll finds what `polls` says at the moment that it says, and takes
/// the body from one of `bodies` to the next. It is not polled often enough to exhaust the count.
pub open spec fn is_poll_run<I>(bodies: Seq<SpawnBody>, polls: Seq<(Polled<I>, Instant)>) -> bool {
    &&& bodies.len() == polls.len() + 1
    &&& bodies[0].frame_index + polls.len() <= u64::MAX
    &&& forall|i: int|
        0 <= i < polls.len() ==> bodies[i + 1] == bodies[i].after_poll(
            (#[trigger] polls[i]).0,
            polls[i].1,
        )
}

/// How many of the polls found something.
pub open spec fn ready_count<I>(polls: Seq<(Polled<I>, Instant)>) -> int
    decreases polls.len(),
{
    if polls.len() == 0 {
        0
    } else {
        ready_count(polls.drop_last()) + (if polls.last().0 is Ready {
            1int
        } else {
            0
        })
    }
}

/// The poll at `j` is the first of those that found nothing since something was last found, or
/// since the beginning, and all up to `n` found nothing.
pub open spec fn waits_from<I>(polls: Seq<(Polled<I>, Instant)>, j: int, n: int) -> bool {
    &&& 0 <= j < n
    &&& forall|k: int| j <= k < n ==> (#[trigger] polls[k]).0 is Pending
    &&& j == 0 || polls[j - 1].0 is Ready
}

/// The body counts exactly the polls that found something, the end of the body among them.
pub proof fn ready_polls_are_counted<I>(
    bodies: Seq<SpawnBody>,
    polls: Seq<(Polled<I>, Instant)>,
    n: int,
)
    requires
        is_poll_run(bodies, polls),
        0 <= n <= polls.len(),
    ensures
        bodies[n].footer_fields == bodies[0].footer_fields,
        bodies[n].frame_index == bodies[0].frame_index + ready_count(polls.take(n)),
        0 <= ready_count(polls.take(n)) <= n,
    decreases n,
{
    if n == 0 {
        assert(polls.take(0).len() == 0);
    } else {
        ready_polls_are_counted(bodies, polls, n - 1);
        assert(polls.take(n).drop_last() =~= polls.take(n - 1));
        assert(polls.take(n).last() == polls[n - 1]);
        assert(bodies[n - 1 + 1] == bodies[n - 1].after_poll(polls[n - 1].0, polls[n - 1].1));
    }
}

/// The reader of a footer waits since the first poll that found nothing: a later poll that finds
/// nothing either does not restart the wait, and one that finds something ends it. The wait of
/// any other request is not measured.
pub proof fn a_wait_begins_at_the_first_pending_poll<I>(
    bodies: Seq<SpawnBody>,
    polls: Seq<(Polled<I>, Instant)>,
    n: int,
)
    requires
        is_poll_run(bodies, polls),
        bodies[0].pending_since is None,
        0 <= n <= polls.len(),
    ensures
        bodies[0].footer_fields is None ==> bodies[n].pending_since is None,
        bodies[0].footer_fields is Some ==> (bodies[n].pending_since is Some <==> n > 0 && polls[n
            - 1].0 is Pending),
        forall|j: int| #[trigger]
            waits_from(polls, j, n) && bodies[0].footer_fields is Some ==> bodies[n].pending_since
                == Some(polls[j].1),
    decreases n,
{
    if n > 0 {
        a_wait_begins_at_the_first_pending_poll(bodies, polls, n - 1);
        ready_polls_are_counted(bodies, polls, n - 1);
        let last = polls[n - 1];
        assert(bodies[n - 1 + 1] == bodies[n - 1].after_poll(last.0, last.1));
        assert forall|j: int| #[trigger]
            waits_from(polls, j, n)
                && bodies[0].footer_fields is Some implies bodies[n].pending_since == Some(
            polls[j].1,
        ) by {
            assert(polls[n - 1].0 is Pending);
            if j < n - 1 {
                assert(polls[n - 2].0 is Pending);
                assert(waits_from(polls, j, n - 1));
            }
        }
    }
}

/// A frame that arrives after a wait is warned about by how long the whole wait was.
pub proof fn a_late_frame_reports_the_whole_wait<I>(
    bodies: Seq<SpawnBody>,
    polls: Seq<(Polled<I>, Instant)>,
    j: int,
    item: I,
    at: Instant,
)
    requires
        is_poll_run(bodies, polls),
        bodies[0].pending_since is None,
        bodies[0].footer_fields is Some,
        waits_from(polls, j, polls.len() as int),
    ensures
        bodies.last().poll_warning(Polled::Ready(item), at) == ({
            let elapsed_ms = crate::time::millis_since(at, polls[j].1);
            crate::slow::warning_due(
                bodies[0].footer_fields,
                elapsed_ms,
                crate::slow::SlowEventView::BodyRecv {
                    elapsed_ms,
                    frame_index: bodies[0].frame_index + ready_count(polls),
                },
            )
        }),
{
    let n = polls.len() as int;
    a_wait_begins_at_the_first_pending_poll(bodies, polls, n);
    ready_polls_are_counted(bodies, polls, n);
    assert(polls.take(n) =~= polls);
}

/// A request that is not for a footer is never warned about, neither by its worker nor by the
/// reader of its body, and its bytes are not counted.
pub proof fn only_footers_are_warned_about<F, S, I>(
    worker: Streaming,
    item: Option<StreamItem<F, S>>,
    body: SpawnBody,
    polled: Polled<I>,
    at: Instant,
    elapsed_ms: int,
    event: crate::slow::SlowEventView,
)
    requires
        worker.footer_fields is None,
        body.footer_fields is None,
    ensures
        crate::slow::warning_due(None, elapsed_ms, event) is None,
        worker.stream_warning(at, item) is None,
        item is Some ==> worker.bytes_with(item->0) == worker.bytes_sent,
        body.poll_warning(polled, at) is None,
        body.after_poll(polled, at).footer_fields is None,
{
}


/// A data frame is as long as its data, and neither another frame nor a failure has a length.
pub proof fn an_item_is_as_long_as_its_data<F, S>(item: StreamItem<F, S>)
    ensures
        item matches Ok(frame) ==> crate::spawn::item_len(item) == frame.data_len,
        item is Err ==> crate::spawn::item_len(item) is None,
        crate::spawn::item_len(item) matches Some(len) ==> crate::spawn::item_bytes(item) == len,
        crate::spawn::item_len(item) is None ==> crate::spawn::item_bytes(item) == 0,
{
}

/// One more data frame makes the whole longer by its data, and anything else leaves it as it is.
pub proof fn one_more_item_adds_its_data<F, S>(
    items: Seq<StreamItem<F, S>>,
    item: StreamItem<F, S>,
)
    ensures
        total_bytes(Seq::<StreamItem<F, S>>::empty()) == 0,
        item matches Ok(frame) ==> (frame.data_len matches Some(len) ==> total_bytes(
            items.push(item),
        ) == total_bytes(items) + len),
        item matches Ok(frame) ==> (frame.data_len is None ==> total_bytes(items.push(item))
            == total_bytes(items)),
        item is Err ==> total_bytes(items.push(item)) == total_bytes(items),
{
    assert(items.push(item).drop_last() =~= items);
    assert(items.push(item).last() == item);
}

/// There is room for an item as long as the bytes of a footer can be counted, and always for
/// another request, for a frame without data, for a failure and for the end.
pub proof fn there_is_room_for_what_can_be_counted<F, S>(
    worker: Streaming,
    item: Option<StreamItem<F, S>>,
)
    ensures
        worker.footer_fields is None ==> worker.has_room_for(item),
        item is None ==> worker.has_room_for(item),
        item matches Some(i) ==> (i is Err ==> worker.has_room_for(item)),
        item matches Some(Ok(frame)) ==> (frame.data_len is None ==> worker.has_room_for(item)),
        item matches Some(Ok(frame)) ==> (frame.data_len matches Some(len) ==> (
        worker.footer_fields is Some ==> (worker.has_room_for(item) <==> worker.bytes_sent + len
            <= usize::MAX))),
{
}

/// The worker replies with the response or with the failure of the inner service as it is, and
/// knows after a response still which request it works on.
pub proof fn a_reply_is_the_outcome_and_keeps_the_request<P, S>(
    calling: Calling,
    outcome: Result<P, HttpError<S>>,
)
    ensures
        outcome matches Ok(response) ==> (calling.reply_to(outcome) matches Reply::Response {
            response: out,
            next,
        } && out == response && next.footer_fields == calling.footer_fields),
        outcome matches Err(e) ==> (calling.reply_to(outcome) matches Reply::Failed(out) && out
            == e),
{
}

/// An item that the body yields is handed over as it is, and nothing else ends the worker than
/// the end of the body. What the worker does is settled by what the body yields.
pub proof fn a_worker_hands_over_what_the_body_yields<F, S>(
    worker: Streaming,
    item: Option<StreamItem<F, S>>,
    step: StreamStep<F, S>,
    other: StreamStep<F, S>,
)
    requires
        worker.passes_on(item, step),
        worker.passes_on(item, other),
    ensures
        step == other,
        step is Ended <==> item is None,
        item matches Some(i) ==> (step matches StreamStep::Forward { item: out, next } && out == i
            && next.footer_fields == worker.footer_fields && next.body_start == worker.body_start
            && next.frame_index == worker.frame_index),
{
}

/// A worker passes on a body from its hand-off on: it takes its first step, the inner service
/// gives `outcome`, the caller takes the head, and the worker begins with the body at
/// `body_start` and passes on `items`.
pub open spec fn is_worker_run<P, F, S>(
    handoff: Handoff,
    calling: Calling,
    outcome: Result<P, HttpError<S>>,
    replying: Replying,
    body_start: Instant,
    states: Seq<Streaming>,
    sending: Seq<Forwarding>,
    items: Seq<StreamItem<F, S>>,
) -> bool {
    &&& handoff.hands_to(calling)
    &&& calling.reply_to(outcome) matches Reply::Response { next, .. } && next == replying
    &&& is_stream_run(states, sending, items)
    &&& replying.begins(body_start, states[0])
}

/// From the hand-off to the end of the body the worker knows which request it works on. After any
/// number of items it has counted as many frames, and the bytes of their data for a footer.
pub proof fn the_worker_keeps_the_request_to_the_end<P, F, S>(
    handoff: Handoff,
    calling: Calling,
    outcome: Result<P, HttpError<S>>,
    replying: Replying,
    body_start: Instant,
    states: Seq<Streaming>,
    sending: Seq<Forwarding>,
    items: Seq<StreamItem<F, S>>,
    n: int,
)
    requires
        is_worker_run(
            handoff,
            calling,
            outcome,
            replying,
            body_start,
            states,
            sending,
            items,
        ),
        0 <= n <= items.len(),
    ensures
        calling.footer_fields == handoff.footer_fields,
        replying.footer_fields == handoff.footer_fields,
        states[n].footer_fields == handoff.footer_fields,
        states[n].body_start == body_start,
        states[n].frame_index == n,
        handoff.footer_fields is Some ==> states[n].bytes_sent == total_bytes(items.take(n)),
        handoff.footer_fields is None ==> states[n].bytes_sent == 0,
        n < items.len() ==> sending[n].footer_fields == handoff.footer_fields,
{
    frames_and_bytes_are_counted(states, sending, items, n);
    if n < items.len() {
        assert(states[n].counts(items[n], sending[n]));
    }
}

/// Every frame of a footer that comes half a second or more after the start of the body is warned
/// about, and so is the end of such a body. The warning is about the request of the hand-off and
/// reports the frames and bytes so far. Nothing is warned about earlier, or for another request.
pub proof fn a_slow_body_of_a_footer_is_warned_about<P, F, S>(
    handoff: Handoff,
    calling: Calling,
    outcome: Result<P, HttpError<S>>,
    replying: Replying,
    body_start: Instant,
    states: Seq<Streaming>,
    sending: Seq<Forwarding>,
    items: Seq<StreamItem<F, S>>,
    at: Instant,
    item: StreamItem<F, S>,
)
    requires
        is_worker_run(
            handoff,
            calling,
            outcome,
            replying,
            body_start,
            states,
            sending,
            items,
        ),
    ensures
        ({
            let frame = states.last().stream_warning(at, Some(item));
            let end = states.last().stream_warning::<F, S>(at, None);
            let due = handoff.footer_fields is Some && at.nanos - body_start.nanos >= 500_000_000;
            &&& frame is Some <==> due
            &&& end is Some <==> due
            &&& due ==> {
                let elapsed_ms = (at.nanos - body_start.nanos) / 1_000_000;
                &&& frame->0.fields == handoff.footer_fields->0@
                &&& end->0.fields == handoff.footer_fields->0@
                &&& frame->0.event == (crate::slow::SlowEventView::BodyFrame {
                    elapsed_ms,
                    frame_index: items.len() as int,
                    frame_bytes: if item is Ok {
                        item->Ok_0.data_len
                    } else {
                        None
                    },
                    bytes_sent: total_bytes(items.push(item)),
                    error: if item is Err {
                        Some(item->Err_0.text_view())
                    } else {
                        None
                    },
                })
                &&& end->0.event == (crate::slow::SlowEventView::BodyStream {
                    elapsed_ms,
                    frame_count: items.len() as int,
                    bytes_sent: total_bytes(items),
                })
            }
        }),
{
    let n = items.len() as int;
    the_worker_keeps_the_request_to_the_end(
        handoff,
        calling,
        outcome,
        replying,
        body_start,
        states,
        sending,
        items,
        n,
    );
    assert(items.take(n) =~= items);
    one_more_item_adds_its_data(items, item);
}

/// The caller gets the head with a body of which nothing was read and which is known to be that
/// of the same request, or the very failure that was replied, or an interruption.
pub proof fn an_answer_is_what_was_received<Q, S>(
    footer_fields: Option<FooterSpawnFields>,
    head: Q,
    ready_at: Instant,
    failure: HttpError<S>,
)
    ensures
        crate::spawn::answer::<Q, S>(footer_fields, Some(Ok((head, ready_at)))) matches Ok(
            (out, body),
        ) && out == head && body.footer_fields == footer_fields && body.pending_since is None
            && body.frame_index == 0,
        crate::spawn::answer::<Q, S>(footer_fields, Some(Err(failure))) matches Err(e) && e
            == failure,
        crate::spawn::answer::<Q, S>(footer_fields, None) matches Err(e) && e.kind is Interrupted
            && e.source is Spawn,
{
}

/// A poll that finds nothing begins a wait, for a footer without one, and changes nothing else. A
/// poll that finds something ends the wait and is counted.
pub proof fn a_poll_begins_or_ends_a_wait<I>(body: SpawnBody, item: I, at: Instant)
    requires
        body.frame_index < u64::MAX,
    ensures
        ({
            let pending = body.after_poll(Polled::<I>::Pending, at);
            let ready = body.after_poll(Polled::Ready(item), at);
            &&& pending.footer_fields == body.footer_fields
            &&& ready.footer_fields == body.footer_fields
            &&& pending.frame_index == body.frame_index
            &&& ready.frame_index == body.frame_index + 1
            &&& ready.pending_since is None
            &&& body.pending_since is Some ==> pending.pending_since == body.pending_since
            &&& body.pending_since is None && body.footer_fields is Some ==> pending.pending_since
                == Some(at)
            &&& body.pending_since is None && body.footer_fields is None ==> pending.pending_since
                is None
        }),
{
}

/// A reader is warned exactly if it is the reader of a footer, waited, and waited for half a
/// second or more until something was there.
pub proof fn a_wait_is_warned_about_from_half_a_second_on<I>(
    body: SpawnBody,
    item: I,
    at: Instant,
)
    ensures
        body.poll_warning(Polled::<I>::Pending, at) is None,
        ({
            let warning = body.poll_warning(Polled::Ready(item), at);
            &&& warning is Some <==> body.footer_fields is Some && body.pending_since is Some
                && at.nanos - body.pending_since->0.nanos >= 500_000_000
            &&& warning matches Some(w) ==> {
                &&& w.fields == body.footer_fields->0@
                &&& w.event == (crate::slow::SlowEventView::BodyRecv {
                    elapsed_ms: (at.nanos - body.pending_since->0.nanos) / 1_000_000,
                    frame_index: body.frame_index as int,
                })
            }
        }),
{
}

} // verus!
