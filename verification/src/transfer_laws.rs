//! What holds of the frames of a response on their way from the inner body to the reader.

use vstd::prelude::*;

use crate::spawn::{Forwarding, Polled, SpawnBody, StreamItem, StreamStep, Streaming};
use crate::time::Instant;

verus! {

/// Where the worker stands that passes on a body.
pub enum WorkerPhase<F, S> {
    /// It waits for the body to yield
    Waiting(Streaming),
    /// It hands over an item
    Sending {
        /// The item
        item: StreamItem<F, S>,
        /// The worker while the item is on its way
        next: Forwarding,
    },
    /// The body has ended, and so has the worker
    Ended,
    /// The worker has stopped before the end of the body: nobody takes its items any more, or it
    /// was aborted
    Stopped,
}

/// A body that is passed on from a worker to a reader.
pub struct Transfer<F, S> {
    /// Where the worker stands
    pub worker: WorkerPhase<F, S>,
    /// The channel: the items that the worker has sent and the reader has not got, oldest first
    pub queue: Seq<StreamItem<F, S>>,
    /// The reader, `None` once it is gone
    pub reader: Option<SpawnBody>,
    /// What the inner body has yielded so far
    pub produced: Seq<StreamItem<F, S>>,
    /// What the reader was given so far
    pub given: Seq<StreamItem<F, S>>,
}

/// Something that happens to a transfer.
pub enum TransferEvent<F, S> {
    /// The inner body yields an item, or its end
    Yield { item: Option<StreamItem<F, S>> },
    /// The worker sends the item that it has
    Send,
    /// The reader polls for an item at `at`
    Poll { at: Instant },
    /// The reader goes away, and the items in the channel with it
    Leave,
    /// The worker is aborted
    Abort,
}

/// Where the worker stands after a step.
pub open spec fn worker_after<F, S>(step: StreamStep<F, S>) -> WorkerPhase<F, S> {
    match step {
        StreamStep::Forward { item, next } => WorkerPhase::Sending { item, next },
        StreamStep::Ended => WorkerPhase::Ended,
    }
}

impl<F, S> Transfer<F, S> {
    /// The worker waits for the first frame, and nothing was passed on yet.
    pub open spec fn initial(self) -> bool {
        &&& self.worker is Waiting
        &&& self.reader is Some
        &&& self.queue.len() == 0
        &&& self.produced.len() == 0
        &&& self.given.len() == 0
    }

    /// What a poll of the channel finds: the oldest item, or the end if the channel is empty and
    /// the worker is gone.
    pub open spec fn polled(self) -> Polled<Option<StreamItem<F, S>>> {
        if self.queue.len() > 0 {
            Polled::Ready(Some(self.queue[0]))
        } else if self.worker is Ended || self.worker is Stopped {
            Polled::Ready(None)
        } else {
            Polled::Pending
        }
    }

    /// What the reader was given once a poll gave it `polled`.
    pub open spec fn given_with(self, polled: Polled<Option<StreamItem<F, S>>>) -> Seq<
        StreamItem<F, S>,
    > {
        match polled {
            Polled::Ready(Some(item)) => self.given.push(item),
            _ => self.given,
        }
    }

    /// `event` takes the transfer to `post`.
    pub open spec fn step(self, event: TransferEvent<F, S>, post: Transfer<F, S>) -> bool {
        match event {
            TransferEvent::Yield { item } => {
                &&& self.worker matches WorkerPhase::Waiting(worker)
                &&& worker.has_room_for(item)
                &&& exists|step: StreamStep<F, S>| #[trigger]
                    worker.passes_on(item, step) && post.worker == worker_after(step)
                &&& post == Transfer {
                    worker: post.worker,
                    produced: match item {
                        Some(i) => self.produced.push(i),
                        None => self.produced,
                    },
                    ..self
                }
            },
            TransferEvent::Send => {
                &&& self.worker matches WorkerPhase::Sending { item, next }
                &&& if self.reader is Some {
                    &&& post.worker matches WorkerPhase::Waiting(worker) && next.resumes(worker)
                    &&& post == Transfer {
                        worker: post.worker,
                        queue: self.queue.push(item),
                        ..self
                    }
                } else {
                    post == Transfer { worker: WorkerPhase::Stopped, ..self }
                }
            },
            TransferEvent::Poll { at } => {
                &&& self.reader matches Some(reader)
                &&& self.polled() is Ready ==> reader.frame_index < u64::MAX
                &&& post == Transfer {
                    queue: if self.queue.len() > 0 {
                        self.queue.drop_first()
                    } else {
                        self.queue
                    },
                    reader: Some(reader.after_poll(self.polled(), at)),
                    given: self.given_with(self.polled()),
                    ..self
                }
            },
            TransferEvent::Leave => {
                &&& self.reader is Some
                &&& post == Transfer { reader: None, queue: Seq::empty(), ..self }
            },
            TransferEvent::Abort => {
                &&& self.worker !is Ended
                &&& post == Transfer { worker: WorkerPhase::Stopped, ..self }
            },
        }
    }

    /// The items that the worker has and did not send yet.
    pub open spec fn in_hand(self) -> Seq<StreamItem<F, S>> {
        match self.worker {
            WorkerPhase::Sending { item, .. } => seq![item],
            _ => Seq::empty(),
        }
    }

    /// As long as there is a reader, what it was given and what is in the channel begins what the
    /// body yielded. Until the worker is stopped, only what it has in hand is still to come.
    pub open spec fn in_order(self) -> bool {
        &&& self.given.is_prefix_of(self.produced)
        &&& self.reader is Some ==> (self.given + self.queue).is_prefix_of(self.produced)
        &&& self.reader is Some && self.worker !is Stopped ==> self.given + self.queue
            + self.in_hand() == self.produced
    }
}

/// What happens to a transfer, one event after the other.
pub open spec fn is_transfer<F, S>(
    states: Seq<Transfer<F, S>>,
    events: Seq<TransferEvent<F, S>>,
) -> bool {
    &&& states.len() == events.len() + 1
    &&& states[0].initial()
    &&& forall|i: int|
        0 <= i < events.len() ==> states[i].step(#[trigger] events[i], states[i + 1])
}

/// Every event keeps the items in order.
proof fn lemma_step_keeps_order<F, S>(
    pre: Transfer<F, S>,
    event: TransferEvent<F, S>,
    post: Transfer<F, S>,
)
    requires
        pre.in_order(),
        pre.step(event, post),
    ensures
        post.in_order(),
{
    let sent = pre.given + pre.queue;
    match event {
        TransferEvent::Yield { item } => {
            if let Some(i) = item {
                assert(post.in_hand() =~= seq![i]);
                if pre.reader is Some {
                    assert(sent + pre.in_hand() =~= sent);
                    assert(post.produced =~= sent + seq![i]);
                }
            } else {
                assert(post.in_hand() =~= pre.in_hand());
            }
        },
        TransferEvent::Send => {
            if pre.reader is Some {
                assert(post.given + post.queue =~= sent + pre.in_hand());
                assert(post.given + post.queue + post.in_hand() =~= post.given + post.queue);
            }
        },
        TransferEvent::Poll { .. } => {
            assert(post.given + post.queue =~= sent);
            assert(post.in_hand() == pre.in_hand());
            assert(post.given =~= sent.take(post.given.len() as int));
        },
        TransferEvent::Leave => {},
        TransferEvent::Abort => {},
    }
}

/// At every moment of every transfer the items are in order.
proof fn lemma_transfer_is_in_order<F, S>(
    states: Seq<Transfer<F, S>>,
    events: Seq<TransferEvent<F, S>>,
    n: int,
)
    requires
        is_transfer(states, events),
        0 <= n < states.len(),
    ensures
        states[n].in_order(),
    decreases n,
{
    if n == 0 {
        assert(states[0].given + states[0].queue + states[0].in_hand() =~= states[0].produced);
    } else {
        lemma_transfer_is_in_order(states, events, n - 1);
        assert(states[n - 1].step(events[n - 1], states[n - 1 + 1]));
        lemma_step_keeps_order(states[n - 1], events[n - 1], states[n]);
    }
}

/// What the reader was given is at every moment the beginning of what the inner body has yielded:
/// no item is lost on the way, repeated, changed or overtaken. It is all of it when the worker
/// waits for more or has come to the end of the body, and nothing is left in the channel.
pub proof fn a_reader_gets_what_the_body_yielded<F, S>(
    states: Seq<Transfer<F, S>>,
    events: Seq<TransferEvent<F, S>>,
    n: int,
)
    requires
        is_transfer(states, events),
        0 <= n < states.len(),
    ensures
        states[n].given.is_prefix_of(states[n].produced),
        states[n].reader is Some && states[n].queue.len() == 0 && (states[n].worker is Waiting
            || states[n].worker is Ended) ==> states[n].given == states[n].produced,
{
    lemma_transfer_is_in_order(states, events, n);
    let state = states[n];
    if state.reader is Some && state.queue.len() == 0 && (state.worker is Waiting
        || state.worker is Ended) {
        assert(state.given + state.queue + state.in_hand() =~= state.given);
    }
}

/// A reader that does not poll never holds up the worker: however much is in the channel, the
/// worker takes whatever the body yields, and hands over what it has in hand as long as it can
/// count it. The channel keeps all of that: with a reader and a worker that was not stopped, what
/// the reader was given, what is in the channel and what is in hand is all that the body yielded.
pub proof fn an_idle_reader_never_holds_up_the_worker<F, S>(
    states: Seq<Transfer<F, S>>,
    events: Seq<TransferEvent<F, S>>,
    n: int,
    yielded: Option<StreamItem<F, S>>,
)
    requires
        is_transfer(states, events),
        0 <= n < states.len(),
        states[n].reader is Some,
    ensures
        states[n].worker matches WorkerPhase::Waiting(worker) ==> (worker.has_room_for(yielded)
            ==> exists|post: Transfer<F, S>| #[trigger]
            states[n].step(TransferEvent::Yield { item: yielded }, post)),
        states[n].worker matches WorkerPhase::Sending { item, next } ==> (next.frame_index
            < u64::MAX ==> exists|post: Transfer<F, S>| #[trigger]
            states[n].step(TransferEvent::Send, post) && post.worker is Waiting && post.queue
                == states[n].queue.push(item)),
        states[n].worker !is Stopped ==> states[n].given + states[n].queue + states[n].in_hand()
            == states[n].produced,
{
    lemma_transfer_is_in_order(states, events, n);
    let state = states[n];
    match state.worker {
        WorkerPhase::Waiting(worker) => {
            if worker.has_room_for(yielded) {
                let step = match yielded {
                    Some(item) => StreamStep::Forward {
                        item,
                        next: Forwarding {
                            footer_fields: worker.footer_fields,
                            body_start: worker.body_start,
                            frame_index: worker.frame_index,
                            bytes_sent: worker.bytes_with(item) as usize,
                        },
                    },
                    None => StreamStep::Ended,
                };
                let post = Transfer {
                    worker: worker_after(step),
                    produced: match yielded {
                        Some(item) => state.produced.push(item),
                        None => state.produced,
                    },
                    ..state
                };
                assert(worker.passes_on(yielded, step));
                assert(state.step(TransferEvent::Yield { item: yielded }, post));
            }
        },
        WorkerPhase::Sending { item, next } => {
            if next.frame_index < u64::MAX {
                let worker = Streaming {
                    footer_fields: next.footer_fields,
                    body_start: next.body_start,
                    frame_index: (next.frame_index + 1) as u64,
                    bytes_sent: next.bytes_sent,
                };
                let post = Transfer {
                    worker: WorkerPhase::Waiting(worker),
                    queue: state.queue.push(item),
                    ..state
                };
                assert(next.resumes(worker));
                assert(state.step(TransferEvent::Send, post));
            }
        },
        _ => {},
    }
}

/// A reader that is told the end of the body has been given all of it, unless the worker was
/// stopped before.
pub proof fn the_end_comes_after_everything<F, S>(
    states: Seq<Transfer<F, S>>,
    events: Seq<TransferEvent<F, S>>,
    n: int,
)
    requires
        is_transfer(states, events),
        0 <= n < events.len(),
        events[n] is Poll,
        states[n].polled() == Polled::Ready(None::<StreamItem<F, S>>),
    ensures
        states[n].worker is Ended || states[n].worker is Stopped,
        states[n].worker is Ended ==> states[n + 1].given == states[n + 1].produced,
{
    assert(states[n].step(events[n], states[n + 1]));
    a_reader_gets_what_the_body_yielded(states, events, n);
}

} // verus!
