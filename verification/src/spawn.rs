//! Running a request on another runtime.
//!
//! A call splits into two sides. The worker runs on the other runtime: it is handed over
//! ([`Handoff`]), calls the inner service ([`Calling`]), replies with the head of the response
//! ([`Replying`]) and then passes on the body frame by frame ([`Streaming`], [`Forwarding`]).
//! The caller waits for the head ([`Caller`]) and reads the frames ([`SpawnBody`]).

use vstd::prelude::*;

use crate::error::{ErrorSource, HttpError, HttpErrorKind, SpawnError};
use crate::request::{footer_spawn_fields, FooterSpawnFields, HttpRequest};
use crate::slow::{is_slow, SlowEvent, SlowFooter};
use crate::time::{Clock, Instant};

verus! {

/// `tokio::runtime::Handle`, kept opaque.
#[verifier::external_type_specification]
#[verifier::external_body]
pub struct ExHandle(tokio::runtime::Handle);

/// Wraps a service that performs HTTP requests and runs it on a separate tokio runtime.
#[derive(Debug)]
pub struct SpawnService<T> {
    /// The service
    pub inner: T,
    /// The runtime that the service runs on
    pub runtime: tokio::runtime::Handle,
}

/// The two sides of a call that is about to be spawned.
pub struct Spawned<T> {
    /// The service that the worker will call
    pub inner: T,
    /// The worker's side
    pub worker: Handoff,
    /// The caller's side
    pub caller: Caller,
}

/// The worker before its first step.
pub struct Handoff {
    /// The request, if it is for a footer
    pub footer_fields: Option<FooterSpawnFields>,
    /// When the call was made
    pub call_start: Instant,
}

/// The worker while the inner service works on the request.
pub struct Calling {
    /// The request, if it is for a footer
    pub footer_fields: Option<FooterSpawnFields>,
}

/// What the worker replies to the caller.
pub enum Reply<P, S> {
    /// The failure of the inner service; the worker is then done
    Failed(HttpError<S>),
    /// The response of the inner service
    Response {
        /// The response
        response: P,
        /// The worker once the head of the response is sent
        next: Replying,
    },
}

/// The worker while the head of the response is on its way to the caller.
pub struct Replying {
    /// The request, if it is for a footer
    pub footer_fields: Option<FooterSpawnFields>,
}

/// The worker while it waits for the next frame of the body.
pub struct Streaming {
    /// The request, if it is for a footer
    pub footer_fields: Option<FooterSpawnFields>,
    /// When the worker began to pass on the body
    pub body_start: Instant,
    /// How many frames the caller took
    pub frame_index: u64,
    /// The length of all data so far, counted for footers only
    pub bytes_sent: usize,
}

/// A frame of a response body.
pub struct Frame<F> {
    /// The frame itself
    pub payload: F,
    /// The length of the frame's data, `None` if it carries none
    pub data_len: Option<usize>,
}

/// A frame of a response body, or the failure that ended it.
pub type StreamItem<F, S> = Result<Frame<F>, HttpError<S>>;

/// What the worker does once the body has yielded.
pub enum StreamStep<F, S> {
    /// Hand the item to the caller
    Forward {
        /// The item
        item: StreamItem<F, S>,
        /// The worker while the item is on its way
        next: Forwarding,
    },
    /// The body has ended, and the worker is done
    Ended,
}

/// The worker while an item of the body is on its way to the caller.
pub struct Forwarding {
    /// The request, if it is for a footer
    pub footer_fields: Option<FooterSpawnFields>,
    /// When the worker began to pass on the body
    pub body_start: Instant,
    /// How many frames the caller took
    pub frame_index: u64,
    /// The length of all data so far, counted for footers only
    pub bytes_sent: usize,
}

/// The caller while it waits for the head of the response.
pub struct Caller {
    /// The request, if it is for a footer
    pub footer_fields: Option<FooterSpawnFields>,
    /// When the call was made
    pub call_start: Instant,
}

/// The caller while it reads the body.
pub struct SpawnBody {
    /// The request, if it is for a footer
    pub footer_fields: Option<FooterSpawnFields>,
    /// Since when a frame has been waited for, measured for footers only
    pub pending_since: Option<Instant>,
    /// How often the body was ready
    pub frame_index: u64,
}

/// Whether something that was polled is there.
pub enum Polled<I> {
    /// Not yet
    Pending,
    /// It is there
    Ready(I),
}

/// A copy of optional fields.
fn copy_fields(fields: &Option<FooterSpawnFields>) -> (r: Option<FooterSpawnFields>)
    ensures
        r == *fields,
{
    match fields {
        Some(f) => Some(f.clone()),
        None => None,
    }
}

impl<T> Spawned<T> {
    /// Both sides of a call of `inner` that is made at `call_start`.
    pub fn begin(
        inner: T,
        footer_fields: Option<FooterSpawnFields>,
        call_start: Instant,
    ) -> (r: Self)
        ensures
            r.inner == inner,
            r.worker == (Handoff { footer_fields, call_start }),
            r.caller == (Caller { footer_fields, call_start }),
    {
        let worker_footer_fields = copy_fields(&footer_fields);
        Spawned {
            inner,
            worker: Handoff { footer_fields: worker_footer_fields, call_start },
            caller: Caller { footer_fields, call_start },
        }
    }
}

impl<T: Clone> SpawnService<T> {
    /// Creates a new [`SpawnService`] from the provided service and runtime.
    pub fn new(inner: T, runtime: tokio::runtime::Handle) -> (r: Self)
        ensures
            r.inner == inner,
            r.runtime == runtime,
    {
        SpawnService { inner, runtime }
    }

    /// Begins a call that is made at `call_start`: a copy of the service for the worker, and both
    /// sides of the call, which agree on the request and on when the call was made.
    pub fn call_at(&self, req: &HttpRequest, call_start: Instant) -> (r: Spawned<T>)
        ensures
            cloned(self.inner, r.inner),
            r.worker.call_start == call_start,
            r.caller.call_start == call_start,
            r.worker.footer_fields == r.caller.footer_fields,
            crate::request::fields_view(r.caller.footer_fields) == req.footer_view(),
    {
        let inner = self.inner.clone();
        let footer_fields = footer_spawn_fields(req);
        Spawned::begin(inner, footer_fields, call_start)
    }

    /// Begins a call that is made now, as [`SpawnService::call_at`] does. The clock is read once
    /// the service is copied and the request looked at, so neither counts into the times that are
    /// measured from there. Which instant that is depends on when the call is made, so all that
    /// is said of it is that it is not before the clock's origin and the same on both sides.
    pub fn call(&self, req: &HttpRequest, clock: &Clock) -> (r: Spawned<T>)
        ensures
            cloned(self.inner, r.inner),
            r.caller.call_start.nanos >= 0,
            call_ensures(Clock::now, (clock,), r.caller.call_start),
            r.worker.call_start == r.caller.call_start,
            r.worker.footer_fields == r.caller.footer_fields,
            crate::request::fields_view(r.caller.footer_fields) == req.footer_view(),
    {
        let inner = self.inner.clone();
        let footer_fields = footer_spawn_fields(req);
        let call_start = clock.now();
        Spawned::begin(inner, footer_fields, call_start)
    }
}

impl Handoff {
    /// `next` is the worker once it has taken its first step.
    pub open spec fn hands_to(self, next: Calling) -> bool {
        next.footer_fields == self.footer_fields
    }

    /// The worker takes its first step at `at` and goes on to call the inner service. Warns if
    /// it waited long.
    pub fn start(self, at: Instant) -> (r: (Calling, Option<SlowFooter>))
        ensures
            r.0.footer_fields == self.footer_fields,
            self.hands_to(r.0),
            r.1 is Some <==> self.footer_fields is Some && at.nanos - self.call_start.nanos
                >= 500_000_000,
            r.1 matches Some(w) ==> Some(w.fields) == self.footer_fields && (w.event matches
                SlowEvent::Handoff { elapsed_ms } && elapsed_ms == (at.nanos
                - self.call_start.nanos) / 1_000_000),
            crate::slow::warning_view(r.1) == ({
                let elapsed_ms = crate::time::millis_since(at, self.call_start);
                crate::slow::warning_due(
                    self.footer_fields,
                    elapsed_ms,
                    crate::slow::SlowEventView::Handoff { elapsed_ms },
                )
            }),
    {
        let mut warning: Option<SlowFooter> = None;
        if let Some(fields) = &self.footer_fields {
            let elapsed = at.duration_since(self.call_start);
            if is_slow(elapsed) {
                let event = SlowEvent::Handoff { elapsed_ms: elapsed.as_millis() };
                warning = Some(SlowFooter { fields: fields.clone(), event });
            }
        }
        (Calling { footer_fields: self.footer_fields }, warning)
    }
}

/// How a failed outcome reads in a message, `None` for a success.
pub open spec fn failure_view<P, S>(outcome: Result<P, HttpError<S>>) -> Option<Seq<char>> {
    match outcome {
        Ok(_) => None,
        Err(e) => Some(e.text_view()),
    }
}

/// How a failed outcome reads in a message, `None` for a success.
fn failure_text<P, S>(outcome: &Result<P, HttpError<S>>) -> (r: Option<String>)
    ensures
        crate::slow::text_view(r) == failure_view(*outcome),
{
    match outcome {
        Ok(_) => None,
        Err(e) => Some(e.text()),
    }
}

impl Calling {
    /// What the worker replies for an outcome of the inner service.
    pub open spec fn reply_to<P, S>(self, outcome: Result<P, HttpError<S>>) -> Reply<P, S> {
        match outcome {
            Ok(response) => Reply::Response {
                response,
                next: Replying { footer_fields: self.footer_fields },
            },
            Err(e) => Reply::Failed(e),
        }
    }

    /// The inner service, called at `inner_start`, has replied at `at`: its failure or its
    /// response goes to the caller as it is. Warns if the inner service took long.
    pub fn returned<P, S>(
        self,
        inner_start: Instant,
        at: Instant,
        outcome: Result<P, HttpError<S>>,
    ) -> (r: (Reply<P, S>, Option<SlowFooter>))
        ensures
            r.0 == self.reply_to(outcome),
            outcome matches Ok(response) ==> (r.0 matches Reply::Response { response: out, next }
                && out == response && next.footer_fields == self.footer_fields),
            outcome matches Err(e) ==> r.0 == Reply::<P, S>::Failed(e),
            r.1 is Some <==> self.footer_fields is Some && at.nanos - inner_start.nanos
                >= 500_000_000,
            r.1 matches Some(w) ==> Some(w.fields) == self.footer_fields && (w.event matches
                SlowEvent::InnerCall { elapsed_ms, error } && elapsed_ms == (at.nanos
                - inner_start.nanos) / 1_000_000 && (error is Some <==> outcome is Err) && (
            outcome matches Err(e) ==> error->0@ == e.text_view())),
            crate::slow::warning_view(r.1) == ({
                let elapsed_ms = crate::time::millis_since(at, inner_start);
                crate::slow::warning_due(
                    self.footer_fields,
                    elapsed_ms,
                    crate::slow::SlowEventView::InnerCall {
                        elapsed_ms,
                        error: failure_view(outcome),
                    },
                )
            }),
    {
        let mut warning: Option<SlowFooter> = None;
        if let Some(fields) = &self.footer_fields {
            let elapsed = at.duration_since(inner_start);
            if is_slow(elapsed) {
                let event = SlowEvent::InnerCall {
                    elapsed_ms: elapsed.as_millis(),
                    error: failure_text(&outcome),
                };
                warning = Some(SlowFooter { fields: fields.clone(), event });
            }
        }
        match outcome {
            Ok(response) => (
                Reply::Response { response, next: Replying { footer_fields: self.footer_fields } },
                warning,
            ),
            Err(e) => (Reply::Failed(e), warning),
        }
    }
}

impl Replying {
    /// `next` is the worker when it begins with the body at `body_start`.
    pub open spec fn begins(self, body_start: Instant, next: Streaming) -> bool {
        &&& next.footer_fields == self.footer_fields
        &&& next.body_start == body_start
        &&& next.frame_index == 0
        &&& next.bytes_sent == 0
    }

    /// The head of the response was sent. If the caller took it, the worker goes on with the
    /// body at `body_start`, else it is done.
    pub fn replied(self, taken: bool, body_start: Instant) -> (r: Option<Streaming>)
        ensures
            r == (if taken {
                Some(
                    Streaming {
                        footer_fields: self.footer_fields,
                        body_start,
                        frame_index: 0,
                        bytes_sent: 0,
                    },
                )
            } else {
                None
            }),
            r is Some <==> taken,
            r matches Some(next) ==> self.begins(body_start, next),
    {
        if !taken {
            return None;
        }
        Some(
            Streaming {
                footer_fields: self.footer_fields,
                body_start,
                frame_index: 0,
                bytes_sent: 0,
            },
        )
    }
}

/// The length of the data in an item, `None` if it carries none.
pub open spec fn item_len<F, S>(item: StreamItem<F, S>) -> Option<usize> {
    match item {
        Ok(frame) => frame.data_len,
        Err(_) => None,
    }
}

/// What an item adds to the bytes sent.
pub open spec fn item_bytes<F, S>(item: StreamItem<F, S>) -> int {
    match item_len(item) {
        Some(len) => len as int,
        None => 0,
    }
}

impl Streaming {
    /// The bytes sent once the item is counted. Bytes are counted for footers only.
    pub open spec fn bytes_with<F, S>(self, item: StreamItem<F, S>) -> int {
        if self.footer_fields is Some {
            self.bytes_sent + item_bytes(item)
        } else {
            self.bytes_sent as int
        }
    }

    /// The item may be passed on: its bytes can still be counted.
    pub open spec fn has_room_for<F, S>(self, item: Option<StreamItem<F, S>>) -> bool {
        match item {
            Some(i) => self.bytes_with(i) <= usize::MAX,
            None => true,
        }
    }

    /// `next` is the worker while `item` is on its way.
    pub open spec fn counts<F, S>(self, item: StreamItem<F, S>, next: Forwarding) -> bool {
        &&& next.footer_fields == self.footer_fields
        &&& next.body_start == self.body_start
        &&& next.frame_index == self.frame_index
        &&& next.bytes_sent == self.bytes_with(item)
    }

    /// `step` is what the worker does once the body has yielded: it hands an item over as it is,
    /// and is done when the body ends.
    pub open spec fn passes_on<F, S>(
        self,
        item: Option<StreamItem<F, S>>,
        step: StreamStep<F, S>,
    ) -> bool {
        match item {
            Some(i) => step matches StreamStep::Forward { item: out, next } && out == i
                && self.counts(i, next),
            None => step is Ended,
        }
    }

    /// The warning that is due when the body yields `item` at `at`.
    pub open spec fn stream_warning<F, S>(
        self,
        at: Instant,
        item: Option<StreamItem<F, S>>,
    ) -> Option<crate::slow::SlowFooterView> {
        let elapsed_ms = crate::time::millis_since(at, self.body_start);
        crate::slow::warning_due(
            self.footer_fields,
            elapsed_ms,
            match item {
                Some(i) => crate::slow::SlowEventView::BodyFrame {
                    elapsed_ms,
                    frame_index: self.frame_index as int,
                    frame_bytes: item_len(i),
                    bytes_sent: self.bytes_with(i),
                    error: failure_view(i),
                },
                None => crate::slow::SlowEventView::BodyStream {
                    elapsed_ms,
                    frame_count: self.frame_index as int,
                    bytes_sent: self.bytes_sent as int,
                },
            },
        )
    }

    /// Whether the bytes of the item can still be counted.
    pub fn can_take<F, S>(&self, item: &Option<StreamItem<F, S>>) -> (r: bool)
        ensures
            r == self.has_room_for(*item),
            !r <==> self.footer_fields is Some && (item matches Some(Ok(frame))
                && frame.data_len is Some && self.bytes_sent + frame.data_len->0 > usize::MAX),
    {
        if self.footer_fields.is_none() {
            return true;
        }
        match item {
            Some(Ok(frame)) => match frame.data_len {
                Some(len) => len <= usize::MAX - self.bytes_sent,
                None => true,
            },
            _ => true,
        }
    }

    /// The body has yielded at `at`: an item goes to the caller as it is, and the end of the
    /// body ends the worker. Warns if the body has taken long.
    pub fn next<F, S>(self, at: Instant, item: Option<StreamItem<F, S>>) -> (r: (
        StreamStep<F, S>,
        Option<SlowFooter>,
    ))
        requires
            self.has_room_for(item),
        ensures
            self.passes_on(item, r.0),
            item is None ==> r.0 is Ended,
            item matches Some(i) ==> (r.0 matches StreamStep::Forward { item: out, next } && out
                == i && next.footer_fields == self.footer_fields && next.body_start
                == self.body_start && next.frame_index == self.frame_index && next.bytes_sent
                == self.bytes_sent + (if self.footer_fields is Some && i is Ok
                && i->Ok_0.data_len is Some {
                i->Ok_0.data_len->0 as int
            } else {
                0
            })),
            r.1 is Some <==> self.footer_fields is Some && at.nanos - self.body_start.nanos
                >= 500_000_000,
            r.1 matches Some(w) ==> Some(w.fields) == self.footer_fields,
            r.1 matches Some(w) ==> (item matches Some(i) ==> (w.event matches
                SlowEvent::BodyFrame { elapsed_ms, frame_index, frame_bytes, bytes_sent, error }
                && elapsed_ms == (at.nanos - self.body_start.nanos) / 1_000_000 && frame_index
                == self.frame_index && bytes_sent == r.0->next.bytes_sent && frame_bytes == (
            if i is Ok {
                i->Ok_0.data_len
            } else {
                None
            }) && (error is Some <==> i is Err) && (i matches Err(e) ==> error->0@
                == e.text_view()))),
            r.1 matches Some(w) ==> (item is None ==> (w.event matches SlowEvent::BodyStream {
                elapsed_ms,
                frame_count,
                bytes_sent,
            } && elapsed_ms == (at.nanos - self.body_start.nanos) / 1_000_000 && frame_count
                == self.frame_index && bytes_sent == self.bytes_sent)),
            crate::slow::warning_view(r.1) == self.stream_warning(at, item),
    {
        let mut warning: Option<SlowFooter> = None;
        match item {
            Some(i) => {
                let mut bytes_sent: usize = self.bytes_sent;
                if let Some(fields) = &self.footer_fields {
                    let elapsed = at.duration_since(self.body_start);
                    let frame_bytes = match &i {
                        Ok(frame) => frame.data_len,
                        Err(_) => None,
                    };
                    if let Some(len) = frame_bytes {
                        bytes_sent = bytes_sent + len;
                    }
                    if is_slow(elapsed) {
                        let event = SlowEvent::BodyFrame {
                            elapsed_ms: elapsed.as_millis(),
                            frame_index: self.frame_index,
                            frame_bytes,
                            bytes_sent,
                            error: failure_text(&i),
                        };
                        warning = Some(SlowFooter { fields: fields.clone(), event });
                    }
                }
                let next = Forwarding {
                    footer_fields: self.footer_fields,
                    body_start: self.body_start,
                    frame_index: self.frame_index,
                    bytes_sent,
                };
                (StreamStep::Forward { item: i, next }, warning)
            },
            None => {
                if let Some(fields) = &self.footer_fields {
                    let elapsed = at.duration_since(self.body_start);
                    if is_slow(elapsed) {
                        let event = SlowEvent::BodyStream {
                            elapsed_ms: elapsed.as_millis(),
                            frame_count: self.frame_index,
                            bytes_sent: self.bytes_sent,
                        };
                        warning = Some(SlowFooter { fields: fields.clone(), event });
                    }
                }
                (StreamStep::Ended, warning)
            },
        }
    }
}

impl Forwarding {
    /// `next` is the worker once the caller has taken the item.
    pub open spec fn resumes(self, next: Streaming) -> bool {
        &&& next.footer_fields == self.footer_fields
        &&& next.body_start == self.body_start
        &&& next.frame_index == self.frame_index + 1
        &&& next.bytes_sent == self.bytes_sent
    }

    /// The item was sent. If the caller took it, the worker goes on with the next frame, else it
    /// is done.
    pub fn forwarded(self, taken: bool) -> (r: Option<Streaming>)
        requires
            taken ==> self.frame_index < u64::MAX,
        ensures
            r is Some <==> taken,
            r matches Some(next) ==> self.resumes(next),
            r matches Some(next) ==> next.footer_fields == self.footer_fields && next.body_start
                == self.body_start && next.frame_index == self.frame_index + 1 && next.bytes_sent
                == self.bytes_sent,
    {
        if !taken {
            return None;
        }
        Some(
            Streaming {
                footer_fields: self.footer_fields,
                body_start: self.body_start,
                frame_index: self.frame_index + 1,
                bytes_sent: self.bytes_sent,
            },
        )
    }
}

/// What a call gives back for what the caller received, where `None` stands for a worker that
/// went away.
pub open spec fn answer<P, S>(
    footer_fields: Option<FooterSpawnFields>,
    reply: Option<Result<(P, Instant), HttpError<S>>>,
) -> Result<(P, SpawnBody), HttpError<S>> {
    match reply {
        None => Err(
            HttpError {
                kind: HttpErrorKind::Interrupted,
                source: ErrorSource::Spawn(SpawnError {  }),
            },
        ),
        Some(Err(e)) => Err(e),
        Some(Ok((parts, _))) => Ok(
            (parts, SpawnBody { footer_fields, pending_since: None, frame_index: 0 }),
        ),
    }
}

impl Caller {
    /// The caller received at `at` what the worker replied, with the moment at which the worker
    /// had it, or learned that the worker went away. The call gives back the head with a body to
    /// read, or the failure. Warns if the head took long; `lag_at` is the moment at which the
    /// head's way to the caller is measured.
    pub fn received<P, S>(
        self,
        reply: Option<Result<(P, Instant), HttpError<S>>>,
        at: Instant,
        lag_at: Instant,
    ) -> (r: (Result<(P, SpawnBody), HttpError<S>>, Option<SlowFooter>))
        ensures
            r.0 == answer(self.footer_fields, reply),
            reply is None ==> (r.0 matches Err(e) && e.kind is Interrupted && e.source is Spawn),
            reply matches Some(Err(e)) ==> r.0 == Err::<(P, SpawnBody), _>(e),
            reply matches Some(Ok((parts, _))) ==> (r.0 matches Ok((head, body)) && head == parts
                && body.footer_fields == self.footer_fields && body.pending_since is None
                && body.frame_index == 0),
            r.1 is Some <==> self.footer_fields is Some && reply is Some && reply->0 is Ok
                && at.nanos - self.call_start.nanos >= 500_000_000,
            r.1 matches Some(w) ==> Some(w.fields) == self.footer_fields && (w.event matches
                SlowEvent::ResponseParts {
                elapsed_ms,
                worker_elapsed_ms,
                response_parts_recv_lag_ms,
            } && elapsed_ms == (at.nanos - self.call_start.nanos) / 1_000_000 && (
            reply matches Some(Ok((_, ready_at))) ==> worker_elapsed_ms == (if ready_at.nanos
                >= self.call_start.nanos {
                (ready_at.nanos - self.call_start.nanos) / 1_000_000
            } else {
                0
            }) && response_parts_recv_lag_ms == (if lag_at.nanos >= ready_at.nanos {
                (lag_at.nanos - ready_at.nanos) / 1_000_000
            } else {
                0
            }))),
            crate::slow::warning_view(r.1) == (match reply {
                Some(Ok((_, ready_at))) => {
                    let elapsed_ms = crate::time::millis_since(at, self.call_start);
                    crate::slow::warning_due(
                        self.footer_fields,
                        elapsed_ms,
                        crate::slow::SlowEventView::ResponseParts {
                            elapsed_ms,
                            worker_elapsed_ms: crate::time::millis_since(ready_at, self.call_start),
                            response_parts_recv_lag_ms: crate::time::millis_since(lag_at, ready_at),
                        },
                    )
                },
                _ => None,
            }),
    {
        match reply {
            None => (Err(HttpError::from(SpawnError {  })), None),
            Some(Err(e)) => (Err(e), None),
            Some(Ok((parts, ready_at))) => {
                let mut warning: Option<SlowFooter> = None;
                if let Some(fields) = &self.footer_fields {
                    let elapsed = at.duration_since(self.call_start);
                    if is_slow(elapsed) {
                        let worker_elapsed = ready_at.duration_since(self.call_start);
                        let response_parts_recv_lag = lag_at.duration_since(ready_at);
                        let event = SlowEvent::ResponseParts {
                            elapsed_ms: elapsed.as_millis(),
                            worker_elapsed_ms: worker_elapsed.as_millis(),
                            response_parts_recv_lag_ms: response_parts_recv_lag.as_millis(),
                        };
                        warning = Some(SlowFooter { fields: fields.clone(), event });
                    }
                }
                let body = SpawnBody {
                    footer_fields: self.footer_fields,
                    pending_since: None,
                    frame_index: 0,
                };
                (Ok((parts, body)), warning)
            },
        }
    }
}

impl SpawnBody {
    /// The body once it was polled at `at`.
    pub open spec fn after_poll<I>(self, polled: Polled<I>, at: Instant) -> SpawnBody {
        match polled {
            Polled::Pending => SpawnBody {
                pending_since: if self.footer_fields is Some && self.pending_since is None {
                    Some(at)
                } else {
                    self.pending_since
                },
                ..self
            },
            Polled::Ready(_) => SpawnBody {
                pending_since: None,
                frame_index: (self.frame_index + 1) as u64,
                ..self
            },
        }
    }

    /// The warning that is due when the body was polled at `at`.
    pub open spec fn poll_warning<I>(self, polled: Polled<I>, at: Instant) -> Option<
        crate::slow::SlowFooterView,
    > {
        match (polled, self.pending_since) {
            (Polled::Ready(_), Some(since)) => {
                let elapsed_ms = crate::time::millis_since(at, since);
                crate::slow::warning_due(
                    self.footer_fields,
                    elapsed_ms,
                    crate::slow::SlowEventView::BodyRecv {
                        elapsed_ms,
                        frame_index: self.frame_index as int,
                    },
                )
            },
            _ => None,
        }
    }

    /// The frames were polled at `at`: what was there goes to the reader as it is. Warns if the
    /// reader has waited long for it.
    pub fn poll_frame<I>(&mut self, polled: Polled<I>, at: Instant) -> (r: (
        Polled<I>,
        Option<SlowFooter>,
    ))
        requires
            polled is Ready ==> old(self).frame_index < u64::MAX,
        ensures
            r.0 == polled,
            *final(self) == old(self).after_poll(polled, at),
            final(self).footer_fields == old(self).footer_fields,
            polled is Ready ==> final(self).frame_index == old(self).frame_index + 1,
            polled is Ready ==> final(self).pending_since is None,
            polled is Pending ==> final(self).frame_index == old(self).frame_index,
            polled is Pending && old(self).footer_fields is Some && old(self).pending_since is None
                ==> final(self).pending_since == Some(at),
            polled is Pending && (old(self).footer_fields is None || old(self).pending_since
                is Some) ==> final(self).pending_since == old(self).pending_since,
            r.1 is Some <==> polled is Ready && old(self).footer_fields is Some && old(
                self,
            ).pending_since is Some && at.nanos - old(self).pending_since->0.nanos >= 500_000_000,
            r.1 matches Some(w) ==> Some(w.fields) == old(self).footer_fields && (w.event matches
                SlowEvent::BodyRecv { elapsed_ms, frame_index } && elapsed_ms == (at.nanos - old(
                self,
            ).pending_since->0.nanos) / 1_000_000 && frame_index == old(self).frame_index),
            crate::slow::warning_view(r.1) == old(self).poll_warning(polled, at),
    {
        match polled {
            Polled::Pending => {
                if self.footer_fields.is_some() && self.pending_since.is_none() {
                    self.pending_since = Some(at);
                }
                (Polled::Pending, None)
            },
            Polled::Ready(item) => {
                let mut warning: Option<SlowFooter> = None;
                let pending_since = self.pending_since.take();
                if let Some(fields) = &self.footer_fields {
                    if let Some(since) = pending_since {
                        let elapsed = at.duration_since(since);
                        if is_slow(elapsed) {
                            let event = SlowEvent::BodyRecv {
                                elapsed_ms: elapsed.as_millis(),
                                frame_index: self.frame_index,
                            };
                            warning = Some(SlowFooter { fields: fields.clone(), event });
                        }
                    }
                }
                self.frame_index = self.frame_index + 1;
                (Polled::Ready(item), warning)
            },
        }
    }
}

} // verus!
