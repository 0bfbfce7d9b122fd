//! Warnings about footer requests that are slow to cross between runtimes.

use vstd::prelude::*;

use crate::request::FooterSpawnFields;
use crate::time::Duration;

verus! {

/// A step of a footer request that takes this many milliseconds is worth a warning.
pub const SLOW_FOOTER_SPAWN_LOG_THRESHOLD_MS: u128 = 500;

/// The step of a spawned request that was slow, with what was measured.
#[derive(Debug)]
pub enum SlowEvent {
    /// The worker waited to be run
    Handoff {
        /// From the call to the worker's first step
        elapsed_ms: u128,
    },
    /// The inner service took its time to reply
    InnerCall {
        /// From the inner call to its reply
        elapsed_ms: u128,
        /// The failure that it replied with, if it failed
        error: Option<String>,
    },
    /// A frame of the body was late
    BodyFrame {
        /// From the start of the body to this frame
        elapsed_ms: u128,
        /// How many frames were handed over before this one
        frame_index: u64,
        /// The length of the frame's data, if it carries data
        frame_bytes: Option<usize>,
        /// The length of all data so far, this frame included
        bytes_sent: usize,
        /// The failure that stands in place of the frame, if it failed
        error: Option<String>,
    },
    /// The whole body was late
    BodyStream {
        /// From the start of the body to its end
        elapsed_ms: u128,
        /// How many frames were handed over
        frame_count: u64,
        /// The length of all data
        bytes_sent: usize,
    },
    /// The head of the response was late
    ResponseParts {
        /// From the call to the arrival of the head
        elapsed_ms: u128,
        /// From the call to the moment the worker had the head
        worker_elapsed_ms: u128,
        /// From the moment the worker had the head to its arrival
        response_parts_recv_lag_ms: u128,
    },
    /// The reader of the body waited for a frame
    BodyRecv {
        /// From the first time that no frame was there to the frame's arrival
        elapsed_ms: u128,
        /// How many frames arrived before this one
        frame_index: u64,
    },
}

/// The numbers and texts in a [`SlowEvent`].
#[verifier::ext_equal]
pub enum SlowEventView {
    /// See [`SlowEvent::Handoff`]
    Handoff { elapsed_ms: int },
    /// See [`SlowEvent::InnerCall`]
    InnerCall { elapsed_ms: int, error: Option<Seq<char>> },
    /// See [`SlowEvent::BodyFrame`]
    BodyFrame {
        elapsed_ms: int,
        frame_index: int,
        frame_bytes: Option<usize>,
        bytes_sent: int,
        error: Option<Seq<char>>,
    },
    /// See [`SlowEvent::BodyStream`]
    BodyStream { elapsed_ms: int, frame_count: int, bytes_sent: int },
    /// See [`SlowEvent::ResponseParts`]
    ResponseParts {
        elapsed_ms: int,
        worker_elapsed_ms: int,
        response_parts_recv_lag_ms: int,
    },
    /// See [`SlowEvent::BodyRecv`]
    BodyRecv { elapsed_ms: int, frame_index: int },
}

/// The characters of an optional text.
pub open spec fn text_view(text: Option<String>) -> Option<Seq<char>> {
    match text {
        Some(t) => Some(t@),
        None => None,
    }
}

impl View for SlowEvent {
    type V = SlowEventView;

    open spec fn view(&self) -> SlowEventView {
        match *self {
            SlowEvent::Handoff { elapsed_ms } => SlowEventView::Handoff {
                elapsed_ms: elapsed_ms as int,
            },
            SlowEvent::InnerCall { elapsed_ms, error } => SlowEventView::InnerCall {
                elapsed_ms: elapsed_ms as int,
                error: text_view(error),
            },
            SlowEvent::BodyFrame { elapsed_ms, frame_index, frame_bytes, bytes_sent, error } =>
                SlowEventView::BodyFrame {
                elapsed_ms: elapsed_ms as int,
                frame_index: frame_index as int,
                frame_bytes,
                bytes_sent: bytes_sent as int,
                error: text_view(error),
            },
            SlowEvent::BodyStream { elapsed_ms, frame_count, bytes_sent } =>
                SlowEventView::BodyStream {
                elapsed_ms: elapsed_ms as int,
                frame_count: frame_count as int,
                bytes_sent: bytes_sent as int,
            },
            SlowEvent::ResponseParts {
                elapsed_ms,
                worker_elapsed_ms,
                response_parts_recv_lag_ms,
            } => SlowEventView::ResponseParts {
                elapsed_ms: elapsed_ms as int,
                worker_elapsed_ms: worker_elapsed_ms as int,
                response_parts_recv_lag_ms: response_parts_recv_lag_ms as int,
            },
            SlowEvent::BodyRecv { elapsed_ms, frame_index } => SlowEventView::BodyRecv {
                elapsed_ms: elapsed_ms as int,
                frame_index: frame_index as int,
            },
        }
    }
}

/// A warning about a slow step of a footer request.
#[derive(Debug)]
pub struct SlowFooter {
    /// The request
    pub fields: FooterSpawnFields,
    /// The step
    pub event: SlowEvent,
}

/// The text and numbers of a [`SlowFooter`].
#[verifier::ext_equal]
pub struct SlowFooterView {
    /// The request
    pub fields: crate::request::FooterSpawnFieldsView,
    /// The step
    pub event: SlowEventView,
}

impl View for SlowFooter {
    type V = SlowFooterView;

    open spec fn view(&self) -> SlowFooterView {
        SlowFooterView { fields: self.fields@, event: self.event@ }
    }
}

/// The text and numbers of an optional warning.
pub open spec fn warning_view(warning: Option<SlowFooter>) -> Option<SlowFooterView> {
    match warning {
        Some(w) => Some(w@),
        None => None,
    }
}

/// The warning that is due for a step that took `elapsed_ms`: one with these fields and this
/// event if the request is for a footer and the step reached the threshold, else none.
pub open spec fn warning_due(
    fields: Option<FooterSpawnFields>,
    elapsed_ms: int,
    event: SlowEventView,
) -> Option<SlowFooterView> {
    match fields {
        Some(f) => if elapsed_ms >= SLOW_FOOTER_SPAWN_LOG_THRESHOLD_MS {
            Some(SlowFooterView { fields: f@, event })
        } else {
            None
        },
        None => None,
    }
}

/// Whether a step that took this long is worth a warning.
pub fn is_slow(elapsed: Duration) -> (r: bool)
    ensures
        r == (elapsed.nanos as int / 1_000_000 >= SLOW_FOOTER_SPAWN_LOG_THRESHOLD_MS),
        r <==> elapsed.nanos >= 500_000_000,
{
    elapsed.as_millis() >= SLOW_FOOTER_SPAWN_LOG_THRESHOLD_MS
}

impl SlowEvent {
    /// The sentence that the warning is logged under.
    pub open spec fn message_view(self) -> Seq<char> {
        match self {
            SlowEvent::Handoff { .. } => "Slow object_store footer spawn handoff"@,
            SlowEvent::InnerCall { .. } => "Slow object_store footer spawned inner HTTP call"@,
            SlowEvent::BodyFrame { .. } => "Slow object_store footer spawned body frame"@,
            SlowEvent::BodyStream { .. } => "Slow object_store footer spawned body stream"@,
            SlowEvent::ResponseParts { .. } => "Slow object_store footer spawned response parts"@,
            SlowEvent::BodyRecv { .. } => "Slow object_store footer spawned body recv"@,
        }
    }

    /// The sentence that the warning is logged under.
    pub fn message(&self) -> (r: &'static str)
        ensures
            r@ == self.message_view(),
            self is Handoff ==> r@ == "Slow object_store footer spawn handoff"@,
            self is InnerCall ==> r@ == "Slow object_store footer spawned inner HTTP call"@,
            self is BodyFrame ==> r@ == "Slow object_store footer spawned body frame"@,
            self is BodyStream ==> r@ == "Slow object_store footer spawned body stream"@,
            self is ResponseParts ==> r@ == "Slow object_store footer spawned response parts"@,
            self is BodyRecv ==> r@ == "Slow object_store footer spawned body recv"@,
    {
        match self {
            SlowEvent::Handoff { .. } => "Slow object_store footer spawn handoff",
            SlowEvent::InnerCall { .. } => "Slow object_store footer spawned inner HTTP call",
            SlowEvent::BodyFrame { .. } => "Slow object_store footer spawned body frame",
            SlowEvent::BodyStream { .. } => "Slow object_store footer spawned body stream",
            SlowEvent::ResponseParts { .. } => "Slow object_store footer spawned response parts",
            SlowEvent::BodyRecv { .. } => "Slow object_store footer spawned body recv",
        }
    }
}


/// A footer is warned about exactly from half a second on, with its own fields and the step as it
/// was measured. No other request is warned about.
pub proof fn a_warning_is_due_from_half_a_second_on(
    fields: Option<FooterSpawnFields>,
    elapsed_ms: int,
    event: SlowEventView,
)
    ensures
        ({
            let due = warning_due(fields, elapsed_ms, event);
            &&& due is Some <==> fields is Some && elapsed_ms >= 500
            &&& due matches Some(w) ==> w.fields == fields->0@ && w.event == event
        }),
{
}

/// A step that is slower than one that is warned about is warned about too, for the same request.
pub proof fn a_slower_step_is_warned_about_too(
    fields: Option<FooterSpawnFields>,
    faster_ms: int,
    slower_ms: int,
    faster: SlowEventView,
    slower: SlowEventView,
)
    requires
        faster_ms <= slower_ms,
        warning_due(fields, faster_ms, faster) is Some,
    ensures
        warning_due(fields, slower_ms, slower) is Some,
        warning_due(fields, slower_ms, slower)->0.fields == warning_due(
            fields,
            faster_ms,
            faster,
        )->0.fields,
{
}

/// A warning is seen as it is: its fields, and every number and text of its event.
pub proof fn a_warning_is_seen_as_it_is(warning: SlowFooter)
    ensures
        warning_view(Some(warning)) == Some(warning@),
        warning_view(None) is None,
        warning@.fields == warning.fields@,
        warning@.event == warning.event@,
        warning.event matches SlowEvent::Handoff { elapsed_ms } ==> (warning.event@ matches
            SlowEventView::Handoff { elapsed_ms: ms } && ms == elapsed_ms),
        warning.event matches SlowEvent::InnerCall { elapsed_ms, error } ==> (warning.event@ matches
            SlowEventView::InnerCall { elapsed_ms: ms, error: text } && ms == elapsed_ms
            && text is Some == error is Some && (error is Some ==> text->0 == error->0@)),
        warning.event matches SlowEvent::BodyFrame {
            elapsed_ms,
            frame_index,
            frame_bytes,
            bytes_sent,
            error,
        } ==> (warning.event@ matches SlowEventView::BodyFrame {
            elapsed_ms: ms,
            frame_index: index,
            frame_bytes: len,
            bytes_sent: sent,
            error: text,
        } && ms == elapsed_ms && index == frame_index && len == frame_bytes && sent == bytes_sent
            && text is Some == error is Some && (error is Some ==> text->0 == error->0@)),
        warning.event matches SlowEvent::BodyStream { elapsed_ms, frame_count, bytes_sent } ==> (
        warning.event@ matches SlowEventView::BodyStream {
            elapsed_ms: ms,
            frame_count: count,
            bytes_sent: sent,
        } && ms == elapsed_ms && count == frame_count && sent == bytes_sent),
        warning.event matches SlowEvent::ResponseParts {
            elapsed_ms,
            worker_elapsed_ms,
            response_parts_recv_lag_ms,
        } ==> (warning.event@ matches SlowEventView::ResponseParts {
            elapsed_ms: ms,
            worker_elapsed_ms: worker_ms,
            response_parts_recv_lag_ms: lag_ms,
        } && ms == elapsed_ms && worker_ms == worker_elapsed_ms && lag_ms
            == response_parts_recv_lag_ms),
        warning.event matches SlowEvent::BodyRecv { elapsed_ms, frame_index } ==> (
        warning.event@ matches SlowEventView::BodyRecv { elapsed_ms: ms, frame_index: index } && ms
            == elapsed_ms && index == frame_index),
{
}

} // verus!
