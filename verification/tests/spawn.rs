//! Requests that run on another runtime.

use object_store_client::error::{Described, ErrorSource, HttpError, HttpErrorKind, SpawnError};
use object_store_client::request::{FooterSpawnFields, HttpRequest};
use object_store_client::slow::{is_slow, SlowEvent, SlowFooter};
use object_store_client::spawn::{
    Caller, Calling, Frame, Handoff, Polled, Reply, Replying, SpawnBody, SpawnService, Spawned,
    StreamItem, StreamStep, Streaming,
};
use object_store_client::time::{Clock, Duration, Instant};

const MILLI: i128 = 1_000_000;

fn at(millis: i128) -> Instant {
    Instant { nanos: millis * MILLI }
}

fn footer() -> Option<FooterSpawnFields> {
    Some(FooterSpawnFields {
        method: "GET".to_string(),
        host: "h".to_string(),
        path: "/a.footer".to_string(),
    })
}

fn failure(error: u8, text: &str) -> HttpError<u8> {
    HttpError {
        kind: HttpErrorKind::Timeout,
        source: ErrorSource::Service(Described { error, text: text.to_string() }),
    }
}

fn data(payload: &str) -> StreamItem<String, u8> {
    Ok(Frame { payload: payload.to_string(), data_len: Some(payload.len()) })
}

fn trailers() -> StreamItem<String, u8> {
    Ok(Frame { payload: "trailers".to_string(), data_len: None })
}

/// The event of a warning about the footer
fn event(warning: Option<SlowFooter>) -> SlowEvent {
    let warning = warning.unwrap();
    assert_eq!(warning.fields.method, "GET");
    assert_eq!(warning.fields.host, "h");
    assert_eq!(warning.fields.path, "/a.footer");
    warning.event
}

fn streaming(footer_fields: Option<FooterSpawnFields>) -> Streaming {
    Replying { footer_fields }.replied(true, at(0)).unwrap()
}

/// The worker once the caller has taken the item
fn pass(
    worker: Streaming,
    millis: i128,
    item: StreamItem<String, u8>,
) -> (Streaming, Option<SlowFooter>) {
    let (step, warning) = worker.next(at(millis), Some(item));
    match step {
        StreamStep::Forward { next, .. } => (next.forwarded(true).unwrap(), warning),
        StreamStep::Ended => panic!("the body has not ended"),
    }
}

#[test]
fn test_spawn() {
    let runtime = tokio::runtime::Runtime::new().unwrap();
    let service = SpawnService::new("BANANAS".to_string(), runtime.handle().clone());
    let clock = Clock::start();
    let req = HttpRequest {
        method: "GET".to_string(),
        authority: Some("127.0.0.1:80".to_string()),
        path_and_query: Some("/".to_string()),
    };
    let Spawned { inner, worker, caller } = service.call(&req, &clock);

    type Head = Result<(&'static str, Instant), HttpError<u8>>;
    let (send, recv) = tokio::sync::oneshot::channel::<Head>();
    let (sender, mut receiver) = tokio::sync::mpsc::unbounded_channel::<StreamItem<String, u8>>();
    let worker_clock = Clock::with_origin(clock.origin);
    service.runtime.spawn(async move {
        let clock = worker_clock;
        let (calling, _) = worker.start(clock.now());
        let inner_start = clock.now();
        tokio::task::yield_now().await;
        let outcome: Result<String, HttpError<u8>> = Ok(inner);
        let (reply, _) = calling.returned(inner_start, clock.now(), outcome);
        let (response, next) = match reply {
            Reply::Response { response, next } => (response, next),
            Reply::Failed(_) => panic!("the service does not fail"),
        };
        let taken = send.send(Ok(("200 OK", clock.now()))).is_ok();
        let mut streaming = next.replied(taken, clock.now());
        let mut frames = vec![data(&response)].into_iter();
        while let Some(worker) = streaming {
            match worker.next(clock.now(), frames.next()).0 {
                StreamStep::Forward { item, next } => {
                    let taken = sender.send(item).is_ok();
                    streaming = next.forwarded(taken);
                }
                StreamStep::Ended => return,
            }
        }
    });

    let reply = recv.blocking_recv().ok();
    let (answer, warning) = caller.received(reply, clock.now(), clock.now());
    assert!(warning.is_none());
    let (head, mut body) = match answer {
        Ok(answer) => answer,
        Err(_) => panic!("the call does not fail"),
    };
    assert_eq!(head, "200 OK");
    let mut payload = String::new();
    while let Some(item) = receiver.blocking_recv() {
        match body.poll_frame(Polled::Ready(item), clock.now()).0 {
            Polled::Ready(Ok(frame)) => payload.push_str(&frame.payload),
            _ => panic!("every frame arrives"),
        }
    }
    assert_eq!(payload, "BANANAS");
    assert_eq!(body.frame_index, 1);
}

#[test]
fn both_sides_know_the_footer() {
    let runtime = tokio::runtime::Runtime::new().unwrap();
    let service = SpawnService::new(7u8, runtime.handle().clone());
    assert_eq!(service.inner, 7);
    let mut req = HttpRequest {
        method: "GET".to_string(),
        authority: Some("h:80".to_string()),
        path_and_query: Some("/a.footer?x".to_string()),
    };
    let clock = Clock::start();
    let before = clock.now();
    let spawned = service.call(&req, &clock);
    let after = clock.now();
    assert_eq!(spawned.inner, 7);
    assert!(before.nanos <= spawned.worker.call_start.nanos);
    assert!(spawned.worker.call_start.nanos <= after.nanos);
    assert_eq!(spawned.caller.call_start, spawned.worker.call_start);
    let fields = spawned.worker.footer_fields.unwrap();
    assert_eq!(fields.host, "h");
    assert_eq!(fields.path, "/a.footer");
    assert_eq!(spawned.caller.footer_fields.unwrap().path, "/a.footer");

    req.path_and_query = Some("/a".to_string());
    let spawned = service.call(&req, &clock);
    assert!(spawned.worker.footer_fields.is_none());
    assert!(spawned.caller.footer_fields.is_none());
}

#[test]
fn both_sides_know_when_the_call_was_made() {
    let runtime = tokio::runtime::Runtime::new().unwrap();
    let service = SpawnService::new(7u8, runtime.handle().clone());
    let req = HttpRequest {
        method: "GET".to_string(),
        authority: Some("h".to_string()),
        path_and_query: Some("/a.footer".to_string()),
    };
    let Spawned { inner, worker, caller } = service.call_at(&req, at(1000));
    assert_eq!(inner, 7);
    assert_eq!(worker.call_start, at(1000));
    assert_eq!(caller.call_start, at(1000));
    assert_eq!(caller.footer_fields.as_ref().unwrap().path, "/a.footer");
    let (_, warning) = worker.start(at(1600));
    assert!(matches!(event(warning), SlowEvent::Handoff { elapsed_ms: 600 }));
    let (_, warning) = caller.received::<_, u8>(Some(Ok(("head", at(1700)))), at(1800), at(1800));
    assert!(matches!(event(warning), SlowEvent::ResponseParts { elapsed_ms: 800, .. }));
}

/// A service that takes two milliseconds to copy
struct SlowToCopy;

impl Clone for SlowToCopy {
    fn clone(&self) -> Self {
        let clock = Clock::start();
        while clock.now().nanos < 2 * MILLI {}
        SlowToCopy
    }
}

#[test]
fn copying_the_service_does_not_count() {
    let runtime = tokio::runtime::Runtime::new().unwrap();
    let service = SpawnService::new(SlowToCopy, runtime.handle().clone());
    let req = HttpRequest { method: "GET".to_string(), authority: None, path_and_query: None };
    let clock = Clock::start();
    let before = clock.now();
    let spawned = service.call(&req, &clock);
    assert!(spawned.worker.call_start.nanos >= before.nanos + 2 * MILLI);
}

#[test]
fn both_sides_begin_alike() {
    let spawned = Spawned::begin(7u8, footer(), at(3));
    assert_eq!(spawned.inner, 7);
    assert_eq!(spawned.worker.call_start, at(3));
    assert_eq!(spawned.caller.call_start, at(3));
    assert_eq!(spawned.worker.footer_fields.unwrap().path, "/a.footer");
    assert_eq!(spawned.caller.footer_fields.unwrap().path, "/a.footer");
    let spawned = Spawned::begin(7u8, None, at(3));
    assert!(spawned.worker.footer_fields.is_none() && spawned.caller.footer_fields.is_none());
}

#[test]
fn an_idle_reader_does_not_hold_up_the_worker() {
    // A thousand frames are passed on before the reader polls for the first.
    let mut worker = streaming(footer());
    let mut queue = vec![];
    for _ in 0..1000 {
        match worker.next(at(0), Some(data("abc"))).0 {
            StreamStep::Forward { item, next } => {
                queue.push(item);
                worker = next.forwarded(true).unwrap();
            }
            StreamStep::Ended => panic!("the body has not ended"),
        }
    }
    assert_eq!(worker.frame_index, 1000);
    assert_eq!(worker.bytes_sent, 3000);
    let mut body = reader(footer());
    for item in queue {
        let (polled, _) = body.poll_frame(Polled::Ready(item), at(0));
        assert!(matches!(polled, Polled::Ready(Ok(frame)) if frame.payload == "abc"));
    }
    assert_eq!(body.frame_index, 1000);
}

#[test]
fn the_reader_gets_the_frames_in_order() {
    let mut produced = vec![data("BA"), data("NA"), trailers(), data("NAS")].into_iter();
    let mut queue = std::collections::VecDeque::new();
    let mut body = reader(None);
    let mut worker = Some(streaming(None));
    let mut given = vec![];
    let mut ended = false;
    // The worker takes two steps for each poll of the reader.
    while !ended {
        for _ in 0..2 {
            worker = match worker.take() {
                Some(waiting) => match waiting.next(at(0), produced.next()).0 {
                    StreamStep::Forward { item, next } => {
                        queue.push_back(item);
                        next.forwarded(true)
                    }
                    StreamStep::Ended => None,
                },
                None => None,
            };
        }
        let polled = match queue.pop_front() {
            Some(item) => Polled::Ready(Some(item)),
            None => Polled::Ready(None),
        };
        match body.poll_frame(polled, at(0)).0 {
            Polled::Ready(Some(Ok(frame))) => given.push(frame.payload),
            Polled::Ready(None) => ended = true,
            _ => panic!("no frame fails"),
        }
    }
    assert_eq!(given, vec!["BA", "NA", "trailers", "NAS"]);
    // The end of the body counts too.
    assert_eq!(body.frame_index, 5);
}

#[test]
fn slow_means_half_a_second() {
    assert!(!is_slow(Duration::from_millis(499)));
    assert!(is_slow(Duration::from_millis(500)));
    assert!(!is_slow(Duration { nanos: 499_999_999 }));
}

#[test]
fn handoff_warning() {
    let handoff = |footer_fields| Handoff { footer_fields, call_start: at(1000) };
    let (calling, warning) = handoff(footer()).start(at(1500));
    assert!(calling.footer_fields.is_some());
    let event = event(warning);
    assert_eq!(event.message(), "Slow object_store footer spawn handoff");
    assert!(matches!(event, SlowEvent::Handoff { elapsed_ms: 500 }));

    assert!(handoff(footer()).start(at(1499)).1.is_none());
    assert!(handoff(footer()).start(at(0)).1.is_none());
    let (calling, warning) = handoff(None).start(at(9000));
    assert!(calling.footer_fields.is_none());
    assert!(warning.is_none());
}

#[test]
fn inner_reply_is_passed_on() {
    let calling = || Calling { footer_fields: footer() };
    let (reply, warning) = calling().returned::<_, u8>(at(0), at(499), Ok("response"));
    assert!(matches!(reply, Reply::Response { response: "response", .. }));
    assert!(warning.is_none());

    let (reply, warning) = calling().returned::<_, u8>(at(0), at(600), Ok("response"));
    assert!(matches!(reply, Reply::Response { response: "response", .. }));
    let slow = event(warning);
    assert_eq!(slow.message(), "Slow object_store footer spawned inner HTTP call");
    assert!(matches!(slow, SlowEvent::InnerCall { elapsed_ms: 600, error: None }));

    let (reply, warning) = calling().returned::<u8, u8>(at(0), at(700), Err(failure(9, "late")));
    match reply {
        Reply::Failed(e) => {
            assert_eq!(e.kind, HttpErrorKind::Timeout);
            assert!(matches!(e.source, ErrorSource::Service(d) if d.error == 9));
        }
        Reply::Response { .. } => panic!("a failure is no response"),
    }
    match event(warning) {
        SlowEvent::InnerCall { elapsed_ms, error } => {
            assert_eq!(elapsed_ms, 700);
            assert_eq!(error, Some("HTTP error: late".to_string()));
        }
        other => panic!("another step: {other:?}"),
    }

    let other = Calling { footer_fields: None };
    assert!(other.returned::<u8, u8>(at(0), at(700), Err(failure(9, "late"))).1.is_none());
}

#[test]
fn worker_stops_when_the_caller_is_gone() {
    assert!(Replying { footer_fields: footer() }.replied(false, at(0)).is_none());
    let worker = Replying { footer_fields: footer() }.replied(true, at(4)).unwrap();
    assert_eq!(worker.body_start, at(4));
    assert_eq!(worker.frame_index, 0);
    assert_eq!(worker.bytes_sent, 0);
    match worker.next(at(5), Some(data("abc"))).0 {
        StreamStep::Forward { next, .. } => assert!(next.forwarded(false).is_none()),
        StreamStep::Ended => panic!("the body has not ended"),
    }
}

#[test]
fn frames_are_passed_on_as_they_are() {
    let (step, _) = streaming(footer()).next(at(1), Some(data("abc")));
    match step {
        StreamStep::Forward { item: Ok(frame), next } => {
            assert_eq!(frame.payload, "abc");
            assert_eq!(frame.data_len, Some(3));
            assert_eq!(next.frame_index, 0);
            assert_eq!(next.bytes_sent, 3);
        }
        _ => panic!("a frame is passed on"),
    }
    let (step, _) = streaming(None).next::<String, u8>(at(1), Some(Err(failure(4, "broken"))));
    match step {
        StreamStep::Forward { item: Err(e), .. } => {
            assert!(matches!(e.source, ErrorSource::Service(d) if d.error == 4));
        }
        _ => panic!("a failure is passed on"),
    }
    let (step, warning) = streaming(footer()).next::<String, u8>(at(1), None);
    assert!(matches!(step, StreamStep::Ended));
    assert!(warning.is_none());
}

#[test]
fn frames_and_bytes_of_a_footer() {
    let (worker, warning) = pass(streaming(footer()), 10, data("abc"));
    assert!(warning.is_none());
    let (worker, _) = pass(worker, 20, trailers());
    let (worker, warning) = pass(worker, 510, data("defg"));
    let slow = event(warning);
    assert_eq!(slow.message(), "Slow object_store footer spawned body frame");
    assert!(matches!(
        slow,
        SlowEvent::BodyFrame {
            elapsed_ms: 510,
            frame_index: 2,
            frame_bytes: Some(4),
            bytes_sent: 7,
            error: None,
        }
    ));
    let (worker, warning) = pass(worker, 520, trailers());
    assert!(matches!(
        event(warning),
        SlowEvent::BodyFrame { frame_index: 3, frame_bytes: None, bytes_sent: 7, .. }
    ));
    let (worker, warning) = pass(worker, 530, Err(failure(1, "broken")));
    match event(warning) {
        SlowEvent::BodyFrame { frame_bytes, bytes_sent, error, .. } => {
            assert_eq!(frame_bytes, None);
            assert_eq!(bytes_sent, 7);
            assert_eq!(error, Some("HTTP error: broken".to_string()));
        }
        other => panic!("another step: {other:?}"),
    }
    let (_, warning) = worker.next::<String, u8>(at(900), None);
    let slow = event(warning);
    assert_eq!(slow.message(), "Slow object_store footer spawned body stream");
    assert!(matches!(
        slow,
        SlowEvent::BodyStream { elapsed_ms: 900, frame_count: 5, bytes_sent: 7 }
    ));
}

#[test]
fn frames_of_other_requests_are_counted_without_bytes() {
    let (worker, warning) = pass(streaming(None), 9000, data("abc"));
    assert!(warning.is_none());
    assert_eq!(worker.frame_index, 1);
    assert_eq!(worker.bytes_sent, 0);
    assert!(worker.next::<String, u8>(at(9000), None).1.is_none());
}

#[test]
fn bytes_that_cannot_be_counted() {
    let mut worker = streaming(footer());
    worker.bytes_sent = usize::MAX - 2;
    assert!(worker.can_take(&Some(data("ab"))));
    assert!(!worker.can_take(&Some(data("abc"))));
    assert!(worker.can_take(&Some(trailers())));
    assert!(worker.can_take::<String, u8>(&Some(Err(failure(1, "broken")))));
    assert!(worker.can_take::<String, u8>(&None));
    worker.footer_fields = None;
    assert!(worker.can_take(&Some(data("abc"))));
}

#[test]
fn the_answer_is_the_reply() {
    let caller = || Caller { footer_fields: footer(), call_start: at(100) };
    let (answer, warning) =
        caller().received::<_, u8>(Some(Ok(("head", at(550)))), at(599), at(599));
    assert!(warning.is_none());
    let (head, body) = match answer {
        Ok(answer) => answer,
        Err(_) => panic!("a response is no failure"),
    };
    assert_eq!(head, "head");
    assert!(body.footer_fields.is_some());
    assert_eq!(body.pending_since, None);
    assert_eq!(body.frame_index, 0);

    let (_, warning) = caller().received::<_, u8>(Some(Ok(("head", at(550)))), at(600), at(607));
    let slow = event(warning);
    assert_eq!(slow.message(), "Slow object_store footer spawned response parts");
    assert!(matches!(
        slow,
        SlowEvent::ResponseParts {
            elapsed_ms: 500,
            worker_elapsed_ms: 450,
            response_parts_recv_lag_ms: 57,
        }
    ));

    let (answer, warning) =
        caller().received::<u8, u8>(Some(Err(failure(3, "no"))), at(9000), at(9000));
    assert!(warning.is_none());
    match answer {
        Err(e) => assert!(matches!(e.source, ErrorSource::Service(d) if d.error == 3)),
        Ok(_) => panic!("a failure is no response"),
    }

    let other = Caller { footer_fields: None, call_start: at(0) };
    let (_, warning) = other.received::<_, u8>(Some(Ok(("head", at(550)))), at(9000), at(9000));
    assert!(warning.is_none());
}

#[test]
fn a_lost_worker_interrupts() {
    let caller = Caller { footer_fields: footer(), call_start: at(0) };
    let (answer, warning) = caller.received::<u8, u8>(None, at(9000), at(9000));
    assert!(warning.is_none());
    match answer {
        Err(e) => {
            assert_eq!(e.kind, HttpErrorKind::Interrupted);
            assert_eq!(e.source.text(), "SpawnError");
            assert_eq!(e.text(), "HTTP error: SpawnError");
            assert!(matches!(e.source, ErrorSource::Spawn(SpawnError {})));
        }
        Ok(_) => panic!("there was no reply"),
    }
    let error: HttpError<u8> = HttpError::from(SpawnError {});
    assert_eq!(error.kind, HttpErrorKind::Interrupted);
    assert_eq!(failure(1, "x").source.text(), "x");
    assert_eq!(failure(1, "x").text(), "HTTP error: x");
}

fn reader(footer_fields: Option<FooterSpawnFields>) -> SpawnBody {
    SpawnBody { footer_fields, pending_since: None, frame_index: 0 }
}

#[test]
fn a_wait_counts_from_its_beginning() {
    let mut body = reader(footer());
    let (polled, warning) = body.poll_frame::<&str>(Polled::Pending, at(100));
    assert!(matches!(polled, Polled::Pending));
    assert!(warning.is_none());
    assert_eq!(body.pending_since, Some(at(100)));
    let _ = body.poll_frame::<&str>(Polled::Pending, at(500));
    assert_eq!(body.pending_since, Some(at(100)));
    assert_eq!(body.frame_index, 0);

    let (polled, warning) = body.poll_frame(Polled::Ready("frame"), at(600));
    assert!(matches!(polled, Polled::Ready("frame")));
    let slow = event(warning);
    assert_eq!(slow.message(), "Slow object_store footer spawned body recv");
    assert!(matches!(slow, SlowEvent::BodyRecv { elapsed_ms: 500, frame_index: 0 }));
    assert_eq!(body.pending_since, None);
    assert_eq!(body.frame_index, 1);

    // A new wait, which is short
    let _ = body.poll_frame::<&str>(Polled::Pending, at(700));
    let (_, warning) = body.poll_frame(Polled::Ready("frame"), at(1199));
    assert!(warning.is_none());
    assert_eq!(body.frame_index, 2);

    // No wait
    let (_, warning) = body.poll_frame(Polled::Ready("frame"), at(9000));
    assert!(warning.is_none());
    assert_eq!(body.frame_index, 3);
}

#[test]
fn other_waits_are_not_measured() {
    let mut body = reader(None);
    let _ = body.poll_frame::<&str>(Polled::Pending, at(0));
    assert_eq!(body.pending_since, None);
    let (_, warning) = body.poll_frame(Polled::Ready("frame"), at(9000));
    assert!(warning.is_none());
    assert_eq!(body.frame_index, 1);
}
