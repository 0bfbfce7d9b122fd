//! Resolving a host.

use object_store_client::dns::{ResolveError, ShuffleResolver, LOOKUP_PORT};
use object_store_client::error::Described;
use object_store_client::time::Instant;

type Joined = Result<Result<Vec<u32>, Described<u8>>, Described<u16>>;

const MILLI: i128 = 1_000_000;

fn at(millis: i128) -> Instant {
    Instant { nanos: millis * MILLI }
}

fn described<S>(error: S, text: &str) -> Described<S> {
    Described { error, text: text.to_string() }
}

#[test]
fn the_name_is_looked_up_with_port_zero() {
    assert_eq!(ShuffleResolver.query("example.org"), ("example.org".to_string(), 0));
    assert_eq!(LOOKUP_PORT, 0);
}

#[test]
fn addresses_come_in_another_order() {
    let found: Vec<u32> = (0..300).collect();
    let shuffled = ShuffleResolver.shuffled::<u32, ()>(Ok(found.clone())).unwrap();
    assert_ne!(shuffled, found);
    let mut sorted = shuffled;
    sorted.sort();
    assert_eq!(sorted, found);
}

#[test]
fn addresses_keep_their_number() {
    let found = vec![3, 1, 3, 3];
    let mut shuffled = ShuffleResolver.shuffled::<u32, ()>(Ok(found)).unwrap();
    shuffled.sort();
    assert_eq!(shuffled, vec![1, 3, 3, 3]);
    assert_eq!(ShuffleResolver.shuffled::<u32, ()>(Ok(vec![])), Ok(vec![]));
    assert_eq!(ShuffleResolver.shuffled::<u32, &str>(Err("no")), Err("no"));
}

#[test]
fn a_quick_lookup_is_not_warned_about() {
    let joined: Joined = Ok(Ok(vec![1, 2]));
    let (result, warning) = ShuffleResolver.resolve("h", at(0), at(499), joined);
    assert!(matches!(result, Ok(addrs) if addrs == vec![1, 2]));
    assert!(warning.is_none());

    let joined: Joined = Ok(Err(described(7, "no such host")));
    let (result, warning) = ShuffleResolver.resolve("h", at(0), at(0), joined);
    assert!(matches!(result, Err(ResolveError::Lookup(e)) if e.error == 7));
    assert!(warning.is_none());
}

#[test]
fn a_slow_lookup_is_warned_about() {
    let joined: Joined = Ok(Ok(vec![1]));
    let (result, warning) = ShuffleResolver.resolve("h", at(1000), at(1500), joined);
    assert!(result.is_ok());
    let warning = warning.unwrap();
    assert_eq!(warning.host, "h");
    assert_eq!(warning.elapsed_ms, 500);
    assert_eq!(warning.error, None);
    assert_eq!(warning.message(), "Slow object_store DNS resolve");
}

#[test]
fn a_slow_failure_is_warned_about() {
    let joined: Joined = Ok(Err(described(7, "no such host")));
    let (result, warning) = ShuffleResolver.resolve("h", at(0), at(900), joined);
    assert!(matches!(result, Err(ResolveError::Lookup(e)) if e.error == 7));
    let warning = warning.unwrap();
    assert_eq!(warning.elapsed_ms, 900);
    assert_eq!(warning.error, Some("no such host".to_string()));

    let joined: Joined = Err(described(9, "task was cancelled"));
    let (result, warning) = ShuffleResolver.resolve("h", at(0), at(501), joined);
    let error = result.unwrap_err();
    assert_eq!(error.text(), "task was cancelled");
    assert!(matches!(error, ResolveError::Task(e) if e.error == 9));
    assert_eq!(warning.unwrap().error, Some("task was cancelled".to_string()));
}
