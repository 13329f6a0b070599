//! The broker model: provisioning idempotence, subject routing, bounded
//! pulls and acknowledgment.

use hello_world_api::broker::Broker;
use hello_world_api::stream::{ConsumerSpec, ProvisioningError, PublishEnvelope, StreamSpec};
use hello_world_api::stream::opt_out_envelope;
use hello_world_api::subject::subject_matches;

fn spec_guest_stream() -> StreamSpec {
    StreamSpec {
        name: "GUEST_OPT_OUT".to_string(),
        subject_pattern: "stream.guest.>".to_string(),
        max_messages: 10000,
    }
}

fn spec_consumer() -> ConsumerSpec {
    ConsumerSpec {
        durable_name: "guest-opt-out-consumer".to_string(),
        stream_name: "GUEST_OPT_OUT".to_string(),
        batch_size: 10,
        expiry_secs: 30,
    }
}

fn envelope(subject: &str, payload: &[u8]) -> PublishEnvelope {
    PublishEnvelope {
        subject: subject.to_string(),
        payload: payload.to_vec(),
        headers: Vec::new(),
    }
}

#[test]
fn subject_matching_follows_the_pattern() {
    assert!(subject_matches("stream.guest.>", "stream.guest.opt-out"));
    assert!(subject_matches("stream.guest.>", "stream.guest.a.b"));
    assert!(!subject_matches("stream.guest.>", "stream.other.x"));
    assert!(!subject_matches("stream.guest.>", "stream.guest"));
    assert!(subject_matches("stream.guest", "stream.guest"));
    assert!(!subject_matches("stream.guest", "stream.guest.x"));
    assert!(subject_matches(">", "anything"));
    assert!(!subject_matches(">", ""));
}

#[test]
fn declaring_a_stream_twice_keeps_one_stream() {
    let mut b = Broker::new();
    let first = b.ensure_stream(&spec_guest_stream()).unwrap();
    let second = b.ensure_stream(&spec_guest_stream()).unwrap();
    assert_eq!(first, second);
    assert_eq!(b.stream_count(), 1);
}

#[test]
fn an_incompatible_redeclaration_is_refused_untouched() {
    let mut b = Broker::new();
    b.ensure_stream(&spec_guest_stream()).unwrap();
    let mut other = spec_guest_stream();
    other.subject_pattern = "stream.other.>".to_string();
    assert_eq!(
        b.ensure_stream(&other),
        Err(ProvisioningError::Incompatible)
    );
    assert_eq!(b.stream_count(), 1);
}

#[test]
fn declaring_a_consumer_twice_keeps_one_consumer() {
    let mut b = Broker::new();
    let s = b.ensure_stream(&spec_guest_stream()).unwrap();
    let first = b.ensure_consumer(s, &spec_consumer());
    let second = b.ensure_consumer(s, &spec_consumer());
    assert_eq!(first, second);
    assert_eq!(b.consumer_count(s), 1);
}

#[test]
fn a_stream_receives_only_matching_subjects() {
    let mut b = Broker::new();
    let s = b.ensure_stream(&spec_guest_stream()).unwrap();
    assert!(b.publish(&envelope("stream.guest.opt-out", b"x")).is_ok());
    assert_eq!(b.message_count(s), 1);
    // no stream takes this subject: the publish fails and nothing lands
    assert!(b.publish(&envelope("stream.other.x", b"y")).is_err());
    assert_eq!(b.message_count(s), 1);
}

#[test]
fn pulling_an_empty_stream_gives_an_empty_batch() {
    let mut b = Broker::new();
    let s = b.ensure_stream(&spec_guest_stream()).unwrap();
    let c = b.ensure_consumer(s, &spec_consumer());
    let batch = b.pull_batch(s, c, 10);
    assert!(batch.is_empty());
    // the next pull still works and is still empty
    assert!(b.pull_batch(s, c, 10).is_empty());
}

#[test]
fn pulls_are_bounded_and_in_order() {
    let mut b = Broker::new();
    let s = b.ensure_stream(&spec_guest_stream()).unwrap();
    let c = b.ensure_consumer(s, &spec_consumer());
    for i in 1u8..=5 {
        b.publish(&envelope("stream.guest.opt-out", &[i])).unwrap();
    }
    let batch = b.pull_batch(s, c, 3);
    assert_eq!(batch.len(), 3);
    assert_eq!(batch[0].payload, vec![1]);
    assert_eq!(batch[1].payload, vec![2]);
    assert_eq!(batch[2].payload, vec![3]);
    let rest = b.pull_batch(s, c, 3);
    assert_eq!(rest.len(), 2);
    assert_eq!(rest[0].payload, vec![4]);
    assert_eq!(rest[1].payload, vec![5]);
    assert!(b.pull_batch(s, c, 3).is_empty());
}

#[test]
fn acknowledging_twice_counts_once() {
    let mut b = Broker::new();
    let s = b.ensure_stream(&spec_guest_stream()).unwrap();
    let c = b.ensure_consumer(s, &spec_consumer());
    b.publish(&envelope("stream.guest.opt-out", b"x")).unwrap();
    let batch = b.pull_batch(s, c, 10);
    assert_eq!(batch.len(), 1);
    let handle = batch[0].handle;
    b.ack(s, c, handle);
    b.ack(s, c, handle);
    assert_eq!(b.acked_count(s, c), 1);
}

#[test]
fn retention_drops_the_oldest_message() {
    let mut b = Broker::new();
    let mut spec = spec_guest_stream();
    spec.max_messages = 2;
    let s = b.ensure_stream(&spec).unwrap();
    let c = b.ensure_consumer(s, &spec_consumer());
    b.publish(&envelope("stream.guest.a", b"1")).unwrap();
    b.publish(&envelope("stream.guest.b", b"2")).unwrap();
    b.publish(&envelope("stream.guest.c", b"3")).unwrap();
    assert_eq!(b.message_count(s), 2);
    let batch = b.pull_batch(s, c, 10);
    assert_eq!(batch.len(), 2);
    assert_eq!(batch[0].payload, b"2".to_vec());
    assert_eq!(batch[1].payload, b"3".to_vec());
}

#[test]
fn headers_travel_with_the_message() {
    let mut b = Broker::new();
    let s = b.ensure_stream(&spec_guest_stream()).unwrap();
    let c = b.ensure_consumer(s, &spec_consumer());
    let env = opt_out_envelope("req-42");
    assert_eq!(env.subject, "stream.guest.opt-out");
    assert_eq!(env.payload, b"Guest opt-out from sparkpost".to_vec());
    assert_eq!(env.headers.len(), 1);
    assert_eq!(env.headers[0].name, "trace-id");
    assert_eq!(env.headers[0].value, "req-42");
    b.publish(&env).unwrap();
    let batch = b.pull_batch(s, c, 10);
    assert_eq!(batch.len(), 1);
    assert_eq!(batch[0].headers[0].name, "trace-id");
    assert_eq!(batch[0].headers[0].value, "req-42");
}
