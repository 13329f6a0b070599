//! End-to-end scenario: the publisher emits 25 sequentially numbered
//! messages; a consumer bounded at 10 concurrent units pulls batches of 10
//! and acknowledges all 25 exactly once — no duplicates, no loss.

use hello_world_api::broker::Broker;
use hello_world_api::consumer::{ConsumerAction, ConsumerEvent, ConsumerLoop};
use hello_world_api::publisher::Publisher;
use hello_world_api::stream::{ConsumerSpec, StreamSpec};

#[test]
fn twenty_five_messages_are_acknowledged_exactly_once() {
    let mut broker = Broker::new();
    let stream = broker
        .ensure_stream(&StreamSpec {
            name: "GUESTS".to_string(),
            subject_pattern: "stream.guests.>".to_string(),
            max_messages: 10000,
        })
        .unwrap();
    let consumer = broker.ensure_consumer(
        stream,
        &ConsumerSpec {
            durable_name: "guests-consumer".to_string(),
            stream_name: "GUESTS".to_string(),
            batch_size: 10,
            expiry_secs: 30,
        },
    );

    // the publisher's loop: one envelope per tick, numbered 1..=25
    let mut publisher = Publisher::new();
    for n in 1u64..=25 {
        let env = publisher.tick();
        assert_eq!(env.subject, "stream.guests.demo");
        assert_eq!(env.payload, format!("hello guest #{}", n).into_bytes());
        broker.publish(&env).unwrap();
    }
    assert_eq!(publisher.count(), 25);
    assert_eq!(broker.message_count(stream), 25);

    // the consumer's loop: provision, then pull batches of 10 and fan out
    let mut resolved: Vec<u64> = Vec::new();
    let mut gated = ConsumerLoop::new(10, 30, 10);
    assert_eq!(gated.step(ConsumerEvent::Start), ConsumerAction::Provision);
    let mut action = gated.step(ConsumerEvent::Provisioned);
    let mut empty_pulls = 0;
    while empty_pulls < 1 {
        let (max_messages, _expiry) = match action {
            ConsumerAction::Pull { max_messages, expiry_secs } => (max_messages, expiry_secs),
            other => panic!("expected a pull, got {:?}", other),
        };
        let batch = broker.pull_batch(stream, consumer, max_messages);
        if batch.is_empty() {
            empty_pulls += 1;
        }
        for msg in &batch {
            let next = gated.step(ConsumerEvent::Delivered { handle: msg.handle });
            assert!(gated.in_flight() <= 10);
            if let ConsumerAction::Process { handle } = next {
                resolved.push(handle);
            }
        }
        // processing units complete; each frees its permit and may start a
        // waiting one
        let mut k = 0;
        while k < resolved.len() {
            let handle = resolved[k];
            broker.ack(stream, consumer, handle);
            let next = gated.step(ConsumerEvent::Finished { handle, acked: true });
            assert!(gated.in_flight() <= 10);
            if let ConsumerAction::Process { handle } = next {
                resolved.push(handle);
            }
            k += 1;
        }
        resolved.clear();
        action = gated.step(ConsumerEvent::BatchClosed);
    }

    // all 25 acknowledged, each exactly once, none lost
    assert_eq!(gated.acked_count(), 25);
    assert_eq!(gated.ack_failure_count(), 0);
    assert_eq!(broker.acked_count(stream, consumer), 25);
    assert_eq!(gated.in_flight(), 0);
}
