use packet_ingest::bus::{Bus, Received};
use packet_ingest::context::Context;
use packet_ingest::message::{Message, PacketData};

fn numbered(i: u32) -> Message {
    Message::Data { timestamp: i as i64, value: i }
}

#[test]
fn stalled_subscriber_is_told_what_it_lost() {
    let mut bus = Bus::new(1024);
    let mut sub = bus.subscribe();
    for i in 0..2000u32 {
        assert!(bus.publish(numbered(i)));
    }
    assert_eq!(bus.receive(&mut sub), Received::Lagged(976));
    assert_eq!(bus.receive(&mut sub), Received::Message(numbered(976)));
    assert_eq!(bus.receive(&mut sub), Received::Message(numbered(977)));
}

#[test]
fn lag_is_reported_once_then_all_retained_in_order() {
    let mut bus = Bus::new(4);
    let mut sub = bus.subscribe();
    for i in 0..10u32 {
        bus.publish(numbered(i));
    }
    assert_eq!(bus.receive(&mut sub), Received::Lagged(6));
    for i in 6..10u32 {
        assert_eq!(bus.receive(&mut sub), Received::Message(numbered(i)));
    }
    assert_eq!(bus.receive(&mut sub), Received::Empty);
}

#[test]
fn exactly_capacity_behind_loses_nothing() {
    let mut bus = Bus::new(4);
    let mut sub = bus.subscribe();
    for i in 0..4u32 {
        bus.publish(numbered(i));
    }
    for i in 0..4u32 {
        assert_eq!(bus.receive(&mut sub), Received::Message(numbered(i)));
    }
}

#[test]
fn one_more_than_capacity_behind_loses_one() {
    let mut bus = Bus::new(4);
    let mut sub = bus.subscribe();
    for i in 0..5u32 {
        bus.publish(numbered(i));
    }
    assert_eq!(bus.receive(&mut sub), Received::Lagged(1));
    assert_eq!(bus.receive(&mut sub), Received::Message(numbered(1)));
}

#[test]
fn capacity_is_exact_when_no_power_of_two() {
    let mut bus = Bus::new(3);
    let mut sub = bus.subscribe();
    for i in 0..4u32 {
        bus.publish(numbered(i));
    }
    assert_eq!(bus.receive(&mut sub), Received::Lagged(1));
    assert_eq!(bus.capacity(), 3);
}

#[test]
fn slow_subscriber_does_not_disturb_a_fast_one() {
    let mut bus = Bus::new(2);
    let mut fast = bus.subscribe();
    let mut slow = bus.subscribe();
    for i in 0..6u32 {
        bus.publish(numbered(i));
        assert_eq!(bus.receive(&mut fast), Received::Message(numbered(i)));
        assert_eq!(bus.receive(&mut fast), Received::Empty);
    }
    assert_eq!(bus.receive(&mut slow), Received::Lagged(4));
    assert_eq!(bus.receive(&mut slow), Received::Message(numbered(4)));
    assert_eq!(bus.receive(&mut slow), Received::Message(numbered(5)));
    assert_eq!(bus.receive(&mut slow), Received::Empty);
    assert_eq!(bus.receive(&mut fast), Received::Empty);
}

#[test]
fn subscription_does_not_replay_history() {
    let mut bus = Bus::new(8);
    bus.publish(numbered(0));
    bus.publish(numbered(1));
    let mut sub = bus.subscribe();
    assert_eq!(bus.receive(&mut sub), Received::Empty);
    bus.publish(numbered(2));
    assert_eq!(bus.receive(&mut sub), Received::Message(numbered(2)));
}

#[test]
fn publish_without_subscribers_is_no_error() {
    let mut bus = Bus::new(2);
    for i in 0..5u32 {
        assert!(bus.publish(numbered(i)));
    }
    assert_eq!(bus.published(), 5);
}

#[test]
fn closed_bus_is_drained_first() {
    let mut bus = Bus::new(4);
    let mut sub = bus.subscribe();
    bus.publish(numbered(0));
    bus.close();
    assert!(!bus.publish(numbered(1)));
    assert_eq!(bus.published(), 1);
    assert_eq!(bus.receive(&mut sub), Received::Message(numbered(0)));
    assert_eq!(bus.receive(&mut sub), Received::Closed);
    assert_eq!(bus.receive(&mut sub), Received::Closed);
}

#[test]
fn bus_of_no_capacity_keeps_nothing() {
    let mut bus = Bus::new(0);
    let mut sub = bus.subscribe();
    bus.publish(numbered(0));
    bus.publish(numbered(1));
    assert_eq!(bus.receive(&mut sub), Received::Lagged(2));
    assert_eq!(bus.receive(&mut sub), Received::Empty);
}

#[test]
fn every_kind_of_message_is_delivered_whole() {
    let mut bus = Bus::new(4);
    let mut sub = bus.subscribe();
    let signal = Message::Signal { sdp: "v=0".to_string(), candidate: Some("ice".to_string()) };
    let bare = Message::Signal { sdp: String::new(), candidate: None };
    let batch = Message::Batch {
        readings: vec![
            PacketData { timestamp: 1, value: 2 },
            PacketData { timestamp: -3, value: 4 },
        ],
    };
    bus.publish(signal.clone());
    bus.publish(bare.clone());
    bus.publish(batch.clone());
    assert_eq!(bus.receive(&mut sub), Received::Message(signal));
    assert_eq!(bus.receive(&mut sub), Received::Message(bare));
    assert_eq!(bus.receive(&mut sub), Received::Message(batch));
}

#[test]
fn duplicate_is_equal() {
    let batch = Message::Batch { readings: vec![PacketData { timestamp: 9, value: 8 }] };
    assert_eq!(batch.duplicate(), batch);
    let signal = Message::Signal { sdp: "s".to_string(), candidate: None };
    assert_eq!(signal.duplicate(), signal);
}

#[test]
fn context_holds_an_empty_bus() {
    let mut ctx = Context::new(1024);
    assert_eq!(ctx.bus.capacity(), 1024);
    assert_eq!(ctx.bus.published(), 0);
    let mut sub = ctx.bus.subscribe();
    assert_eq!(ctx.bus.receive(&mut sub), Received::Empty);
    ctx.bus.publish(numbered(1));
    assert_eq!(ctx.bus.receive(&mut sub), Received::Message(numbered(1)));
}
