use chat_relay::bus::{Bus, Delivery, CAPACITY};
use chat_relay::envelope::{Msg, MsgData};

fn numbered(n: u64) -> Msg {
    Msg::stamped("lobby", "tyr", n, MsgData::Message(format!("line {n}")))
}

#[test]
fn capacity_is_sixty_four() {
    assert_eq!(CAPACITY, 64);
}

#[test]
fn publish_without_subscribers_reaches_nobody() {
    let mut bus = Bus::new();
    assert_eq!(bus.publish(numbered(1)), 0);
    assert_eq!(bus.publish(numbered(2)), 0);
}

#[test]
fn reached_counts_what_the_channel_reported() {
    assert_eq!(Bus::reached(None), 0);
    assert_eq!(Bus::reached(Some(1)), 1);
    assert_eq!(Bus::reached(Some(17)), 17);
}

#[test]
fn every_subscriber_receives_every_envelope() {
    let mut bus = Bus::new();
    let mut first = bus.subscribe();
    let mut second = bus.subscribe();
    assert_eq!(bus.publish(numbered(1)), 2);
    assert_eq!(bus.publish(numbered(2)), 2);
    for subscription in [&mut first, &mut second] {
        for n in 1..=2 {
            match subscription.poll(&bus) {
                Delivery::Envelope(msg) => assert_eq!(*msg, numbered(n)),
                _ => panic!("an envelope should be waiting"),
            }
        }
        assert!(matches!(subscription.poll(&bus), Delivery::Empty));
    }
}

#[test]
fn a_subscriber_sees_nothing_published_before_it_came() {
    let mut bus = Bus::new();
    let mut early = bus.subscribe();
    bus.publish(numbered(1));
    let mut late = bus.subscribe();
    bus.publish(numbered(2));
    match late.poll(&bus) {
        Delivery::Envelope(msg) => assert_eq!(msg.timestamp, 2),
        _ => panic!("an envelope should be waiting"),
    }
    assert!(matches!(late.poll(&bus), Delivery::Empty));
    match early.poll(&bus) {
        Delivery::Envelope(msg) => assert_eq!(msg.timestamp, 1),
        _ => panic!("an envelope should be waiting"),
    }
}

#[test]
fn a_subscriber_that_is_dropped_no_longer_counts() {
    let mut bus = Bus::new();
    let first = bus.subscribe();
    let _second = bus.subscribe();
    assert_eq!(bus.publish(numbered(1)), 2);
    drop(first);
    assert_eq!(bus.publish(numbered(2)), 1);
}

#[test]
fn a_subscriber_that_never_reads_observes_a_gap() {
    let mut bus = Bus::new();
    let mut slow = bus.subscribe();
    let total = CAPACITY as u64 + 6;
    for n in 1..=total {
        assert_eq!(bus.publish(numbered(n)), 1);
    }
    match slow.poll(&bus) {
        Delivery::Lagged(missed) => assert_eq!(missed, 6),
        _ => panic!("the subscriber should have lagged"),
    }
    for n in 7..=total {
        match slow.poll(&bus) {
            Delivery::Envelope(msg) => assert_eq!(msg.timestamp, n),
            _ => panic!("an envelope should be waiting"),
        }
    }
    assert!(matches!(slow.poll(&bus), Delivery::Empty));
}

#[test]
fn a_full_buffer_is_not_yet_a_gap() {
    let mut bus = Bus::new();
    let mut slow = bus.subscribe();
    for n in 1..=CAPACITY as u64 {
        bus.publish(numbered(n));
    }
    match slow.poll(&bus) {
        Delivery::Envelope(msg) => assert_eq!(msg.timestamp, 1),
        _ => panic!("nothing should have been dropped"),
    }
}

#[test]
fn a_subscriber_of_a_bus_that_is_gone_finds_it_closed() {
    let mut bus = Bus::new();
    let mut subscription = bus.subscribe();
    bus.publish(numbered(1));
    drop(bus);
    let other = Bus::new();
    assert!(matches!(subscription.poll(&other), Delivery::Envelope(_)));
    assert!(matches!(subscription.poll(&other), Delivery::Closed));
}

#[test]
fn a_subscriber_reads_its_own_bus_whatever_bus_it_is_shown() {
    let mut bus = Bus::new();
    let mut other = Bus::new();
    let mut subscription = bus.subscribe();
    let _listener = other.subscribe();
    other.publish(numbered(9));
    assert!(matches!(subscription.poll(&other), Delivery::Empty));
    bus.publish(numbered(1));
    match subscription.poll(&other) {
        Delivery::Envelope(msg) => assert_eq!(msg.timestamp, 1),
        _ => panic!("an envelope should be waiting"),
    }
}

#[test]
fn what_is_published_to_nobody_is_not_kept_for_later() {
    let mut bus = Bus::new();
    assert_eq!(bus.publish(numbered(1)), 0);
    let mut late = bus.subscribe();
    assert!(matches!(late.poll(&bus), Delivery::Empty));
    assert_eq!(bus.publish(numbered(2)), 1);
    match late.poll(&bus) {
        Delivery::Envelope(msg) => assert_eq!(msg.timestamp, 2),
        _ => panic!("an envelope should be waiting"),
    }
}

#[test]
fn envelopes_arrive_in_the_order_of_publishing() {
    let mut bus = Bus::new();
    let mut subscription = bus.subscribe();
    for n in 1..=CAPACITY as u64 {
        bus.publish(numbered(n));
    }
    for n in 1..=CAPACITY as u64 {
        match subscription.poll(&bus) {
            Delivery::Envelope(msg) => assert_eq!(msg.timestamp, n),
            _ => panic!("an envelope should be waiting"),
        }
    }
    assert!(matches!(subscription.poll(&bus), Delivery::Empty));
}

#[test]
fn a_gap_is_counted_from_the_place_of_the_subscriber() {
    let mut bus = Bus::new();
    let mut subscription = bus.subscribe();
    for n in 1..=10 {
        bus.publish(numbered(n));
    }
    for _ in 0..4 {
        assert!(matches!(subscription.poll(&bus), Delivery::Envelope(_)));
    }
    for n in 11..=100 {
        bus.publish(numbered(n));
    }
    match subscription.poll(&bus) {
        Delivery::Lagged(missed) => assert_eq!(missed, 100 - CAPACITY as u64 - 4),
        _ => panic!("the subscriber should have lagged"),
    }
    match subscription.poll(&bus) {
        Delivery::Envelope(msg) => assert_eq!(msg.timestamp, 100 - CAPACITY as u64 + 1),
        _ => panic!("an envelope should be waiting"),
    }
}
