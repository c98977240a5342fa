use retro_chat::bus::{Bus, Publication, CAPACITY};
use tokio::sync::broadcast::error::TryRecvError;

#[test]
fn the_relay_keeps_a_hundred_messages() {
    assert_eq!(CAPACITY, 100);
    assert_eq!(Bus::new(CAPACITY).capacity(), 100);
}

#[test]
fn a_bus_remembers_its_capacity() {
    assert_eq!(Bus::new(1).capacity(), 1);
    assert_eq!(Bus::new(16).handle().capacity(), 16);
}

#[test]
fn publishing_to_nobody_hands_the_payload_back() {
    let bus = Bus::new(CAPACITY);
    assert_eq!(bus.publish("lonely".to_string()), Publication::Unheard("lonely".to_string()));
    assert_eq!(bus.publish(String::new()), Publication::Unheard(String::new()));
}

#[test]
fn publishing_counts_the_subscribers() {
    let bus = Bus::new(CAPACITY);
    let _first = bus.subscribe();
    assert_eq!(bus.publish("a".to_string()), Publication::Queued(1));
    let _second = bus.subscribe();
    let _third = bus.handle().subscribe();
    assert_eq!(bus.publish("b".to_string()), Publication::Queued(3));
}

#[test]
fn a_subscriber_that_left_is_no_longer_counted() {
    let bus = Bus::new(CAPACITY);
    let first = bus.subscribe();
    let _second = bus.subscribe();
    drop(first);
    assert_eq!(bus.publish("a".to_string()), Publication::Queued(1));
}

#[test]
fn every_subscriber_receives_every_payload_in_order() {
    let bus = Bus::new(CAPACITY);
    let mut inboxes = vec![bus.subscribe(), bus.subscribe(), bus.subscribe()];
    for text in ["one", "two", "three"] {
        assert_eq!(bus.publish(text.to_string()), Publication::Queued(3));
    }
    for inbox in inboxes.iter_mut() {
        assert_eq!(inbox.try_recv(), Ok("one".to_string()));
        assert_eq!(inbox.try_recv(), Ok("two".to_string()));
        assert_eq!(inbox.try_recv(), Ok("three".to_string()));
        assert_eq!(inbox.try_recv(), Err(TryRecvError::Empty));
    }
}

#[test]
fn a_subscription_starts_with_what_is_published_after_it() {
    let bus = Bus::new(CAPACITY);
    let mut early = bus.subscribe();
    bus.publish("before".to_string());
    let mut late = bus.subscribe();
    bus.publish("after".to_string());
    assert_eq!(early.try_recv(), Ok("before".to_string()));
    assert_eq!(early.try_recv(), Ok("after".to_string()));
    assert_eq!(late.try_recv(), Ok("after".to_string()));
    assert_eq!(late.try_recv(), Err(TryRecvError::Empty));
}

#[test]
fn handles_share_one_channel() {
    let bus = Bus::new(CAPACITY);
    let other = bus.handle();
    let mut inbox = bus.subscribe();
    assert_eq!(other.publish("via the other handle".to_string()), Publication::Queued(1));
    assert_eq!(inbox.try_recv(), Ok("via the other handle".to_string()));
}

#[test]
fn a_slow_subscriber_loses_the_oldest_payloads() {
    let bus = Bus::new(4);
    let mut slow = bus.subscribe();
    let mut quick = bus.subscribe();
    for n in 0..10 {
        assert_eq!(bus.publish(n.to_string()), Publication::Queued(2));
        assert_eq!(quick.try_recv(), Ok(n.to_string()));
    }
    assert_eq!(slow.try_recv(), Err(TryRecvError::Lagged(6)));
    for n in 6..10 {
        assert_eq!(slow.try_recv(), Ok(n.to_string()));
    }
    assert_eq!(slow.try_recv(), Err(TryRecvError::Empty));
}

#[test]
fn the_relay_capacity_holds_at_least_a_hundred_unread_payloads() {
    let bus = Bus::new(CAPACITY);
    let mut slow = bus.subscribe();
    for n in 0..100 {
        bus.publish(n.to_string());
    }
    for n in 0..100 {
        assert_eq!(slow.try_recv(), Ok(n.to_string()));
    }
}

#[test]
fn the_bus_closes_when_every_handle_is_gone() {
    let bus = Bus::new(CAPACITY);
    let other = bus.handle();
    let mut inbox = bus.subscribe();
    bus.publish("last words".to_string());
    drop(bus);
    assert_eq!(inbox.try_recv(), Ok("last words".to_string()));
    assert_eq!(inbox.try_recv(), Err(TryRecvError::Empty));
    drop(other);
    assert_eq!(inbox.try_recv(), Err(TryRecvError::Closed));
}
