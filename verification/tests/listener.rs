use retro_chat::bus::{Bus, Publication, CAPACITY};
use retro_chat::listener::{failure_of, seat, Accept, Listener, Verdict};
use retro_chat::session::Phase;
use tokio::sync::broadcast::error::TryRecvError;

#[test]
fn a_new_loop_listens() {
    assert!(Listener::new().listening);
}

#[test]
fn a_connection_gets_a_session() {
    let mut listener = Listener::new();
    assert_eq!(listener.step(Accept::Connection), Verdict::Spawn);
    assert!(listener.listening);
}

#[test]
fn a_failed_attempt_does_not_end_the_loop() {
    let mut listener = Listener::new();
    assert_eq!(listener.step(Accept::Failed), Verdict::Retry);
    assert!(listener.listening);
    assert_eq!(listener.step(Accept::Connection), Verdict::Spawn);
    assert!(listener.listening);
}

#[test]
fn many_failed_attempts_do_not_end_the_loop() {
    let mut listener = Listener::new();
    for _ in 0..1000 {
        assert_eq!(listener.step(Accept::Failed), Verdict::Retry);
    }
    assert_eq!(listener.step(Accept::Connection), Verdict::Spawn);
    assert_eq!(listener.step(Accept::Failed), Verdict::Retry);
    assert_eq!(listener.step(Accept::Connection), Verdict::Spawn);
}

#[test]
fn losing_the_listening_socket_ends_the_loop() {
    let mut listener = Listener::new();
    assert_eq!(listener.step(Accept::Connection), Verdict::Spawn);
    assert_eq!(listener.step(Accept::ListenerLost), Verdict::Stop);
    assert!(!listener.listening);
}

#[test]
fn a_stopped_loop_stays_stopped() {
    let mut listener = Listener::new();
    listener.step(Accept::ListenerLost);
    assert_eq!(listener.step(Accept::Connection), Verdict::Stop);
    assert_eq!(listener.step(Accept::Failed), Verdict::Stop);
    assert_eq!(listener.step(Accept::ListenerLost), Verdict::Stop);
    assert!(!listener.listening);
}

#[test]
fn a_seat_has_a_fresh_session() {
    let bus = Bus::new(CAPACITY);
    let s = seat(&bus);
    assert_eq!(s.session.phase(), Phase::Handshaking);
    assert_eq!(s.session.identity(), "");
    assert_eq!(s.bus.capacity(), CAPACITY);
}

#[test]
fn a_seat_is_subscribed_before_its_session_starts() {
    let bus = Bus::new(CAPACITY);
    let mut s = seat(&bus);
    assert_eq!(bus.publish("early".to_string()), Publication::Queued(1));
    assert_eq!(s.inbox.try_recv(), Ok("early".to_string()));
    assert_eq!(s.inbox.try_recv(), Err(TryRecvError::Empty));
}

#[test]
fn seats_share_the_bus() {
    let bus = Bus::new(CAPACITY);
    let mut a = seat(&bus);
    let mut b = seat(&bus);
    assert_eq!(a.bus.publish("from a".to_string()), Publication::Queued(2));
    assert_eq!(b.bus.publish("from b".to_string()), Publication::Queued(2));
    for inbox in [&mut a.inbox, &mut b.inbox] {
        assert_eq!(inbox.try_recv(), Ok("from a".to_string()));
        assert_eq!(inbox.try_recv(), Ok("from b".to_string()));
    }
}

#[test]
fn a_socket_that_is_gone_is_lost() {
    assert_eq!(failure_of(Some(9)), Accept::ListenerLost);
    assert_eq!(failure_of(Some(22)), Accept::ListenerLost);
    assert_eq!(failure_of(Some(88)), Accept::ListenerLost);
}

#[test]
fn any_other_failure_leaves_the_socket_good() {
    assert_eq!(failure_of(None), Accept::Failed);
    for code in [0, 1, 4, 11, 12, 23, 24, 71, 103, 104, 105, 110, -1, i32::MAX, i32::MIN] {
        assert_eq!(failure_of(Some(code)), Accept::Failed, "{}", code);
    }
}

#[test]
fn the_loop_survives_running_out_of_descriptors() {
    let mut listener = Listener::new();
    assert_eq!(listener.step(failure_of(Some(24))), Verdict::Retry);
    assert_eq!(listener.step(failure_of(Some(103))), Verdict::Retry);
    assert_eq!(listener.step(Accept::Connection), Verdict::Spawn);
    assert_eq!(listener.step(failure_of(Some(9))), Verdict::Stop);
    assert_eq!(listener.step(Accept::Connection), Verdict::Stop);
}

#[test]
fn a_seat_hears_what_its_own_handle_publishes() {
    let bus = Bus::new(CAPACITY);
    let mut s = seat(&bus);
    assert_eq!(s.bus.publish("to myself".to_string()), Publication::Queued(1));
    assert_eq!(s.inbox.try_recv(), Ok("to myself".to_string()));
}

#[test]
fn a_seat_does_not_hear_another_bus() {
    let bus = Bus::new(CAPACITY);
    let other = Bus::new(CAPACITY);
    let mut s = seat(&bus);
    assert_eq!(other.publish("elsewhere".to_string()), Publication::Unheard("elsewhere".to_string()));
    assert_eq!(s.inbox.try_recv(), Err(TryRecvError::Empty));
}
