use dgram_relay::session::{Action, ProtoKind, Session, TransportEvent};
use dgram_relay::table::SessionTable;
use dgram_relay::token::PeerAddr;

fn peer() -> PeerAddr {
    PeerAddr::V4([127, 0, 0, 1])
}

#[test]
fn insert_then_find_by_raw_identifier() {
    let mut t = SessionTable::new();
    let idx = t.insert(vec![1, 2, 3], peer(), Session::new());
    assert_eq!(t.find(&[1, 2, 3], &[9, 9, 9]), Some(idx));
}

#[test]
fn find_by_derived_identifier() {
    let mut t = SessionTable::new();
    let idx = t.insert(vec![7, 7, 7], peer(), Session::new());
    // The raw identifier is unknown; the derived one matches.
    assert_eq!(t.find(&[1, 1, 1], &[7, 7, 7]), Some(idx));
}

#[test]
fn find_unknown_returns_none() {
    let mut t = SessionTable::new();
    t.insert(vec![1], peer(), Session::new());
    assert_eq!(t.find(&[2], &[3]), None);
}

#[test]
fn gc_removes_closed_sessions_for_good() {
    let mut t = SessionTable::new();
    let a = t.insert(vec![1], peer(), Session::new());
    let b = t.insert(vec![2], peer(), Session::new());
    assert_ne!(a, b);
    let mut closed = vec![false, false];
    closed[a] = true;
    t.gc(&closed);
    // The closed session is gone under both lookups; the open one remains.
    assert_eq!(t.find(&[1], &[1]), None);
    assert_eq!(t.find(&[2], &[2]), Some(b));
}

#[test]
fn gc_with_no_closed_sessions_changes_nothing() {
    let mut t = SessionTable::new();
    let a = t.insert(vec![5], peer(), Session::new());
    t.gc(&vec![false]);
    assert_eq!(t.find(&[5], &[5]), Some(a));
}

#[test]
fn slot_is_reused_after_gc() {
    let mut t = SessionTable::new();
    let a = t.insert(vec![1], peer(), Session::new());
    let mut closed = vec![false; t.slot_count()];
    closed[a] = true;
    t.gc(&closed);
    let b = t.insert(vec![2], peer(), Session::new());
    assert_eq!(a, b);
    assert_eq!(t.slot_count(), 1);
}

#[test]
fn surviving_index_stays_stable_across_gc() {
    let mut t = SessionTable::new();
    let a = t.insert(vec![1], peer(), Session::new());
    let b = t.insert(vec![2], peer(), Session::new());
    let mut closed = vec![false; t.slot_count()];
    closed[a] = true;
    t.gc(&closed);
    assert_eq!(t.find(&[2], &[2]), Some(b));
    assert!(!t.is_occupied(a));
    assert!(t.is_occupied(b));
}

#[test]
fn session_event_reaches_the_right_session() {
    let mut t = SessionTable::new();
    let a = t.insert(vec![1], peer(), Session::new());
    t.session_ready(a, ProtoKind::Echo);
    let act = t.session_event(a, TransportEvent::EchoPayload(b"quack".to_vec()));
    match act {
        Action::SendDatagram(reply) => assert_eq!(reply, b"quack-ack".to_vec()),
        _ => panic!("expected a datagram reply"),
    }
}

#[test]
fn peer_of_returns_the_stored_address() {
    let mut t = SessionTable::new();
    let a = t.insert(vec![1], PeerAddr::V4([9, 8, 7, 6]), Session::new());
    match t.peer_of(a) {
        PeerAddr::V4(ip) => assert_eq!(ip, [9, 8, 7, 6]),
        _ => panic!("expected the v4 peer"),
    }
}
