use dgram_relay::session::{
    handle_echo_request, Action, ProtoKind, Session, TransportEvent, ECHO_CLOSE_CODE,
    CONTROL_STREAM_ID, FIRST_SERVER_UNI_STREAM_ID, INDICATION_CLOSE_CODE,
};

fn good_indication() -> Vec<u8> {
    vec![
        0x00, 0x00, 0x00, 0x06, 0x6f, 0x72, 0x69, 0x67, 0x69, 0x6e, 0x00, 0x01, 0x00, 0x04, 0x70,
        0x61, 0x74, 0x68,
    ]
}

fn relay_session_with_indication() -> Session {
    let mut s = Session::new();
    s.on_transport_ready(ProtoKind::StreamRelay);
    let a = s.handle_event(TransportEvent::StreamData {
        stream_id: CONTROL_STREAM_ID,
        data: good_indication(),
        fin: true,
    });
    assert!(matches!(a, Action::Ignore));
    s
}

#[test]
fn echo_matching_payload_is_acknowledged() {
    let a = handle_echo_request(b"quack");
    match a {
        Action::SendDatagram(reply) => assert_eq!(reply, b"quack-ack".to_vec()),
        _ => panic!("expected a datagram reply"),
    }
}

#[test]
fn echo_other_payload_closes_session() {
    let a = handle_echo_request(b"moo");
    match a {
        Action::CloseSession { app, code, reason } => {
            assert!(app);
            assert_eq!(code, ECHO_CLOSE_CODE);
            assert_eq!(reason, b"only quacks echo".to_vec());
        },
        _ => panic!("expected a close"),
    }
}

#[test]
fn echo_empty_payload_closes_session() {
    assert!(matches!(handle_echo_request(b""), Action::CloseSession { .. }));
}

#[test]
fn echo_session_dispatches_datagram() {
    let mut s = Session::new();
    s.on_transport_ready(ProtoKind::Echo);
    let a = s.handle_event(TransportEvent::EchoPayload(b"quack".to_vec()));
    match a {
        Action::SendDatagram(reply) => assert_eq!(reply, b"quack-ack".to_vec()),
        _ => panic!("expected a datagram reply"),
    }
}

#[test]
fn unidirectional_stream_answered_once_with_decimal_length() {
    let mut s = relay_session_with_indication();
    // Five bytes on a client unidirectional data stream (id 6).
    let a = s.handle_event(TransportEvent::StreamData {
        stream_id: 6,
        data: b"hello".to_vec(),
        fin: true,
    });
    match a {
        Action::SendStream { stream_id, body, fin } => {
            assert_eq!(stream_id, FIRST_SERVER_UNI_STREAM_ID);
            assert_eq!(body, b"5".to_vec());
            assert!(fin);
        },
        _ => panic!("expected a stream reply"),
    }
    // The same stream again draws no second response.
    let a2 = s.handle_event(TransportEvent::StreamData {
        stream_id: 6,
        data: b"more".to_vec(),
        fin: true,
    });
    assert!(matches!(a2, Action::Ignore));
}

#[test]
fn bidirectional_stream_reuses_its_own_id() {
    let mut s = relay_session_with_indication();
    let a = s.handle_event(TransportEvent::StreamData {
        stream_id: 4,
        data: b"abc".to_vec(),
        fin: true,
    });
    match a {
        Action::SendStream { stream_id, body, fin } => {
            assert_eq!(stream_id, 4);
            assert_eq!(body, b"3".to_vec());
            assert!(fin);
        },
        _ => panic!("expected a stream reply"),
    }
}

#[test]
fn server_uni_ids_step_by_four() {
    let mut s = relay_session_with_indication();
    let a1 = s.handle_event(TransportEvent::StreamData {
        stream_id: 6,
        data: b"a".to_vec(),
        fin: true,
    });
    let a2 = s.handle_event(TransportEvent::StreamData {
        stream_id: 10,
        data: b"bb".to_vec(),
        fin: true,
    });
    match (a1, a2) {
        (
            Action::SendStream { stream_id: id1, .. },
            Action::SendStream { stream_id: id2, body, .. },
        ) => {
            assert_eq!(id1, 3);
            assert_eq!(id2, 7);
            assert_eq!(body, b"2".to_vec());
        },
        _ => panic!("expected two stream replies"),
    }
}

#[test]
fn stream_bytes_accumulate_until_fin() {
    let mut s = relay_session_with_indication();
    let a = s.handle_event(TransportEvent::StreamData {
        stream_id: 6,
        data: b"hel".to_vec(),
        fin: false,
    });
    assert!(matches!(a, Action::Ignore));
    let a2 = s.handle_event(TransportEvent::StreamData {
        stream_id: 6,
        data: b"lo!!".to_vec(),
        fin: true,
    });
    match a2 {
        Action::SendStream { body, .. } => assert_eq!(body, b"7".to_vec()),
        _ => panic!("expected a stream reply"),
    }
}

#[test]
fn bad_indication_closes_session() {
    let mut s = Session::new();
    s.on_transport_ready(ProtoKind::StreamRelay);
    let a = s.handle_event(TransportEvent::StreamData {
        stream_id: CONTROL_STREAM_ID,
        data: vec![0x00, 0x02],
        fin: true,
    });
    match a {
        Action::CloseSession { app, code, reason } => {
            assert!(!app);
            assert_eq!(code, INDICATION_CLOSE_CODE);
            assert_eq!(reason, b"QuicTransport client indication fail".to_vec());
        },
        _ => panic!("expected a close"),
    }
}

#[test]
fn data_stream_before_indication_is_not_answered() {
    let mut s = Session::new();
    s.on_transport_ready(ProtoKind::StreamRelay);
    let a = s.handle_event(TransportEvent::StreamData {
        stream_id: 6,
        data: b"early".to_vec(),
        fin: true,
    });
    assert!(matches!(a, Action::Ignore));
}

#[test]
fn data_stream_after_rejected_indication_is_ignored() {
    let mut s = Session::new();
    s.on_transport_ready(ProtoKind::StreamRelay);
    s.handle_event(TransportEvent::StreamData {
        stream_id: CONTROL_STREAM_ID,
        data: vec![0x00, 0x05],
        fin: true,
    });
    let a = s.handle_event(TransportEvent::StreamData {
        stream_id: 6,
        data: b"data".to_vec(),
        fin: true,
    });
    assert!(matches!(a, Action::Ignore));
}

#[test]
fn relay_datagram_is_answered_with_its_length() {
    let mut s = relay_session_with_indication();
    let a = s.handle_event(TransportEvent::RelayDatagram(b"0123456".to_vec()));
    match a {
        Action::SendDatagram(body) => assert_eq!(body, b"7".to_vec()),
        _ => panic!("expected a datagram reply"),
    }
}

#[test]
fn overlay_datagram_echoes_on_same_flow() {
    let mut s = Session::new();
    s.on_transport_ready(ProtoKind::DatagramRelay);
    let a = s.handle_event(TransportEvent::OverlayDatagram {
        flow_id: 9,
        data: b"payload".to_vec(),
    });
    match a {
        Action::SendOverlayDatagram { flow_id, data } => {
            assert_eq!(flow_id, 9);
            assert_eq!(data, b"payload".to_vec());
        },
        _ => panic!("expected an overlay reply"),
    }
}

#[test]
fn mismatched_event_is_ignored() {
    let mut s = Session::new();
    s.on_transport_ready(ProtoKind::Echo);
    let a = s.handle_event(TransportEvent::StreamData {
        stream_id: 4,
        data: b"abc".to_vec(),
        fin: true,
    });
    assert!(matches!(a, Action::Ignore));
}

#[test]
fn unprotocoled_session_ignores_events() {
    let mut s = Session::new();
    let a = s.handle_event(TransportEvent::EchoPayload(b"quack".to_vec()));
    assert!(matches!(a, Action::Ignore));
}

#[test]
fn protocol_is_fixed_once() {
    let mut s = Session::new();
    s.on_transport_ready(ProtoKind::Echo);
    // A later readiness report with another kind changes nothing.
    s.on_transport_ready(ProtoKind::DatagramRelay);
    let a = s.handle_event(TransportEvent::EchoPayload(b"quack".to_vec()));
    assert!(matches!(a, Action::SendDatagram(_)));
}
