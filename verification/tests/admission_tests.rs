use dgram_relay::admission::{admit_packet, min_timeout, AdmissionDecision, DropReason};
use dgram_relay::session_id::{derive_session_id, generate_session_key, SESSION_ID_LEN};
use dgram_relay::token::{mint_token, PeerAddr};

fn key() -> Vec<u8> {
    vec![7u8; 32]
}

fn peer() -> PeerAddr {
    PeerAddr::V4([10, 0, 0, 1])
}

#[test]
fn non_initial_packet_is_dropped() {
    let d = admit_packet(&key(), &peer(), false, true, b"dcid", &None, true);
    assert!(matches!(d, AdmissionDecision::Drop(DropReason::NotInitial)));
}

#[test]
fn unsupported_version_draws_negotiation() {
    let d = admit_packet(&key(), &peer(), true, false, b"dcid", &None, true);
    assert!(matches!(d, AdmissionDecision::NegotiateVersion));
}

#[test]
fn retry_disabled_admits_under_derived_id() {
    let d = admit_packet(&key(), &peer(), true, true, b"dcid", &None, false);
    match d {
        AdmissionDecision::Accept { id, original_id } => {
            assert_eq!(id, derive_session_id(&key(), b"dcid"));
            assert_eq!(id.len(), SESSION_ID_LEN);
            assert!(original_id.is_none());
        },
        _ => panic!("expected an accept"),
    }
}

#[test]
fn missing_token_draws_retry() {
    let d = admit_packet(&key(), &peer(), true, true, b"dcid", &None, true);
    match d {
        AdmissionDecision::Retry { new_id, token } => {
            assert_eq!(new_id, derive_session_id(&key(), b"dcid"));
            assert_eq!(token, mint_token(&peer(), b"dcid"));
        },
        _ => panic!("expected a retry"),
    }
}

#[test]
fn empty_token_draws_retry() {
    let d = admit_packet(&key(), &peer(), true, true, b"dcid", &Some(Vec::new()), true);
    assert!(matches!(d, AdmissionDecision::Retry { .. }));
}

#[test]
fn invalid_token_is_dropped() {
    let d = admit_packet(
        &key(),
        &peer(),
        true,
        true,
        b"dcid",
        &Some(b"not a token".to_vec()),
        true,
    );
    assert!(matches!(d, AdmissionDecision::Drop(DropReason::InvalidToken)));
}

#[test]
fn token_for_other_address_is_dropped() {
    let other = PeerAddr::V4([10, 0, 0, 2]);
    let token = mint_token(&other, b"dcid");
    let d = admit_packet(&key(), &peer(), true, true, b"dcid", &Some(token), true);
    assert!(matches!(d, AdmissionDecision::Drop(DropReason::InvalidToken)));
}

#[test]
fn token_recovering_other_identifier_is_dropped() {
    let token = mint_token(&peer(), b"other");
    let d = admit_packet(&key(), &peer(), true, true, b"dcid", &Some(token), true);
    assert!(matches!(d, AdmissionDecision::Drop(DropReason::IdMismatch)));
}

#[test]
fn valid_token_admits_and_recovers_original() {
    let token = mint_token(&peer(), b"dcid");
    let d = admit_packet(&key(), &peer(), true, true, b"dcid", &Some(token), true);
    match d {
        AdmissionDecision::Accept { id, original_id } => {
            assert_eq!(id, derive_session_id(&key(), b"dcid"));
            assert_eq!(original_id, Some(b"dcid".to_vec()));
        },
        _ => panic!("expected an accept"),
    }
}

#[test]
fn derivation_is_deterministic() {
    let a = derive_session_id(&key(), b"client-chosen");
    let b = derive_session_id(&key(), b"client-chosen");
    assert_eq!(a, b);
    assert_eq!(a.len(), SESSION_ID_LEN);
}

#[test]
fn derivation_distinguishes_identifiers() {
    let a = derive_session_id(&key(), b"one");
    let b = derive_session_id(&key(), b"two");
    assert_ne!(a, b);
}

#[test]
fn derivation_distinguishes_keys() {
    let a = derive_session_id(&[1u8; 32], b"same");
    let b = derive_session_id(&[2u8; 32], b"same");
    assert_ne!(a, b);
}

#[test]
fn derivation_is_not_the_identity() {
    // Twenty bytes in, twenty bytes out, but keyed-hashed, not echoed.
    let input = [0x55u8; 20];
    let out = derive_session_id(&key(), &input);
    assert_eq!(out.len(), SESSION_ID_LEN);
    assert_ne!(out, input.to_vec());
}

#[test]
fn generated_keys_are_long_and_fresh() {
    let a = generate_session_key().unwrap();
    let b = generate_session_key().unwrap();
    assert_eq!(a.len(), 32);
    assert_eq!(b.len(), 32);
    assert_ne!(a, b);
}

#[test]
fn min_timeout_of_nothing_is_none() {
    assert_eq!(min_timeout(&Vec::new()), None);
    assert_eq!(min_timeout(&vec![None, None]), None);
}

#[test]
fn min_timeout_picks_the_shortest() {
    assert_eq!(min_timeout(&vec![Some(30), None, Some(10), Some(20)]), Some(10));
    assert_eq!(min_timeout(&vec![None, Some(5)]), Some(5));
}
