use dgram_relay::token::{mint_token, validate_token, PeerAddr};

#[test]
fn mint_layout_v4() {
    let addr = PeerAddr::V4([127, 0, 0, 1]);
    let token = mint_token(&addr, b"orig-id");
    let mut expected = b"quiche".to_vec();
    expected.extend_from_slice(&[127, 0, 0, 1]);
    expected.extend_from_slice(b"orig-id");
    assert_eq!(token, expected);
}

#[test]
fn round_trip_v4() {
    let addr = PeerAddr::V4([10, 0, 0, 7]);
    let token = mint_token(&addr, b"abcdef");
    let recovered = validate_token(&addr, &token);
    assert_eq!(recovered, Some(b"abcdef".to_vec()));
}

#[test]
fn round_trip_v6() {
    let addr = PeerAddr::V6([0, 1, 2, 3, 4, 5, 6, 7, 8, 9, 10, 11, 12, 13, 14, 15]);
    let token = mint_token(&addr, &[0xaa, 0xbb]);
    let recovered = validate_token(&addr, &token);
    assert_eq!(recovered, Some(vec![0xaa, 0xbb]));
}

#[test]
fn round_trip_empty_identifier() {
    let addr = PeerAddr::V4([192, 168, 1, 1]);
    let token = mint_token(&addr, &[]);
    assert_eq!(validate_token(&addr, &token), Some(Vec::new()));
}

#[test]
fn address_binding_rejects_other_address() {
    let addr1 = PeerAddr::V4([10, 0, 0, 1]);
    let addr2 = PeerAddr::V4([10, 0, 0, 2]);
    let token = mint_token(&addr1, b"orig-id");
    assert_eq!(validate_token(&addr2, &token), None);
}

#[test]
fn address_binding_rejects_other_v6_address() {
    let addr1 = PeerAddr::V6([1; 16]);
    let addr2 = PeerAddr::V6([2; 16]);
    let token = mint_token(&addr1, b"x");
    assert_eq!(validate_token(&addr2, &token), None);
}

#[test]
fn rejects_token_shorter_than_tag_plus_address() {
    let addr = PeerAddr::V4([1, 2, 3, 4]);
    assert_eq!(validate_token(&addr, b""), None);
    assert_eq!(validate_token(&addr, b"quic"), None);
    assert_eq!(validate_token(&addr, b"quiche"), None);
    // Tag plus only three of the four address bytes.
    assert_eq!(validate_token(&addr, b"quiche\x01\x02\x03"), None);
}

#[test]
fn rejects_wrong_tag() {
    let addr = PeerAddr::V4([1, 2, 3, 4]);
    let mut token = b"quichf".to_vec();
    token.extend_from_slice(&[1, 2, 3, 4]);
    token.extend_from_slice(b"id");
    assert_eq!(validate_token(&addr, &token), None);
}

#[test]
fn exact_boundary_token_validates() {
    // Exactly tag plus address, with an empty identifier.
    let addr = PeerAddr::V4([9, 9, 9, 9]);
    let mut token = b"quiche".to_vec();
    token.extend_from_slice(&[9, 9, 9, 9]);
    assert_eq!(validate_token(&addr, &token), Some(Vec::new()));
}
