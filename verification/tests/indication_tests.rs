use dgram_relay::indication::{parse_client_indication, process_client_indication, IndicationError};

fn good_indication() -> Vec<u8> {
    // key=0, len=6, "origin", key=1, len=4, "path"
    vec![
        0x00, 0x00, 0x00, 0x06, 0x6f, 0x72, 0x69, 0x67, 0x69, 0x6e, 0x00, 0x01, 0x00, 0x04, 0x70,
        0x61, 0x74, 0x68,
    ]
}

#[test]
fn parses_origin_and_path() {
    let ind = parse_client_indication(&good_indication()).unwrap();
    assert_eq!(ind.origin, "origin");
    assert_eq!(ind.path, "path");
}

#[test]
fn process_accepts_good_indication() {
    assert!(process_client_indication(&good_indication()));
}

#[test]
fn rejects_second_field_key_zero() {
    let mut buf = good_indication();
    // Overwrite the second field key (offset 10..12) with 0 instead of 1.
    buf[10] = 0x00;
    buf[11] = 0x00;
    assert_eq!(
        parse_client_indication(&buf),
        Err(IndicationError::UnexpectedFieldKey)
    );
    assert!(!process_client_indication(&buf));
}

#[test]
fn rejects_first_field_key_not_zero() {
    let mut buf = good_indication();
    buf[1] = 0x02;
    assert_eq!(
        parse_client_indication(&buf),
        Err(IndicationError::UnexpectedFieldKey)
    );
}

#[test]
fn rejects_length_beyond_buffer() {
    let mut buf = good_indication();
    // Claim an origin longer than what the buffer holds.
    buf[2] = 0xff;
    buf[3] = 0xff;
    assert_eq!(parse_client_indication(&buf), Err(IndicationError::Truncated));
}

#[test]
fn rejects_path_length_beyond_buffer() {
    let mut buf = good_indication();
    buf[13] = 0x05;
    assert_eq!(parse_client_indication(&buf), Err(IndicationError::Truncated));
}

#[test]
fn rejects_empty_buffer() {
    assert_eq!(parse_client_indication(&[]), Err(IndicationError::Truncated));
}

#[test]
fn rejects_buffer_cut_inside_field_key() {
    assert_eq!(parse_client_indication(&[0x00]), Err(IndicationError::Truncated));
}

#[test]
fn rejects_buffer_ending_after_origin() {
    let buf = good_indication();
    assert_eq!(
        parse_client_indication(&buf[..10]),
        Err(IndicationError::Truncated)
    );
}

#[test]
fn rejects_invalid_utf8_origin() {
    let mut buf = good_indication();
    // 0xff can never open a UTF-8 encoded character.
    buf[4] = 0xff;
    assert_eq!(parse_client_indication(&buf), Err(IndicationError::InvalidText));
}

#[test]
fn rejects_invalid_utf8_path() {
    let mut buf = good_indication();
    buf[14] = 0xff;
    assert_eq!(parse_client_indication(&buf), Err(IndicationError::InvalidText));
}

#[test]
fn accepts_empty_texts() {
    let buf = vec![0x00, 0x00, 0x00, 0x00, 0x00, 0x01, 0x00, 0x00];
    let ind = parse_client_indication(&buf).unwrap();
    assert_eq!(ind.origin, "");
    assert_eq!(ind.path, "");
}

#[test]
fn ignores_trailing_bytes() {
    let mut buf = good_indication();
    buf.push(0x77);
    let ind = parse_client_indication(&buf).unwrap();
    assert_eq!(ind.origin, "origin");
    assert_eq!(ind.path, "path");
}

#[test]
fn parses_non_ascii_utf8_text() {
    // origin = "é" (two UTF-8 bytes), path = "p"
    let buf = vec![0x00, 0x00, 0x00, 0x02, 0xc3, 0xa9, 0x00, 0x01, 0x00, 0x01, 0x70];
    let ind = parse_client_indication(&buf).unwrap();
    assert_eq!(ind.origin, "\u{e9}");
    assert_eq!(ind.path, "p");
}
