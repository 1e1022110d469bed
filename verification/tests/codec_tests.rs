use dgram_relay::codec::{bytes_eq, decimal, hex_dump, varint_decode};

#[test]
fn decimal_renders_single_digits() {
    assert_eq!(decimal(0), b"0".to_vec());
    assert_eq!(decimal(7), b"7".to_vec());
}

#[test]
fn decimal_renders_multi_digit_values() {
    assert_eq!(decimal(10), b"10".to_vec());
    assert_eq!(decimal(12345), b"12345".to_vec());
    assert_eq!(decimal(1350), b"1350".to_vec());
}

#[test]
fn decimal_renders_the_largest_value() {
    assert_eq!(decimal(u64::MAX), b"18446744073709551615".to_vec());
}

#[test]
fn hex_dump_renders_two_digits_per_byte() {
    assert_eq!(hex_dump(&[]), "");
    assert_eq!(hex_dump(&[0x00]), "00");
    assert_eq!(hex_dump(&[0xde, 0xad, 0xbe, 0xef]), "deadbeef");
    assert_eq!(hex_dump(&[0x0f, 0xf0]), "0ff0");
}

#[test]
fn varint_decodes_each_width() {
    assert_eq!(varint_decode(&[0x25]), Some((0x25, 1)));
    assert_eq!(varint_decode(&[0x7b, 0xbd]), Some((15293, 2)));
    assert_eq!(varint_decode(&[0x9d, 0x7f, 0x3e, 0x7d]), Some((494878333, 4)));
    assert_eq!(
        varint_decode(&[0xc2, 0x19, 0x7c, 0x5e, 0xff, 0x14, 0xe8, 0x8c]),
        Some((151288809941952652, 8))
    );
}

#[test]
fn varint_rejects_truncated_input() {
    assert_eq!(varint_decode(&[]), None);
    assert_eq!(varint_decode(&[0x7b]), None);
    assert_eq!(varint_decode(&[0x9d, 0x7f]), None);
    assert_eq!(varint_decode(&[0xc2, 0x19, 0x7c]), None);
}

#[test]
fn varint_leaves_trailing_bytes_alone() {
    assert_eq!(varint_decode(&[0x00, 0xaa, 0xbb]), Some((0, 1)));
}

#[test]
fn bytes_eq_compares_contents() {
    assert!(bytes_eq(b"abc", b"abc"));
    assert!(!bytes_eq(b"abc", b"abd"));
    assert!(!bytes_eq(b"abc", b"ab"));
    assert!(bytes_eq(b"", b""));
}
