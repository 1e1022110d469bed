//! Small byte- and text-encoding helpers shared by the other modules:
//! byte-slice equality, decimal rendering of lengths, and hex dumps of
//! identifiers for diagnostics.

use vstd::prelude::*;
use vstd::string::StringExecFns;

verus! {

/// True when the two byte slices hold exactly the same bytes.
pub fn bytes_eq(a: &[u8], b: &[u8]) -> (r: bool)
    ensures
        r == (a@ == b@),
{
    if a.len() != b.len() {
        return false;
    }
    let mut i: usize = 0;
    while i < a.len()
        invariant
            0 <= i <= a@.len(),
            a@.len() == b@.len(),
            forall|j: int| 0 <= j < i ==> a@[j] == b@[j],
        decreases a@.len() - i,
    {
        if a[i] != b[i] {
            return false;
        }
        i = i + 1;
    }
    proof {
        assert(a@ =~= b@);
    }
    true
}

/// The ASCII digits of `n` written in base ten, most significant first.
pub open spec fn spec_decimal(n: nat) -> Seq<u8>
    decreases n,
{
    if n < 10 {
        seq![(0x30 + n) as u8]
    } else {
        spec_decimal(n / 10).push((0x30 + n % 10) as u8)
    }
}

/// Renders `n` in base ten as ASCII bytes, most significant digit first.
pub fn decimal(n: u64) -> (r: Vec<u8>)
    ensures
        r@ == spec_decimal(n as nat),
    decreases n,
{
    if n < 10 {
        let mut r: Vec<u8> = Vec::new();
        r.push(0x30 + n as u8);
        r
    } else {
        let mut r = decimal(n / 10);
        r.push(0x30 + (n % 10) as u8);
        r
    }
}

/// The lowercase hex character for one value below sixteen.
pub open spec fn spec_hex_digit(d: nat) -> char {
    if d == 0 {
        '0'
    } else if d == 1 {
        '1'
    } else if d == 2 {
        '2'
    } else if d == 3 {
        '3'
    } else if d == 4 {
        '4'
    } else if d == 5 {
        '5'
    } else if d == 6 {
        '6'
    } else if d == 7 {
        '7'
    } else if d == 8 {
        '8'
    } else if d == 9 {
        '9'
    } else if d == 10 {
        'a'
    } else if d == 11 {
        'b'
    } else if d == 12 {
        'c'
    } else if d == 13 {
        'd'
    } else if d == 14 {
        'e'
    } else {
        'f'
    }
}

/// Two lowercase hex characters per byte, in order.
pub open spec fn spec_hex(bytes: Seq<u8>) -> Seq<char>
    decreases bytes.len(),
{
    if bytes.len() == 0 {
        Seq::empty()
    } else {
        spec_hex(bytes.drop_last()) + seq![
            spec_hex_digit((bytes.last() / 16) as nat),
            spec_hex_digit((bytes.last() % 16) as nat),
        ]
    }
}

fn hex_char(d: u8) -> (r: &'static str)
    requires
        d < 16,
    ensures
        r@ == seq![spec_hex_digit(d as nat)],
{
    proof {
        reveal_strlit("0");
        reveal_strlit("1");
        reveal_strlit("2");
        reveal_strlit("3");
        reveal_strlit("4");
        reveal_strlit("5");
        reveal_strlit("6");
        reveal_strlit("7");
        reveal_strlit("8");
        reveal_strlit("9");
        reveal_strlit("a");
        reveal_strlit("b");
        reveal_strlit("c");
        reveal_strlit("d");
        reveal_strlit("e");
        reveal_strlit("f");
    }
    match d {
        0 => "0",
        1 => "1",
        2 => "2",
        3 => "3",
        4 => "4",
        5 => "5",
        6 => "6",
        7 => "7",
        8 => "8",
        9 => "9",
        10 => "a",
        11 => "b",
        12 => "c",
        13 => "d",
        14 => "e",
        _ => "f",
    }
}

/// The length in bytes of a variable-length integer, told by the top two
/// bits of its first byte: one, two, four or eight.
pub open spec fn spec_varint_len(b0: u8) -> int {
    if b0 < 0x40 {
        1
    } else if b0 < 0x80 {
        2
    } else if b0 < 0xc0 {
        4
    } else {
        8
    }
}

/// The value a variable-length integer encodes: the first byte's low six
/// bits, then the remaining bytes, big-endian.
pub open spec fn spec_varint_value(b: Seq<u8>) -> int
    recommends
        spec_varint_len(b[0]) <= b.len(),
{
    let lead = (b[0] % 0x40) as int;
    if b[0] < 0x40 {
        lead
    } else if b[0] < 0x80 {
        lead * 0x100 + b[1]
    } else if b[0] < 0xc0 {
        lead * 0x1000000 + b[1] * 0x10000 + b[2] * 0x100 + b[3]
    } else {
        lead * 0x100000000000000 + b[1] * 0x1000000000000 + b[2] * 0x10000000000 + b[3]
            * 0x100000000 + b[4] * 0x1000000 + b[5] * 0x10000 + b[6] * 0x100 + b[7]
    }
}

/// Decodes the variable-length integer that opens the buffer, returning its
/// value and how many bytes it took; nothing when the buffer is empty or
/// ends inside the integer.
pub fn varint_decode(buf: &[u8]) -> (r: Option<(u64, usize)>)
    ensures
        r is Some <==> buf@.len() > 0 && spec_varint_len(buf@[0]) <= buf@.len(),
        r matches Some((v, off)) ==> off == spec_varint_len(buf@[0]) && v == spec_varint_value(
            buf@,
        ),
{
    if buf.len() == 0 {
        return None;
    }
    let b0 = buf[0];
    let lead = (b0 % 0x40) as u64;
    if b0 < 0x40 {
        Some((lead, 1))
    } else if b0 < 0x80 {
        if buf.len() < 2 {
            return None;
        }
        Some((lead * 0x100 + buf[1] as u64, 2))
    } else if b0 < 0xc0 {
        if buf.len() < 4 {
            return None;
        }
        Some((
            lead * 0x1000000 + (buf[1] as u64) * 0x10000 + (buf[2] as u64) * 0x100 + (
            buf[3] as u64),
            4,
        ))
    } else {
        if buf.len() < 8 {
            return None;
        }
        Some((
            lead * 0x100000000000000 + (buf[1] as u64) * 0x1000000000000 + (buf[2] as u64)
                * 0x10000000000 + (buf[3] as u64) * 0x100000000 + (buf[4] as u64) * 0x1000000 + (
            buf[5] as u64) * 0x10000 + (buf[6] as u64) * 0x100 + (buf[7] as u64),
            8,
        ))
    }
}

/// Renders a byte sequence as lowercase hex text, two characters per byte.
pub fn hex_dump(buf: &[u8]) -> (r: String)
    ensures
        r@ == spec_hex(buf@),
{
    let mut s = String::new();
    let mut i: usize = 0;
    while i < buf.len()
        invariant
            0 <= i <= buf@.len(),
            s@ == spec_hex(buf@.take(i as int)),
        decreases buf@.len() - i,
    {
        let b = buf[i];
        s.append(hex_char(b / 16));
        s.append(hex_char(b % 16));
        i = i + 1;
        proof {
            assert(buf@.take(i as int).drop_last() =~= buf@.take(i - 1));
            assert(buf@.take(i as int).last() == buf@[i - 1]);
        }
    }
    proof {
        assert(buf@.take(buf@.len() as int) =~= buf@);
    }
    s
}

} // verus!
