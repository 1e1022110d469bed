//! Defensive parser for the out-of-band client indication message.
//!
//! The message is a fixed sequence of tagged fields, each a two-byte
//! big-endian field key followed by a two-byte big-endian length and that
//! many bytes of text: field key zero carries the origin, field key one the
//! path. Decoding fails when the buffer is shorter than a field requires,
//! when a field key is not the expected next key, or when a field's text is
//! not valid UTF-8. No semantic validation of the texts is done here.

use vstd::prelude::*;
use vstd::utf8::{decode_utf8, valid_utf8};

verus! {

/// The parsed client indication: where the client comes from and what it
/// asks for. Immutable once parsed.
#[derive(Debug, PartialEq, Eq)]
pub struct ClientIndication {
    pub origin: String,
    pub path: String,
}

/// Why a client indication failed to decode; a parse failure is terminal for
/// the session that sent it.
#[derive(Debug, Clone, Copy, PartialEq, Eq, Structural)]
pub enum IndicationError {
    /// The buffer ends before a field is complete.
    Truncated,
    /// A field key is not the expected next key in sequence.
    UnexpectedFieldKey,
    /// A field's bytes are not valid UTF-8.
    InvalidText,
}

/// The big-endian sixteen-bit value at offset `i`.
pub open spec fn spec_be16(b: Seq<u8>, i: int) -> int
    recommends
        0 <= i,
        i + 2 <= b.len(),
{
    b[i] * 256 + b[i + 1]
}

/// The field key expected to open the origin field.
pub open spec fn origin_field_key() -> int {
    0
}

/// The field key expected to open the path field.
pub open spec fn path_field_key() -> int {
    1
}

/// What decoding a client indication buffer yields: the origin and path
/// texts, or the first failure met reading the fields in order.
pub open spec fn spec_parse(buf: Seq<u8>) -> Result<(Seq<char>, Seq<char>), IndicationError> {
    if buf.len() < 2 {
        Err(IndicationError::Truncated)
    } else if spec_be16(buf, 0) != origin_field_key() {
        Err(IndicationError::UnexpectedFieldKey)
    } else if buf.len() < 4 {
        Err(IndicationError::Truncated)
    } else {
        let olen = spec_be16(buf, 2);
        if buf.len() < 4 + olen {
            Err(IndicationError::Truncated)
        } else {
            let origin_bytes = buf.subrange(4, 4 + olen);
            if !valid_utf8(origin_bytes) {
                Err(IndicationError::InvalidText)
            } else {
                let off = 4 + olen;
                if buf.len() < off + 2 {
                    Err(IndicationError::Truncated)
                } else if spec_be16(buf, off) != path_field_key() {
                    Err(IndicationError::UnexpectedFieldKey)
                } else if buf.len() < off + 4 {
                    Err(IndicationError::Truncated)
                } else {
                    let plen = spec_be16(buf, off + 2);
                    if buf.len() < off + 4 + plen {
                        Err(IndicationError::Truncated)
                    } else {
                        let path_bytes = buf.subrange(off + 4, off + 4 + plen);
                        if !valid_utf8(path_bytes) {
                            Err(IndicationError::InvalidText)
                        } else {
                            Ok((decode_utf8(origin_bytes), decode_utf8(path_bytes)))
                        }
                    }
                }
            }
        }
    }
}

/// Relies on core::str::from_utf8: it succeeds exactly on valid UTF-8 and
/// yields the characters those bytes encode.
#[verifier::external_body]
fn utf8_to_string(bytes: &[u8]) -> (r: Option<String>)
    ensures
        r is Some <==> valid_utf8(bytes@),
        r is Some ==> r.unwrap()@ == decode_utf8(bytes@),
{
    match core::str::from_utf8(bytes) {
        Ok(s) => Some(s.to_string()),
        Err(_) => None,
    }
}

/// The big-endian sixteen-bit value read at offset `i`.
fn be16_at(buf: &[u8], i: usize) -> (r: usize)
    requires
        i + 2 <= buf@.len(),
    ensures
        r == spec_be16(buf@, i as int),
        r < 65536,
{
    (buf[i] as usize) * 256 + (buf[i + 1] as usize)
}

/// Decodes a client indication from an untrusted buffer: origin text, then
/// path text, each length-prefixed, or the first decoding failure.
pub fn parse_client_indication(buf: &[u8]) -> (r: Result<ClientIndication, IndicationError>)
    ensures
        spec_parse(buf@) matches Ok(p) ==> r matches Ok(ind) && ind.origin@ == p.0
            && ind.path@ == p.1,
        spec_parse(buf@) matches Err(e) ==> r matches Err(e2) && e == e2,
{
    if buf.len() < 2 {
        return Err(IndicationError::Truncated);
    }
    if be16_at(buf, 0) != 0 {
        return Err(IndicationError::UnexpectedFieldKey);
    }
    if buf.len() < 4 {
        return Err(IndicationError::Truncated);
    }
    let olen = be16_at(buf, 2);
    if buf.len() < 4 + olen {
        return Err(IndicationError::Truncated);
    }
    let origin_bytes = vstd::slice::slice_subrange(buf, 4, 4 + olen);
    let origin = match utf8_to_string(origin_bytes) {
        Some(s) => s,
        None => {
            return Err(IndicationError::InvalidText);
        },
    };
    let off = 4 + olen;
    if buf.len() < off + 2 {
        return Err(IndicationError::Truncated);
    }
    if be16_at(buf, off) != 1 {
        return Err(IndicationError::UnexpectedFieldKey);
    }
    if buf.len() < off + 4 {
        return Err(IndicationError::Truncated);
    }
    let plen = be16_at(buf, off + 2);
    if buf.len() < off + 4 + plen {
        return Err(IndicationError::Truncated);
    }
    let path_bytes = vstd::slice::slice_subrange(buf, off + 4, off + 4 + plen);
    let path = match utf8_to_string(path_bytes) {
        Some(s) => s,
        None => {
            return Err(IndicationError::InvalidText);
        },
    };
    Ok(ClientIndication { origin, path })
}

/// True exactly when the buffer decodes as a complete client indication.
pub fn process_client_indication(buf: &[u8]) -> (ok: bool)
    ensures
        ok == (spec_parse(buf@) is Ok),
{
    parse_client_indication(buf).is_ok()
}

} // verus!
