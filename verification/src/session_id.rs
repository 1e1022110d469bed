//! Deterministic session-id derivation.
//!
//! The table key of an admitted session is not the client-chosen identifier
//! but a keyed pseudorandom value computed from a server-side secret key and
//! that identifier, truncated to the session-identifier length. This
//! decouples the table key from attacker-chosen bytes while staying
//! recomputable, so the server need not persist the client's initial
//! identifier: any later packet still carrying it maps to the same key.

use vstd::prelude::*;

verus! {

/// Fixed length of a derived session identifier, in bytes.
pub const SESSION_ID_LEN: usize = 20;

/// Length in bytes of a freshly generated derivation key.
pub const SESSION_KEY_LEN: usize = 32;

/// Inputs longer than this are not handed to the keyed hash (it rejects
/// inputs over the underlying digest's limit of 2^61 bytes).
pub const MAX_HMAC_INPUT_LEN: u64 = 0x1000_0000_0000_0000;

/// The HMAC-SHA-256 tag of `data` under `key`: a fixed function of its two
/// arguments, computed by an outside crate and therefore left uninterpreted.
pub uninterp spec fn hmac_sha256(key: Seq<u8>, data: Seq<u8>) -> Seq<u8>;

/// Relies on ring::hmac::sign with ring::hmac::HMAC_SHA256 (the key built by
/// ring::hmac::Key::new): the tag depends on the key bytes and the data
/// alone, and is as long as a SHA-256 digest.
#[verifier::external_body]
fn hmac_sha256_tag(key: &[u8], data: &[u8]) -> (r: Vec<u8>)
    requires
        key@.len() <= MAX_HMAC_INPUT_LEN,
        data@.len() <= MAX_HMAC_INPUT_LEN,
    ensures
        r@ == hmac_sha256(key@, data@),
        r@.len() == 32,
{
    let k = ring::hmac::Key::new(ring::hmac::HMAC_SHA256, key);
    ring::hmac::sign(&k, data).as_ref().to_vec()
}

/// Relies on ring::rand::SystemRandom through ring::rand::SecureRandom::fill:
/// on success the buffer is filled with `len` bytes; nothing else is assumed
/// of their values.
#[verifier::external_body]
fn system_random_bytes(len: usize) -> (r: Option<Vec<u8>>)
    ensures
        r is Some ==> r.unwrap()@.len() == len,
{
    let rng = ring::rand::SystemRandom::new();
    let mut buf = vec![0u8; len];
    match ring::rand::SecureRandom::fill(&rng, &mut buf) {
        Ok(()) => Some(buf),
        Err(_) => None,
    }
}

/// The identifier derived for a client-chosen identifier under a key: the
/// keyed hash of the identifier, truncated to the session-identifier length.
pub open spec fn spec_session_id(key: Seq<u8>, client_id: Seq<u8>) -> Seq<u8> {
    hmac_sha256(key, client_id).take(SESSION_ID_LEN as int)
}

/// Draws a fresh secret derivation key from the system's secure randomness;
/// nothing when the source fails.
pub fn generate_session_key() -> (r: Option<Vec<u8>>)
    ensures
        r is Some ==> r.unwrap()@.len() == SESSION_KEY_LEN,
{
    system_random_bytes(SESSION_KEY_LEN)
}

/// Derives the deterministic secondary identifier for a session from the
/// server's secret `key` and the client-chosen `client_id`. Equal inputs
/// always yield equal outputs, so the value never needs to be stored.
pub fn derive_session_id(key: &[u8], client_id: &[u8]) -> (r: Vec<u8>)
    requires
        key@.len() <= MAX_HMAC_INPUT_LEN,
        client_id@.len() <= MAX_HMAC_INPUT_LEN,
    ensures
        r@ == spec_session_id(key@, client_id@),
        r@.len() == SESSION_ID_LEN,
{
    let mut tag = hmac_sha256_tag(key, client_id);
    tag.truncate(SESSION_ID_LEN);
    proof {
        assert(tag@ =~= hmac_sha256(key@, client_id@).take(SESSION_ID_LEN as int));
    }
    tag
}

/// Determinism: derivation is a function of the key and the client identifier
/// alone, so repeated derivation from the same pair always yields the same
/// identifier. (That distinct identifiers yield distinct outputs is only
/// overwhelmingly probable, not certain, and is not stated.)
pub proof fn lemma_session_id_deterministic(
    key1: Seq<u8>,
    id1: Seq<u8>,
    key2: Seq<u8>,
    id2: Seq<u8>,
)
    requires
        key1 == key2,
        id1 == id2,
    ensures
        spec_session_id(key1, id1) == spec_session_id(key2, id2),
{
}

} // verus!
