//! Stateless-retry admission tokens.
//!
//! A token is the fixed six-byte tag, then the raw bytes of the client's IP
//! address (four or sixteen, by family), then the original session identifier
//! chosen by the client. Validity is recomputed from the token's own contents
//! against the source address of the packet that carries it, so the server
//! keeps no per-client state. The scheme binds a token to the observed source
//! address and nothing more: anyone who knows the tag can forge tokens, so it
//! only mitigates spoofed-source amplification and must not be relied on for
//! cryptographic integrity.

use vstd::prelude::*;

verus! {

/// A peer's IP address, as the raw bytes the token embeds.
#[derive(Clone, Copy, Debug)]
pub enum PeerAddr {
    V4([u8; 4]),
    V6([u8; 16]),
}

impl PeerAddr {
    /// The raw address bytes: four for V4, sixteen for V6.
    pub open spec fn ip_bytes(&self) -> Seq<u8> {
        match self {
            PeerAddr::V4(a) => a@,
            PeerAddr::V6(a) => a@,
        }
    }

    /// The raw address bytes as a slice.
    pub fn ip_slice(&self) -> (r: &[u8])
        ensures
            r@ == self.ip_bytes(),
    {
        match self {
            PeerAddr::V4(a) => a.as_slice(),
            PeerAddr::V6(a) => a.as_slice(),
        }
    }
}

/// The fixed tag that opens every admission token.
pub open spec fn spec_token_tag() -> Seq<u8> {
    seq![0x71u8, 0x75u8, 0x69u8, 0x63u8, 0x68u8, 0x65u8]
}

/// The tag as bytes.
pub fn token_tag() -> (t: Vec<u8>)
    ensures
        t@ == spec_token_tag(),
{
    let mut t: Vec<u8> = Vec::new();
    t.push(0x71);
    t.push(0x75);
    t.push(0x69);
    t.push(0x63);
    t.push(0x68);
    t.push(0x65);
    proof {
        assert(t@ =~= spec_token_tag());
    }
    t
}

/// The token minted for a source address and an original identifier:
/// tag, then address bytes, then the identifier.
pub open spec fn spec_mint(addr: Seq<u8>, id: Seq<u8>) -> Seq<u8> {
    spec_token_tag() + addr + id
}

/// What validation recovers from a token presented from `addr`: the trailing
/// identifier bytes when the token is long enough, opens with the tag, and
/// embeds exactly `addr`; nothing otherwise.
pub open spec fn spec_validate(addr: Seq<u8>, token: Seq<u8>) -> Option<Seq<u8>> {
    if token.len() < spec_token_tag().len() + addr.len() {
        None
    } else if token.take(spec_token_tag().len() as int) != spec_token_tag() {
        None
    } else if token.subrange(
        spec_token_tag().len() as int,
        spec_token_tag().len() + addr.len() as int,
    ) != addr {
        None
    } else {
        Some(token.skip(spec_token_tag().len() + addr.len() as int))
    }
}

/// Mints a stateless retry token for `addr` and the client's original
/// identifier `id`. The token carries no server-side state and no
/// cryptographic integrity.
pub fn mint_token(addr: &PeerAddr, id: &[u8]) -> (token: Vec<u8>)
    ensures
        token@ == spec_mint(addr.ip_bytes(), id@),
{
    let mut token = token_tag();
    token.extend_from_slice(addr.ip_slice());
    token.extend_from_slice(id);
    token
}

/// Validates a stateless retry token presented from `addr`, returning the
/// original identifier it embeds, or nothing when the token is too short,
/// its tag is wrong, or its address bytes are not those of `addr`.
pub fn validate_token(addr: &PeerAddr, token: &[u8]) -> (r: Option<Vec<u8>>)
    ensures
        r is Some <==> spec_validate(addr.ip_bytes(), token@) is Some,
        r is Some ==> r.unwrap()@ == spec_validate(addr.ip_bytes(), token@).unwrap(),
{
    let tag = token_tag();
    let addr_bytes = addr.ip_slice();
    if token.len() < tag.len() + addr_bytes.len() {
        return None;
    }
    let head = vstd::slice::slice_subrange(token, 0, tag.len());
    if !crate::codec::bytes_eq(head, tag.as_slice()) {
        return None;
    }
    let embedded = vstd::slice::slice_subrange(token, tag.len(), tag.len() + addr_bytes.len());
    if !crate::codec::bytes_eq(embedded, addr_bytes) {
        return None;
    }
    let rest = vstd::slice::slice_subrange(token, tag.len() + addr_bytes.len(), token.len());
    let mut id: Vec<u8> = Vec::new();
    id.extend_from_slice(rest);
    Some(id)
}

/// Round trip: a token minted for an address validates at that same address
/// and recovers exactly the identifier it was minted for.
pub proof fn lemma_token_round_trip(addr: Seq<u8>, id: Seq<u8>)
    ensures
        spec_validate(addr, spec_mint(addr, id)) == Some(id),
{
    let token = spec_mint(addr, id);
    let tag_len = spec_token_tag().len() as int;
    assert(token.take(tag_len) =~= spec_token_tag());
    assert(token.subrange(tag_len, tag_len + addr.len()) =~= addr);
    assert(token.skip(tag_len + addr.len()) =~= id);
}

/// Address binding: a token minted for one address never validates at a
/// different address of the same family.
pub proof fn lemma_token_address_binding(addr1: Seq<u8>, addr2: Seq<u8>, id: Seq<u8>)
    requires
        addr1.len() == addr2.len(),
        addr1 != addr2,
    ensures
        spec_validate(addr2, spec_mint(addr1, id)) is None,
{
    let token = spec_mint(addr1, id);
    let tag_len = spec_token_tag().len() as int;
    if token.len() >= tag_len + addr2.len() && token.take(tag_len) == spec_token_tag() {
        assert(token.subrange(tag_len, tag_len + addr2.len()) =~= addr1);
    }
}

/// Malformed input: a buffer shorter than tag plus address, or one whose
/// first bytes differ from the tag, never validates.
pub proof fn lemma_token_malformed_rejected(addr: Seq<u8>, token: Seq<u8>)
    requires
        token.len() < spec_token_tag().len() + addr.len() || token.take(
            spec_token_tag().len() as int,
        ) != spec_token_tag(),
    ensures
        spec_validate(addr, token) is None,
{
}

} // verus!
