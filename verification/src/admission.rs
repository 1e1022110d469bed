//! Admission of unknown packets, and the event loop's per-iteration
//! decisions.
//!
//! When a datagram's identifiers match no table entry, the packet must be a
//! session-initiation packet or it is dropped. A supported version is
//! required, or the decision is a version-negotiation reply. With stateless
//! retry enabled, a client without a token is challenged with a retry packet
//! carrying a newly derived identifier and a token minted for its address;
//! a client with a token is admitted only when the token validates against
//! its source address and the identifier the token recovers is the one the
//! packet carries. The admitted session is keyed by the derived identifier,
//! the same value the retry announced, so the server never stores the
//! client's initial identifier.

use vstd::prelude::*;
use crate::session_id::{derive_session_id, spec_session_id, MAX_HMAC_INPUT_LEN, SESSION_ID_LEN};
use crate::token::{mint_token, spec_mint, spec_validate, validate_token, PeerAddr};

verus! {

/// Why an unknown packet was dropped without reply.
#[derive(Debug, Clone, Copy, PartialEq, Eq, Structural)]
pub enum DropReason {
    /// The packet is not a session-initiation packet.
    NotInitial,
    /// Its admission token does not validate against the source address.
    InvalidToken,
    /// The token validates, but recovers an identifier other than the one
    /// the packet carries.
    IdMismatch,
}

/// What the event loop must do with a packet whose identifiers matched no
/// table entry.
pub enum AdmissionDecision {
    /// Drop the packet; no session is created and nothing is sent.
    Drop(DropReason),
    /// Reply with a version-negotiation packet; no session is created.
    NegotiateVersion,
    /// Reply with a retry packet carrying the newly derived identifier and
    /// the minted token; no session is created yet.
    Retry { new_id: Vec<u8>, token: Vec<u8> },
    /// Admit: create a session keyed by `id`, remembering the original
    /// identifier the token recovered, when one was required.
    Accept { id: Vec<u8>, original_id: Option<Vec<u8>> },
}

/// Model of an admission decision.
#[verifier::ext_equal]
pub ghost enum AdmissionModel {
    Drop(DropReason),
    NegotiateVersion,
    Retry { new_id: Seq<u8>, token: Seq<u8> },
    Accept { id: Seq<u8>, original_id: Option<Seq<u8>> },
}

impl View for AdmissionDecision {
    type V = AdmissionModel;

    open spec fn view(&self) -> AdmissionModel {
        match self {
            AdmissionDecision::Drop(r) => AdmissionModel::Drop(*r),
            AdmissionDecision::NegotiateVersion => AdmissionModel::NegotiateVersion,
            AdmissionDecision::Retry { new_id, token } => AdmissionModel::Retry {
                new_id: new_id@,
                token: token@,
            },
            AdmissionDecision::Accept { id, original_id } => AdmissionModel::Accept {
                id: id@,
                original_id: match original_id {
                    Some(o) => Some(o@),
                    None => None,
                },
            },
        }
    }
}

/// The admission state machine for one unknown arrival: drop a packet that
/// does not initiate a session; negotiate an unsupported version; with retry
/// enabled, challenge a tokenless client, reject a bad or mismatched token;
/// otherwise admit, keyed by the identifier derived from `key` and the
/// packet's identifier `dcid`.
pub open spec fn spec_admit(
    key: Seq<u8>,
    addr: Seq<u8>,
    is_initial: bool,
    version_supported: bool,
    dcid: Seq<u8>,
    token: Option<Seq<u8>>,
    retry_enabled: bool,
) -> AdmissionModel {
    if !is_initial {
        AdmissionModel::Drop(DropReason::NotInitial)
    } else if !version_supported {
        AdmissionModel::NegotiateVersion
    } else if !retry_enabled {
        AdmissionModel::Accept { id: spec_session_id(key, dcid), original_id: None }
    } else if token is None || token.unwrap().len() == 0 {
        AdmissionModel::Retry {
            new_id: spec_session_id(key, dcid),
            token: spec_mint(addr, dcid),
        }
    } else {
        match spec_validate(addr, token.unwrap()) {
            None => AdmissionModel::Drop(DropReason::InvalidToken),
            Some(orig) => if orig != dcid {
                AdmissionModel::Drop(DropReason::IdMismatch)
            } else {
                AdmissionModel::Accept { id: spec_session_id(key, dcid), original_id: Some(orig) }
            },
        }
    }
}

/// The token carried by a packet, as byte sequences.
pub open spec fn spec_token_view(token: Option<Vec<u8>>) -> Option<Seq<u8>> {
    match token {
        Some(t) => Some(t@),
        None => None,
    }
}

/// Decides what to do with a packet whose identifiers matched no table
/// entry, as `spec_admit` says.
pub fn admit_packet(
    key: &[u8],
    addr: &PeerAddr,
    is_initial: bool,
    version_supported: bool,
    dcid: &[u8],
    token: &Option<Vec<u8>>,
    retry_enabled: bool,
) -> (r: AdmissionDecision)
    requires
        key@.len() <= MAX_HMAC_INPUT_LEN,
        dcid@.len() <= MAX_HMAC_INPUT_LEN,
    ensures
        r@ == spec_admit(
            key@,
            addr.ip_bytes(),
            is_initial,
            version_supported,
            dcid@,
            spec_token_view(*token),
            retry_enabled,
        ),
        r@ matches AdmissionModel::Accept { id, original_id } ==> id.len() == SESSION_ID_LEN,
{
    if !is_initial {
        return AdmissionDecision::Drop(DropReason::NotInitial);
    }
    if !version_supported {
        return AdmissionDecision::NegotiateVersion;
    }
    let derived = derive_session_id(key, dcid);
    if !retry_enabled {
        return AdmissionDecision::Accept { id: derived, original_id: None };
    }
    let token_missing = match token {
        Some(t) => t.len() == 0,
        None => true,
    };
    if token_missing {
        let minted = mint_token(addr, dcid);
        return AdmissionDecision::Retry { new_id: derived, token: minted };
    }
    let t = match token {
        Some(t) => t,
        None => {
            proof {
                assert(false);
            }
            return AdmissionDecision::Drop(DropReason::InvalidToken);
        },
    };
    match validate_token(addr, t.as_slice()) {
        None => AdmissionDecision::Drop(DropReason::InvalidToken),
        Some(orig) => {
            if !crate::codec::bytes_eq(orig.as_slice(), dcid) {
                AdmissionDecision::Drop(DropReason::IdMismatch)
            } else {
                AdmissionDecision::Accept { id: derived, original_id: Some(orig) }
            }
        },
    }
}

/// The readiness poll of one event-loop iteration blocks for the shortest
/// pending timeout over all live sessions: nothing when no session has one,
/// else a value that is one of them and at most each of them.
pub fn min_timeout(timeouts: &Vec<Option<u64>>) -> (r: Option<u64>)
    ensures
        r is None <==> (forall|i: int| 0 <= i < timeouts@.len() ==> timeouts@[i] is None),
        r matches Some(v) ==> (exists|i: int|
            0 <= i < timeouts@.len() && timeouts@[i] == Some(v)),
        r matches Some(v) ==> (forall|i: int|
            0 <= i < timeouts@.len() ==> ((#[trigger] timeouts@[i]) matches Some(w) ==> v
                <= w)),
{
    let mut best: Option<u64> = None;
    let mut i: usize = 0;
    while i < timeouts.len()
        invariant
            0 <= i <= timeouts@.len(),
            best is None <==> (forall|j: int| 0 <= j < i ==> timeouts@[j] is None),
            best matches Some(v) ==> (exists|j: int| 0 <= j < i && timeouts@[j] == Some(v)),
            best matches Some(v) ==> (forall|j: int|
                0 <= j < i ==> ((#[trigger] timeouts@[j]) matches Some(w) ==> v <= w)),
        decreases timeouts@.len() - i,
    {
        match &timeouts[i] {
            Some(t) => {
                let keep = match &best {
                    Some(b) => *b <= *t,
                    None => false,
                };
                if !keep {
                    best = Some(*t);
                    proof {
                        assert(timeouts@[i as int] == Some(*t));
                    }
                }
            },
            None => {},
        }
        i = i + 1;
    }
    best
}

} // verus!
