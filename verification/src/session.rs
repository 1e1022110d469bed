//! Per-session state and the protocol demultiplexer.
//!
//! A session tracks which sub-protocol was negotiated for it and how far that
//! sub-protocol's exchange has progressed. The demultiplexer takes one
//! transport event at a time (a datagram, or bytes arriving on a stream) and
//! returns the single action the event loop must perform: send something,
//! close the session, or nothing. All decisions are made here, over plain
//! values; the opaque transport session that produced the events stays with
//! the event loop.

use vstd::prelude::*;
use crate::codec::{bytes_eq, decimal, spec_decimal};
use crate::indication::{parse_client_indication, spec_parse, ClientIndication};

verus! {

/// The stream on which a relay client sends its client indication.
pub const CONTROL_STREAM_ID: u64 = 2;

/// First server-initiated unidirectional stream id.
pub const FIRST_SERVER_UNI_STREAM_ID: u64 = 3;

/// Distance between consecutive stream ids of one kind in the id space.
pub const STREAM_ID_STEP: u64 = 4;

/// Application close code for a bad echo request.
pub const ECHO_CLOSE_CODE: u64 = 0x101;

/// Transport close code for a bad client indication.
pub const INDICATION_CLOSE_CODE: u64 = 0x1;

/// The only request payload the echo sub-protocol accepts: `quack`.
pub open spec fn spec_echo_request() -> Seq<u8> {
    seq![0x71u8, 0x75u8, 0x61u8, 0x63u8, 0x6bu8]
}

/// The suffix appended to an accepted echo request: `-ack`.
pub open spec fn spec_echo_suffix() -> Seq<u8> {
    seq![0x2du8, 0x61u8, 0x63u8, 0x6bu8]
}

/// The close reason sent for a bad echo request: `only quacks echo`.
pub open spec fn spec_echo_close_reason() -> Seq<u8> {
    seq![
        0x6fu8, 0x6eu8, 0x6cu8, 0x79u8, 0x20u8, 0x71u8, 0x75u8, 0x61u8, 0x63u8, 0x6bu8, 0x73u8,
        0x20u8, 0x65u8, 0x63u8, 0x68u8, 0x6fu8,
    ]
}

/// The close reason sent for a bad client indication:
/// `QuicTransport client indication fail`.
pub open spec fn spec_indication_close_reason() -> Seq<u8> {
    seq![
        0x51u8, 0x75u8, 0x69u8, 0x63u8, 0x54u8, 0x72u8, 0x61u8, 0x6eu8, 0x73u8, 0x70u8, 0x6fu8,
        0x72u8, 0x74u8, 0x20u8, 0x63u8, 0x6cu8, 0x69u8, 0x65u8, 0x6eu8, 0x74u8, 0x20u8, 0x69u8,
        0x6eu8, 0x64u8, 0x69u8, 0x63u8, 0x61u8, 0x74u8, 0x69u8, 0x6fu8, 0x6eu8, 0x20u8, 0x66u8,
        0x61u8, 0x69u8, 0x6cu8,
    ]
}

/// The expected echo request payload as bytes.
pub fn echo_request() -> (v: Vec<u8>)
    ensures
        v@ == spec_echo_request(),
{
    let mut v: Vec<u8> = Vec::new();
    v.push(0x71);
    v.push(0x75);
    v.push(0x61);
    v.push(0x63);
    v.push(0x6b);
    proof {
        assert(v@ =~= spec_echo_request());
    }
    v
}

/// The echo response suffix as bytes.
pub fn echo_suffix() -> (v: Vec<u8>)
    ensures
        v@ == spec_echo_suffix(),
{
    let mut v: Vec<u8> = Vec::new();
    v.push(0x2d);
    v.push(0x61);
    v.push(0x63);
    v.push(0x6b);
    proof {
        assert(v@ =~= spec_echo_suffix());
    }
    v
}

/// The close reason for a bad echo request as bytes.
pub fn echo_close_reason() -> (v: Vec<u8>)
    ensures
        v@ == spec_echo_close_reason(),
{
    let mut v: Vec<u8> = Vec::new();
    v.push(0x6f);
    v.push(0x6e);
    v.push(0x6c);
    v.push(0x79);
    v.push(0x20);
    v.push(0x71);
    v.push(0x75);
    v.push(0x61);
    v.push(0x63);
    v.push(0x6b);
    v.push(0x73);
    v.push(0x20);
    v.push(0x65);
    v.push(0x63);
    v.push(0x68);
    v.push(0x6f);
    proof {
        assert(v@ =~= spec_echo_close_reason());
    }
    v
}

/// The close reason for a bad client indication as bytes.
pub fn indication_close_reason() -> (v: Vec<u8>)
    ensures
        v@ == spec_indication_close_reason(),
{
    let mut v: Vec<u8> = Vec::new();
    v.push(0x51);
    v.push(0x75);
    v.push(0x69);
    v.push(0x63);
    v.push(0x54);
    v.push(0x72);
    v.push(0x61);
    v.push(0x6e);
    v.push(0x73);
    v.push(0x70);
    v.push(0x6f);
    v.push(0x72);
    v.push(0x74);
    v.push(0x20);
    v.push(0x63);
    v.push(0x6c);
    v.push(0x69);
    v.push(0x65);
    v.push(0x6e);
    v.push(0x74);
    v.push(0x20);
    v.push(0x69);
    v.push(0x6e);
    v.push(0x64);
    v.push(0x69);
    v.push(0x63);
    v.push(0x61);
    v.push(0x74);
    v.push(0x69);
    v.push(0x6f);
    v.push(0x6e);
    v.push(0x20);
    v.push(0x66);
    v.push(0x61);
    v.push(0x69);
    v.push(0x6c);
    proof {
        assert(v@ =~= spec_indication_close_reason());
    }
    v
}

/// Which sub-protocol the server offers; selected once by configuration and
/// applied to every admitted session.
#[derive(Clone, Copy, PartialEq, Eq, Structural, Debug)]
pub enum ProtoKind {
    Echo,
    StreamRelay,
    DatagramRelay,
}

/// Progress of the client-indication exchange on a stream-relay session.
pub enum IndicationStatus {
    /// No complete indication has arrived on the control stream yet.
    Pending,
    /// The indication parsed; data streams may be answered.
    Accepted(ClientIndication),
    /// The indication failed to parse; the session is unusable for relay.
    Rejected,
}

/// Model of the indication progress, over character sequences.
#[verifier::ext_equal]
pub ghost enum IndicationModel {
    Pending,
    Accepted(Seq<char>, Seq<char>),
    Rejected,
}

impl View for IndicationStatus {
    type V = IndicationModel;

    open spec fn view(&self) -> IndicationModel {
        match self {
            IndicationStatus::Pending => IndicationModel::Pending,
            IndicationStatus::Accepted(ci) => IndicationModel::Accepted(ci.origin@, ci.path@),
            IndicationStatus::Rejected => IndicationModel::Rejected,
        }
    }
}

/// Accumulated bytes of one stream.
pub struct StreamBuf {
    pub id: u64,
    pub data: Vec<u8>,
}

/// The buffers as a map from stream id to accumulated bytes; when an id
/// repeats, the entry closest to the front wins.
pub open spec fn bufs_map(s: Seq<StreamBuf>) -> Map<u64, Seq<u8>>
    decreases s.len(),
{
    if s.len() == 0 {
        Map::empty()
    } else {
        bufs_map(s.skip(1)).insert(s[0].id, s[0].data@)
    }
}

/// Stream ids are pairwise distinct.
pub open spec fn bufs_wf(s: Seq<StreamBuf>) -> bool {
    forall|i: int, j: int| 0 <= i < j < s.len() ==> s[i].id != s[j].id
}

/// An id is in the buffer map exactly when some entry holds it.
pub proof fn lemma_bufs_map_contains(s: Seq<StreamBuf>, id: u64)
    ensures
        bufs_map(s).dom().contains(id) <==> exists|i: int| 0 <= i < s.len() && s[i].id == id,
    decreases s.len(),
{
    if s.len() > 0 {
        lemma_bufs_map_contains(s.skip(1), id);
        if exists|i: int| 0 <= i < s.skip(1).len() && s.skip(1)[i].id == id {
            let i = choose|i: int| 0 <= i < s.skip(1).len() && s.skip(1)[i].id == id;
            assert(s[i + 1].id == id);
        }
        if exists|i: int| 0 <= i < s.len() && s[i].id == id {
            let i = choose|i: int| 0 <= i < s.len() && s[i].id == id;
            if i > 0 {
                assert(s.skip(1)[i - 1].id == id);
            }
        }
    }
}

/// With distinct ids, the buffer map holds each entry's bytes at its id.
pub proof fn lemma_bufs_map_value(s: Seq<StreamBuf>, i: int)
    requires
        bufs_wf(s),
        0 <= i < s.len(),
    ensures
        bufs_map(s).dom().contains(s[i].id),
        bufs_map(s)[s[i].id] == s[i].data@,
    decreases s.len(),
{
    lemma_bufs_map_contains(s, s[i].id);
    if i > 0 {
        lemma_bufs_map_value(s.skip(1), i - 1);
        assert(s.skip(1)[i - 1] == s[i]);
        assert(s[0].id != s[i].id);
    }
}

/// Removing an entry keeps the ids distinct and removes that id entirely.
pub proof fn lemma_bufs_wf_remove(s: Seq<StreamBuf>, i: int)
    requires
        bufs_wf(s),
        0 <= i < s.len(),
    ensures
        bufs_wf(s.remove(i)),
        forall|j: int| 0 <= j < s.remove(i).len() ==> s.remove(i)[j].id != s[i].id,
{
    assert forall|j: int| 0 <= j < s.remove(i).len() implies s.remove(i)[j].id != s[i].id by {
        if j < i {
            assert(s.remove(i)[j] == s[j]);
        } else {
            assert(s.remove(i)[j] == s[j + 1]);
        }
    }
}

/// With distinct ids, removing the entry at an index removes its id from the
/// buffer map and changes nothing else.
pub proof fn lemma_bufs_map_remove(s: Seq<StreamBuf>, i: int)
    requires
        bufs_wf(s),
        0 <= i < s.len(),
    ensures
        bufs_map(s.remove(i)) == bufs_map(s).remove(s[i].id),
    decreases s.len(),
{
    let id = s[i].id;
    if i == 0 {
        assert(s.remove(0) =~= s.skip(1));
        lemma_bufs_map_contains(s.skip(1), id);
        assert(!bufs_map(s.skip(1)).dom().contains(id));
        assert(bufs_map(s.skip(1)) =~= bufs_map(s.skip(1)).insert(id, s[0].data@).remove(id));
    } else {
        assert(s.remove(i).skip(1) =~= s.skip(1).remove(i - 1));
        assert(s.remove(i)[0] == s[0]);
        lemma_bufs_map_remove(s.skip(1), i - 1);
        assert(s.skip(1)[i - 1].id == id);
        assert(s[0].id != id);
        assert(bufs_map(s.skip(1)).remove(id).insert(s[0].id, s[0].data@) =~= bufs_map(
            s.skip(1),
        ).insert(s[0].id, s[0].data@).remove(id));
    }
}

/// Pushing an element inserts it into the set a sequence denotes.
pub proof fn lemma_push_to_set(s: Seq<u64>, x: u64)
    ensures
        s.push(x).to_set() == s.to_set().insert(x),
{
    assert forall|a: u64| s.push(x).to_set().contains(a) implies s.to_set().insert(x).contains(
        a,
    ) by {
        let i = choose|i: int| 0 <= i < s.push(x).len() && s.push(x)[i] == a;
        if i < s.len() {
            assert(s[i] == a);
        }
    }
    assert forall|a: u64| s.to_set().insert(x).contains(a) implies s.push(x).to_set().contains(
        a,
    ) by {
        if a == x {
            assert(s.push(x)[s.len() as int] == a);
        } else {
            let i = choose|i: int| 0 <= i < s.len() && s[i] == a;
            assert(s.push(x)[i] == a);
        }
    }
    assert(s.push(x).to_set() =~= s.to_set().insert(x));
}

/// State of one stream-relay session: the indication exchange, the receive
/// buffer of every stream seen, the streams already answered, and the next
/// server-initiated unidirectional stream id.
pub struct RelayState {
    pub indication: IndicationStatus,
    pub streams: Vec<StreamBuf>,
    pub answered: Vec<u64>,
    pub next_uni_stream_id: u64,
}

/// Model of a stream-relay session.
#[verifier::ext_equal]
pub ghost struct RelayModel {
    pub indication: IndicationModel,
    pub bufs: Map<u64, Seq<u8>>,
    pub answered: Set<u64>,
    pub next_uni: u64,
}

impl View for RelayState {
    type V = RelayModel;

    open spec fn view(&self) -> RelayModel {
        RelayModel {
            indication: self.indication@,
            bufs: bufs_map(self.streams@),
            answered: self.answered@.to_set(),
            next_uni: self.next_uni_stream_id,
        }
    }
}

/// The bytes buffered for a stream, empty when none arrived yet.
pub open spec fn buf_or_empty(m: RelayModel, id: u64) -> Seq<u8> {
    if m.bufs.dom().contains(id) {
        m.bufs[id]
    } else {
        Seq::empty()
    }
}

/// One action the event loop must perform for a session.
pub enum Action {
    /// Nothing to do for this event.
    Ignore,
    /// Send a datagram on the session's transport.
    SendDatagram(Vec<u8>),
    /// Send a datagram on the overlay, tagged with its flow id.
    SendOverlayDatagram { flow_id: u64, data: Vec<u8> },
    /// Send bytes on a stream of the session's transport.
    SendStream { stream_id: u64, body: Vec<u8>, fin: bool },
    /// Close the session with the given code and reason; `app` says whether
    /// the code lives in the application's error space.
    CloseSession { app: bool, code: u64, reason: Vec<u8> },
}

/// Model of an action.
#[verifier::ext_equal]
pub ghost enum ActionModel {
    Ignore,
    SendDatagram(Seq<u8>),
    SendOverlayDatagram { flow_id: u64, data: Seq<u8> },
    SendStream { stream_id: u64, body: Seq<u8>, fin: bool },
    CloseSession { app: bool, code: u64, reason: Seq<u8> },
}

impl View for Action {
    type V = ActionModel;

    open spec fn view(&self) -> ActionModel {
        match self {
            Action::Ignore => ActionModel::Ignore,
            Action::SendDatagram(d) => ActionModel::SendDatagram(d@),
            Action::SendOverlayDatagram { flow_id, data } => ActionModel::SendOverlayDatagram {
                flow_id: *flow_id,
                data: data@,
            },
            Action::SendStream { stream_id, body, fin } => ActionModel::SendStream {
                stream_id: *stream_id,
                body: body@,
                fin: *fin,
            },
            Action::CloseSession { app, code, reason } => ActionModel::CloseSession {
                app: *app,
                code: *code,
                reason: reason@,
            },
        }
    }
}

/// What one stream event does to a stream-relay session. A stream already
/// answered is ignored outright. Otherwise the bytes are appended to the
/// stream's buffer; nothing more happens until the stream's final byte. On
/// the control stream's final byte the buffer is parsed as a client
/// indication: success records it, failure rejects it and closes the session.
/// On a data stream's final byte, if the indication was accepted, the
/// decimal byte-length of the buffer is sent back — on the stream itself when
/// it is bidirectional, else on the next server-initiated unidirectional
/// stream — and the stream is marked answered.
pub open spec fn spec_relay_step(m: RelayModel, stream_id: u64, data: Seq<u8>, fin: bool) -> (
    RelayModel,
    ActionModel,
) {
    if m.answered.contains(stream_id) {
        (m, ActionModel::Ignore)
    } else {
        let grown = buf_or_empty(m, stream_id) + data;
        let m1 = RelayModel { bufs: m.bufs.insert(stream_id, grown), ..m };
        if !fin {
            (m1, ActionModel::Ignore)
        } else if stream_id == CONTROL_STREAM_ID {
            match spec_parse(grown) {
                Ok(p) => (
                    RelayModel { indication: IndicationModel::Accepted(p.0, p.1), ..m1 },
                    ActionModel::Ignore,
                ),
                Err(_) => (
                    RelayModel { indication: IndicationModel::Rejected, ..m1 },
                    ActionModel::CloseSession {
                        app: false,
                        code: INDICATION_CLOSE_CODE,
                        reason: spec_indication_close_reason(),
                    },
                ),
            }
        } else if m1.indication is Accepted {
            let reply_id = if stream_id % STREAM_ID_STEP == 0 {
                stream_id
            } else {
                m1.next_uni
            };
            let next_uni = if stream_id % STREAM_ID_STEP == 0 {
                m1.next_uni
            } else {
                if m1.next_uni + STREAM_ID_STEP > u64::MAX {
                    u64::MAX
                } else {
                    (m1.next_uni + STREAM_ID_STEP) as u64
                }
            };
            (
                RelayModel { answered: m1.answered.insert(stream_id), next_uni, ..m1 },
                ActionModel::SendStream {
                    stream_id: reply_id,
                    body: spec_decimal(grown.len()),
                    fin: true,
                },
            )
        } else {
            (m1, ActionModel::Ignore)
        }
    }
}

impl RelayState {
    /// Stream ids in the buffer list are pairwise distinct.
    pub open spec fn wf(&self) -> bool {
        bufs_wf(self.streams@)
    }

    /// A fresh stream-relay session: indication pending, no buffers, nothing
    /// answered, server-initiated unidirectional ids starting at their first
    /// value.
    pub fn new() -> (r: RelayState)
        ensures
            r.wf(),
            r@ == (RelayModel {
                indication: IndicationModel::Pending,
                bufs: Map::<u64, Seq<u8>>::empty(),
                answered: Set::<u64>::empty(),
                next_uni: FIRST_SERVER_UNI_STREAM_ID,
            }),
    {
        let r = RelayState {
            indication: IndicationStatus::Pending,
            streams: Vec::new(),
            answered: Vec::new(),
            next_uni_stream_id: FIRST_SERVER_UNI_STREAM_ID,
        };
        proof {
            assert(r.answered@.to_set() =~= Set::<u64>::empty());
            assert(r@ =~= (RelayModel {
                indication: IndicationModel::Pending,
                bufs: Map::<u64, Seq<u8>>::empty(),
                answered: Set::<u64>::empty(),
                next_uni: FIRST_SERVER_UNI_STREAM_ID,
            }));
        }
        r
    }

    /// True when the stream was already answered.
    fn is_answered(&self, stream_id: u64) -> (r: bool)
        ensures
            r == self@.answered.contains(stream_id),
    {
        let mut i: usize = 0;
        while i < self.answered.len()
            invariant
                0 <= i <= self.answered@.len(),
                forall|j: int| 0 <= j < i ==> self.answered@[j] != stream_id,
            decreases self.answered@.len() - i,
        {
            if self.answered[i] == stream_id {
                assert(self@.answered.contains(stream_id));
                return true;
            }
            i = i + 1;
        }
        assert(!self.answered@.contains(stream_id));
        false
    }

    /// The index of the buffer for a stream, when one exists.
    fn find_stream(&self, stream_id: u64) -> (r: Option<usize>)
        ensures
            match r {
                Some(i) => i < self.streams@.len() && self.streams@[i as int].id == stream_id,
                None => forall|j: int|
                    0 <= j < self.streams@.len() ==> self.streams@[j].id != stream_id,
            },
    {
        let mut i: usize = 0;
        while i < self.streams.len()
            invariant
                0 <= i <= self.streams@.len(),
                forall|j: int| 0 <= j < i ==> self.streams@[j].id != stream_id,
            decreases self.streams@.len() - i,
        {
            if self.streams[i].id == stream_id {
                return Some(i);
            }
            i = i + 1;
        }
        None
    }

    /// Handles bytes arriving on one stream, as `spec_relay_step` says.
    pub fn on_stream_data(&mut self, stream_id: u64, data: &[u8], fin: bool) -> (a: Action)
        requires
            old(self).wf(),
        ensures
            final(self).wf(),
            final(self)@ == spec_relay_step(old(self)@, stream_id, data@, fin).0,
            a@ == spec_relay_step(old(self)@, stream_id, data@, fin).1,
    {
        if self.is_answered(stream_id) {
            return Action::Ignore;
        }
        let ghost m = self@;
        let idx = self.find_stream(stream_id);
        let mut buf = match idx {
            Some(i) => {
                proof {
                    lemma_bufs_map_value(self.streams@, i as int);
                    lemma_bufs_map_remove(self.streams@, i as int);
                    lemma_bufs_wf_remove(self.streams@, i as int);
                }
                self.streams.remove(i)
            },
            None => {
                proof {
                    lemma_bufs_map_contains(self.streams@, stream_id);
                }
                StreamBuf { id: stream_id, data: Vec::new() }
            },
        };
        proof {
            assert(buf.id == stream_id);
            assert(buf.data@ == buf_or_empty(m, stream_id));
            assert(bufs_map(self.streams@) =~= m.bufs.remove(stream_id));
            assert(bufs_wf(self.streams@));
            assert(forall|j: int|
                0 <= j < self.streams@.len() ==> self.streams@[j].id != stream_id);
        }
        buf.data.extend_from_slice(data);
        let ghost b = buf;
        let ghost pre = self.streams@;
        self.streams.insert(0, buf);
        proof {
            assert(self.streams@[0] == b);
            assert(self.streams@.skip(1) =~= pre);
            assert(bufs_map(self.streams@) == bufs_map(self.streams@.skip(1)).insert(
                self.streams@[0].id,
                self.streams@[0].data@,
            ));
            assert(b.data@ == buf_or_empty(m, stream_id) + data@);
            assert(bufs_map(pre) == m.bufs.remove(stream_id));
            assert(m.bufs.remove(stream_id).insert(stream_id, buf_or_empty(m, stream_id) + data@)
                =~= m.bufs.insert(stream_id, buf_or_empty(m, stream_id) + data@));
            assert(bufs_map(self.streams@) == m.bufs.insert(
                stream_id,
                buf_or_empty(m, stream_id) + data@,
            ));
            assert forall|x: int, y: int|
                0 <= x < y < self.streams@.len() implies self.streams@[x].id
                != self.streams@[y].id by {
                assert(self.streams@[y] == pre[y - 1]);
                if x > 0 {
                    assert(self.streams@[x] == pre[x - 1]);
                }
            }
        }
        let ghost m1 = spec_relay_step(m, stream_id, data@, fin).0;
        if !fin {
            proof {
                assert(self@ =~= m1);
            }
            return Action::Ignore;
        }
        if stream_id == CONTROL_STREAM_ID {
            match parse_client_indication(self.streams[0].data.as_slice()) {
                Ok(ci) => {
                    self.indication = IndicationStatus::Accepted(ci);
                    proof {
                        assert(self@ =~= m1);
                    }
                    Action::Ignore
                },
                Err(_) => {
                    self.indication = IndicationStatus::Rejected;
                    proof {
                        assert(self@ =~= m1);
                    }
                    Action::CloseSession {
                        app: false,
                        code: INDICATION_CLOSE_CODE,
                        reason: indication_close_reason(),
                    }
                },
            }
        } else {
            let accepted = match &self.indication {
                IndicationStatus::Accepted(_) => true,
                _ => false,
            };
            if accepted {
                let reply_id = if stream_id % STREAM_ID_STEP == 0 {
                    stream_id
                } else {
                    let r = self.next_uni_stream_id;
                    self.next_uni_stream_id = r.saturating_add(STREAM_ID_STEP);
                    r
                };
                let body = decimal(self.streams[0].data.len() as u64);
                self.answered.push(stream_id);
                proof {
                    lemma_push_to_set(old(self).answered@, stream_id);
                    assert(self@ =~= m1);
                }
                Action::SendStream { stream_id: reply_id, body, fin: true }
            } else {
                proof {
                    assert(self@ =~= m1);
                }
                Action::Ignore
            }
        }
    }
}

/// The negotiated sub-protocol of a session, chosen once at creation.
pub enum ProtoState {
    /// The transport is not far enough along for a sub-protocol yet.
    Unprotocoled,
    Echo,
    StreamRelay(RelayState),
    DatagramRelay,
}

/// Model of the negotiated sub-protocol.
#[verifier::ext_equal]
pub ghost enum ProtoModel {
    Unprotocoled,
    Echo,
    StreamRelay(RelayModel),
    DatagramRelay,
}

impl View for ProtoState {
    type V = ProtoModel;

    open spec fn view(&self) -> ProtoModel {
        match self {
            ProtoState::Unprotocoled => ProtoModel::Unprotocoled,
            ProtoState::Echo => ProtoModel::Echo,
            ProtoState::StreamRelay(rs) => ProtoModel::StreamRelay(rs@),
            ProtoState::DatagramRelay => ProtoModel::DatagramRelay,
        }
    }
}

/// Per-session state: the negotiated sub-protocol and its progress. The
/// transport session itself is owned by the event loop, associated with this
/// record through the session table.
pub struct Session {
    pub proto: ProtoState,
}

/// Model of a session.
#[verifier::ext_equal]
pub ghost struct SessionModel {
    pub proto: ProtoModel,
}

impl View for Session {
    type V = SessionModel;

    open spec fn view(&self) -> SessionModel {
        SessionModel { proto: self.proto@ }
    }
}

/// The sub-protocol state a kind starts in.
pub open spec fn spec_proto_init(kind: ProtoKind) -> ProtoModel {
    match kind {
        ProtoKind::Echo => ProtoModel::Echo,
        ProtoKind::StreamRelay => ProtoModel::StreamRelay(
            RelayModel {
                indication: IndicationModel::Pending,
                bufs: Map::empty(),
                answered: Set::empty(),
                next_uni: FIRST_SERVER_UNI_STREAM_ID,
            },
        ),
        ProtoKind::DatagramRelay => ProtoModel::DatagramRelay,
    }
}

/// Activation on transport readiness: fixes the sub-protocol the first time,
/// changes nothing afterwards.
pub open spec fn spec_activate(m: SessionModel, kind: ProtoKind) -> SessionModel {
    match m.proto {
        ProtoModel::Unprotocoled => SessionModel { proto: spec_proto_init(kind) },
        _ => m,
    }
}

impl Session {
    /// The session's sub-protocol state is internally consistent.
    pub open spec fn wf(&self) -> bool {
        match self.proto {
            ProtoState::StreamRelay(rs) => rs.wf(),
            _ => true,
        }
    }

    /// A session fresh from admission: no sub-protocol negotiated yet.
    pub fn new() -> (s: Session)
        ensures
            s.wf(),
            s@ == (SessionModel { proto: ProtoModel::Unprotocoled }),
    {
        Session { proto: ProtoState::Unprotocoled }
    }

    /// Fixes the configured sub-protocol once the transport reports its
    /// handshake far enough along (established or in early data); repeated
    /// readiness reports change nothing.
    pub fn on_transport_ready(&mut self, kind: ProtoKind)
        requires
            old(self).wf(),
        ensures
            final(self).wf(),
            final(self)@ == spec_activate(old(self)@, kind),
    {
        match &self.proto {
            ProtoState::Unprotocoled => {
                match kind {
                    ProtoKind::Echo => {
                        self.proto = ProtoState::Echo;
                    },
                    ProtoKind::StreamRelay => {
                        self.proto = ProtoState::StreamRelay(RelayState::new());
                        proof {
                            assert(self@ =~= spec_activate(old(self)@, kind));
                        }
                    },
                    ProtoKind::DatagramRelay => {
                        self.proto = ProtoState::DatagramRelay;
                    },
                }
            },
            _ => {},
        }
    }
}

/// One transport event handed in by the event loop.
pub enum TransportEvent {
    /// A datagram arrived on a session meant for the echo sub-protocol.
    EchoPayload(Vec<u8>),
    /// Bytes arrived on a stream; `fin` marks the stream's final byte.
    StreamData { stream_id: u64, data: Vec<u8>, fin: bool },
    /// A datagram arrived on a stream-relay session.
    RelayDatagram(Vec<u8>),
    /// A flow-tagged datagram arrived on the request/response overlay.
    OverlayDatagram { flow_id: u64, data: Vec<u8> },
}

/// What the echo sub-protocol does with one request payload: exactly the
/// expected literal is answered with the literal plus the fixed suffix; any
/// other payload closes the session, with no response.
pub open spec fn spec_echo_action(payload: Seq<u8>) -> ActionModel {
    if payload == spec_echo_request() {
        ActionModel::SendDatagram(spec_echo_request() + spec_echo_suffix())
    } else {
        ActionModel::CloseSession {
            app: true,
            code: ECHO_CLOSE_CODE,
            reason: spec_echo_close_reason(),
        }
    }
}

/// Answers one echo request, as `spec_echo_action` says.
pub fn handle_echo_request(payload: &[u8]) -> (a: Action)
    ensures
        a@ == spec_echo_action(payload@),
        payload@ == spec_echo_request() ==> a@ == ActionModel::SendDatagram(
            spec_echo_request() + spec_echo_suffix(),
        ),
        payload@ != spec_echo_request() ==> a@ == (ActionModel::CloseSession {
            app: true,
            code: ECHO_CLOSE_CODE,
            reason: spec_echo_close_reason(),
        }),
{
    let req = echo_request();
    if bytes_eq(payload, req.as_slice()) {
        let mut body = req;
        let suffix = echo_suffix();
        body.extend_from_slice(suffix.as_slice());
        Action::SendDatagram(body)
    } else {
        Action::CloseSession { app: true, code: ECHO_CLOSE_CODE, reason: echo_close_reason() }
    }
}

/// The demultiplexer: what one event does to a session, by its negotiated
/// sub-protocol. An event that does not belong to the session's sub-protocol
/// is ignored. A datagram on a stream-relay session is answered with the
/// decimal text of its byte length; a flow-tagged overlay datagram is echoed
/// back unchanged on its own flow.
pub open spec fn spec_demux(m: SessionModel, ev: TransportEvent) -> (SessionModel, ActionModel) {
    match (m.proto, ev) {
        (ProtoModel::Echo, TransportEvent::EchoPayload(p)) => (m, spec_echo_action(p@)),
        (ProtoModel::StreamRelay(rm), TransportEvent::StreamData { stream_id, data, fin }) => {
            let (rm2, a) = spec_relay_step(rm, stream_id, data@, fin);
            (SessionModel { proto: ProtoModel::StreamRelay(rm2) }, a)
        },
        (ProtoModel::StreamRelay(rm), TransportEvent::RelayDatagram(p)) => (
            m,
            ActionModel::SendDatagram(spec_decimal(p@.len())),
        ),
        (ProtoModel::DatagramRelay, TransportEvent::OverlayDatagram { flow_id, data }) => (
            m,
            ActionModel::SendOverlayDatagram { flow_id, data: data@ },
        ),
        _ => (m, ActionModel::Ignore),
    }
}

impl Session {
    /// Dispatches one transport event to the session's negotiated
    /// sub-protocol, as `spec_demux` says, and returns the action the event
    /// loop must perform.
    pub fn handle_event(&mut self, ev: TransportEvent) -> (a: Action)
        requires
            old(self).wf(),
        ensures
            final(self).wf(),
            final(self)@ == spec_demux(old(self)@, ev).0,
            a@ == spec_demux(old(self)@, ev).1,
    {
        match ev {
            TransportEvent::EchoPayload(p) => {
                match &self.proto {
                    ProtoState::Echo => handle_echo_request(p.as_slice()),
                    _ => Action::Ignore,
                }
            },
            TransportEvent::StreamData { stream_id, data, fin } => {
                match &mut self.proto {
                    ProtoState::StreamRelay(rs) => rs.on_stream_data(
                        stream_id,
                        data.as_slice(),
                        fin,
                    ),
                    _ => Action::Ignore,
                }
            },
            TransportEvent::RelayDatagram(p) => {
                match &self.proto {
                    ProtoState::StreamRelay(_) => Action::SendDatagram(decimal(p.len() as u64)),
                    _ => Action::Ignore,
                }
            },
            TransportEvent::OverlayDatagram { flow_id, data } => {
                match &self.proto {
                    ProtoState::DatagramRelay => Action::SendOverlayDatagram { flow_id, data },
                    _ => Action::Ignore,
                }
            },
        }
    }
}

/// Each data stream is answered at most once: after a successful control
/// stream indication, the final byte of a fresh unidirectional data stream
/// draws exactly one response, carrying the decimal text of the byte count
/// received, on the next server-initiated unidirectional stream; the same
/// stream seen again afterwards draws none.
pub proof fn lemma_stream_answered_once(m: RelayModel, stream_id: u64, d1: Seq<u8>, d2: Seq<u8>)
    requires
        (m.indication is Accepted),
        stream_id != CONTROL_STREAM_ID,
        stream_id % STREAM_ID_STEP != 0,
        !m.answered.contains(stream_id),
        !m.bufs.dom().contains(stream_id),
    ensures
        spec_relay_step(m, stream_id, d1, true).1 == (ActionModel::SendStream {
            stream_id: m.next_uni,
            body: spec_decimal(d1.len()),
            fin: true,
        }),
        spec_relay_step(spec_relay_step(m, stream_id, d1, true).0, stream_id, d2, true).1
            == ActionModel::Ignore,
{
    assert(buf_or_empty(m, stream_id) + d1 =~= d1);
}

} // verus!
