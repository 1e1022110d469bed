//! The structured event-trace data model: a pure description of traces,
//! events, and the frames they mention, with builders that assemble each
//! record. No algorithmic content lives here; serialising the model to an
//! interchange format is left to the surrounding application.

use vstd::prelude::*;

verus! {

pub struct Qlog {
    pub qlog_version: String,
    pub title: Option<String>,
    pub description: Option<String>,
    pub summary: Option<String>,
    pub traces: Vec<Trace>,
}

pub struct Trace {
    pub vantage_point: VantagePoint,
    pub title: Option<String>,
    pub description: Option<String>,
    pub configuration: Option<Configuration>,
    pub common_fields: Option<CommonFields>,
    pub event_fields: Vec<String>,
    pub events: Vec<Vec<EventField>>,
}

/// One event row: relative time, category, event type, trigger, data.
pub open spec fn spec_event_row(
    relative_time: String,
    category: EventCategory,
    event: EventType,
    trigger: EventTrigger,
    data: EventData,
) -> Seq<EventField> {
    seq![
        EventField::RelativeTime(relative_time),
        EventField::Category(category),
        EventField::Event(event),
        EventField::Trigger(trigger),
        EventField::Data(data),
    ]
}

/// The new trace holds exactly the old one's fields with one event row
/// appended.
pub open spec fn spec_pushed_event(pre: Trace, post: Trace, row: Seq<EventField>) -> bool {
    &&& post.events@.len() == pre.events@.len() + 1
    &&& post.events@.drop_last() == pre.events@
    &&& post.events@.last()@ == row
    &&& post.vantage_point == pre.vantage_point
    &&& post.title == pre.title
    &&& post.description == pre.description
    &&& post.configuration == pre.configuration
    &&& post.common_fields == pre.common_fields
    &&& post.event_fields == pre.event_fields
}

impl Trace {
    fn push_event(
        &mut self,
        relative_time: String,
        category: EventCategory,
        event: EventType,
        trigger: EventTrigger,
        data: EventData,
    )
        ensures
            spec_pushed_event(
                *old(self),
                *final(self),
                spec_event_row(relative_time, category, event, trigger, data),
            ),
    {
        let ghost row = spec_event_row(relative_time, category, event, trigger, data);
        let mut fields: Vec<EventField> = Vec::new();
        fields.push(EventField::RelativeTime(relative_time));
        fields.push(EventField::Category(category));
        fields.push(EventField::Event(event));
        fields.push(EventField::Trigger(trigger));
        fields.push(EventField::Data(data));
        proof {
            assert(fields@ =~= row);
        }
        self.events.push(fields);
        proof {
            assert(self.events@.drop_last() =~= old(self).events@);
        }
    }

    /// Appends one connectivity event row.
    pub fn push_connectivity_event(
        &mut self,
        relative_time: String,
        event: ConnectivityEventType,
        trigger: ConnectivityEventTrigger,
        data: EventData,
    )
        ensures
            spec_pushed_event(
                *old(self),
                *final(self),
                spec_event_row(
                    relative_time,
                    EventCategory::Connectivity,
                    EventType::ConnectivityEventType(event),
                    EventTrigger::ConnectivityEventTrigger(trigger),
                    data,
                ),
            ),
    {
        self.push_event(
            relative_time,
            EventCategory::Connectivity,
            EventType::ConnectivityEventType(event),
            EventTrigger::ConnectivityEventTrigger(trigger),
            data,
        );
    }

    /// Appends one transport event row.
    pub fn push_transport_event(
        &mut self,
        relative_time: String,
        event: TransportEventType,
        trigger: TransportEventTrigger,
        data: EventData,
    )
        ensures
            spec_pushed_event(
                *old(self),
                *final(self),
                spec_event_row(
                    relative_time,
                    EventCategory::Transport,
                    EventType::TransportEventType(event),
                    EventTrigger::TransportEventTrigger(trigger),
                    data,
                ),
            ),
    {
        self.push_event(
            relative_time,
            EventCategory::Transport,
            EventType::TransportEventType(event),
            EventTrigger::TransportEventTrigger(trigger),
            data,
        );
    }

    /// Appends one security event row.
    pub fn push_security_event(
        &mut self,
        relative_time: String,
        event: SecurityEventType,
        trigger: SecurityEventTrigger,
        data: EventData,
    )
        ensures
            spec_pushed_event(
                *old(self),
                *final(self),
                spec_event_row(
                    relative_time,
                    EventCategory::Security,
                    EventType::SecurityEventType(event),
                    EventTrigger::SecurityEventTrigger(trigger),
                    data,
                ),
            ),
    {
        self.push_event(
            relative_time,
            EventCategory::Security,
            EventType::SecurityEventType(event),
            EventTrigger::SecurityEventTrigger(trigger),
            data,
        );
    }

    /// Appends one recovery event row.
    pub fn push_recovery_event(
        &mut self,
        relative_time: String,
        event: RecoveryEventType,
        trigger: RecoveryEventTrigger,
        data: EventData,
    )
        ensures
            spec_pushed_event(
                *old(self),
                *final(self),
                spec_event_row(
                    relative_time,
                    EventCategory::Recovery,
                    EventType::RecoveryEventType(event),
                    EventTrigger::RecoveryEventTrigger(trigger),
                    data,
                ),
            ),
    {
        self.push_event(
            relative_time,
            EventCategory::Recovery,
            EventType::RecoveryEventType(event),
            EventTrigger::RecoveryEventTrigger(trigger),
            data,
        );
    }
}

pub struct VantagePoint {
    pub name: Option<String>,
    pub ty: VantagePointType,
    pub flow: Option<VantagePointType>,
}

pub enum VantagePointType {
    Client,
    Server,
    Network,
    Unknown,
}

#[allow(dead_code)]
pub struct Configuration {
    pub time_offset: Option<String>,
    pub time_units: Option<String>,
    pub original_uris: Option<Vec<String>>,
}

pub struct CommonFields {
    pub group_id: Option<String>,
    pub group_ids: Option<Vec<String>>,
    pub protocol_type: Option<String>,
    pub reference_time: Option<String>,
}

pub enum EventType {
    ConnectivityEventType(ConnectivityEventType),
    TransportEventType(TransportEventType),
    SecurityEventType(SecurityEventType),
    RecoveryEventType(RecoveryEventType),
    Http3EventType(Http3EventType),
}

#[derive(Debug)]
pub enum FunnyField {
    A(X),
    B(Y),
    C(Z),
}

#[derive(Debug)]
pub enum A {
    Alpha(X),
    Beta(X),
}

#[derive(Debug)]
pub enum B {
    Delta(Y),
    Gamma(Y),
}

#[derive(Debug)]
pub enum C {
    Epsilon(Z),
    Zeta(Z),
}

#[derive(Debug)]
pub enum X {
    Up(String),
    Down(String),
}

#[derive(Debug)]
pub enum Y {
    Charm(u8),
    Strange(u8),
}

#[derive(Debug)]
pub enum Z {
    Top(u16),
    Bottom(u16),
}

#[allow(dead_code)]
pub enum EventTrigger {
    ConnectivityEventTrigger(ConnectivityEventTrigger),
    TransportEventTrigger(TransportEventTrigger),
    SecurityEventTrigger(SecurityEventTrigger),
    RecoveryEventTrigger(RecoveryEventTrigger),
}

#[allow(dead_code)]
pub enum EventField {
    RelativeTime(String),
    Category(EventCategory),
    Event(EventType),
    Trigger(EventTrigger),
    Data(EventData),
}

pub enum EventCategory {
    Connectivity,
    Security,
    Transport,
    Recovery,
}

pub enum ConnectivityEventType {
    ConnectionAttempt,
    ConnectionNew,
    ConnectionIdUpdate,
    SpinBitUpdate,
    ConnectionClose,
}

pub enum ConnectivityEventTrigger {
    Line,
}

pub enum TransportEventType {
    DatagramSent,
    DatagramReceived,
    PacketSent,
    PacketReceived,
    PacketDropped,
    PacketBuffered,
    StreamStateUpdate,
    FlowControlUpdate,
    VersionUpdate,
    TransportParametersUpdate,
    AlpnUpdate,
}

pub enum TransportEventTrigger {
    Line,
    Retransmit,
    KeysUnavailable,
}

pub enum SecurityEventType {
    CipherUpdate,
    KeyUpdate,
    KeyRetire,
}

pub enum SecurityEventTrigger {
    Tls,
    Implicit,
    RemoteUpdate,
    LocalUpdate,
}

pub enum RecoveryEventType {
    StateUpdate,
    MetricUpdate,
    LossAlarmSet,
    LossAlarmTriggered,
    PacketLost,
    PacketAcknowledged,
    PacketRetransmit,
}

pub enum RecoveryEventTrigger {
    AckReceived,
    PacketSent,
    Alarm,
    Unknown,
}

pub enum KeyType {
    ServerInitialSecret,
    ClientInitialSecret,
    ServerHandshakeSecret,
    ClientHandshakeSecret,
    Server0RttSecret,
    Client0RttSecret,
    Server1RttSecret,
    Client1RttSecret,
}

pub enum EventData {
    Listening {
        ip: String,
        port: u64,
        quic_versions: Option<Vec<String>>,
        alpn_values: Option<Vec<String>>,
    },
    ConnectionNew {
        ip_verison: String,
        src_ip: String,
        dst_ip: String,
        transport_protocol: Option<String>,
        src_port: u64,
        dst_port: u64,
        quic_version: Option<String>,
        src_cid: Option<String>,
        dst_cid: Option<String>,
    },
    ConnectionIdUpdate {
        src_old: Option<String>,
        src_new: Option<String>,
        dst_old: Option<String>,
        dst_new: Option<String>,
    },
    SpinBitUpdate {
        state: bool,
    },
    ConnectionClose {
        src_id: String,
    },
    CipherUpdate {
        cipher_type: String,
    },
    KeyRetire {
        key_type: KeyType,
        key: String,
        generation: Option<String>,
    },
    KeyUpdate {
        key_type: KeyType,
        old: Option<String>,
        new: String,
        generation: Option<String>,
    },
    DatagramReceived {
        count: Option<u64>,
        byte_length: u64,
    },
    DatagramSent {
        count: Option<u64>,
        byte_length: u64,
    },
    PacketReceived {
        raw_encrypted: Option<String>,
        packet_type: PacketType,
        header: Option<PacketHeader>,
        frames: Option<Vec<QuicFrame>>,
    },
    PacketSent {
        raw_encrypted: Option<String>,
        packet_type: PacketType,
        header: Option<PacketHeader>,
        frames: Option<Vec<QuicFrame>>,
    },
    PacketBuffered {
        packet_type: PacketType,
        packet_number: String,
    },
    VersionUpdate {
        old: String,
        new: String,
    },
    MetricUpdate {
        cwnd: Option<u64>,
        bytes_in_flight: Option<u64>,
        min_rtt: Option<u64>,
        smoothed_rtt: Option<u64>,
        latest_rtt: Option<u64>,
        max_ack_delay: Option<u64>,
        rtt_variance: Option<u64>,
        ssthresh: Option<u64>,
        pacing_rate: Option<u64>,
    },
    PacketLost {
        packet_type: PacketType,
        packet_number: String,
        header: Option<PacketHeader>,
        frames: Vec<QuicFrame>,
    },
    H3FrameCreated {
        stream_id: String,
        frame: Http3Frame,
        byte_length: String,
        raw: Option<String>,
    },
    H3FrameParsed {
        stream_id: String,
        frame: Http3Frame,
        byte_length: String,
        raw: Option<String>,
    },
    H3DataMoved {
        stream_id: String,
        offset_start: String,
        offset_end: String,
        recipient: String,
    },
    H3DataReceived {
        stream_id: String,
        offset_start: String,
        offset_end: String,
        source: String,
    },
}

#[allow(dead_code)]
pub struct AlpnUpdate {
    old: String,
    new: String,
}

pub enum PacketType {
    Initial,
    Handshake,
    ZeroRtt,
    OneRtt,
    Retry,
    VersionNegotiation,
    Unknown,
}

pub enum Http3EventType {
    StreamStateUpdate,
    StreamTypeUpdate,
    FrameCreated,
    FrameParsed,
    DataMoved,
    DatagramReceived,
}

pub enum QuicFrameTypeName {
    Padding,
    Ping,
    Ack,
    ResetStream,
    StopSending,
    Crypto,
    NewToken,
    Stream,
    MaxData,
    MaxStreamData,
    MaxStreams,
    DataBlocked,
    StreamDataBlocked,
    StreamsBlocked,
    NewConnectionId,
    RetireConnectionId,
    PathChallenge,
    PathResponse,
    ConnectionClose,
    ApplicationClose,
    Unknown,
}

pub struct PacketHeader {
    pub packet_number: String,
    pub packet_size: Option<u64>,
    pub payload_length: Option<u64>,
    pub version: Option<String>,
    pub scil: Option<String>,
    pub dcil: Option<String>,
    pub scid: Option<String>,
    pub dcid: Option<String>,
}

pub enum StreamType {
    Bidirectional,
    Unidirectional,
}

pub enum ErrorSpace {
    TransportError,
    ApplicationError,
}

pub enum QuicFrame {
    Padding {
        frame_type: QuicFrameTypeName,
    },
    Ping {
        frame_type: QuicFrameTypeName,
    },
    Ack {
        frame_type: QuicFrameTypeName,
        ack_delay: String,
        acked_ranges: Vec<(u64, u64)>,
        ect1: Option<String>,
        ect0: Option<String>,
        ce: Option<String>,
    },
    ResetStream {
        frame_type: QuicFrameTypeName,
        id: String,
        error_code: u64,
        final_size: String,
    },
    StopSending {
        frame_type: QuicFrameTypeName,
        id: String,
        error_code: u64,
    },
    Crypto {
        frame_type: QuicFrameTypeName,
        offset: String,
        length: String,
    },
    NewToken {
        frame_type: QuicFrameTypeName,
        length: String,
        token: String,
    },
    Stream {
        frame_type: QuicFrameTypeName,
        id: String,
        offset: String,
        length: String,
        fin: bool,
        raw: Option<String>,
    },
    MaxData {
        frame_type: QuicFrameTypeName,
        maximum: String,
    },
    MaxStreamData {
        frame_type: QuicFrameTypeName,
        id: String,
        maximum: String,
    },
    MaxStreams {
        frame_type: QuicFrameTypeName,
        stream_type: StreamType,
        maximum: String,
    },
    DataBlocked {
        frame_type: QuicFrameTypeName,
        limit: String,
    },
    StreamDataBlocked {
        frame_type: QuicFrameTypeName,
        id: String,
        limit: String,
    },
    StreamsBlocked {
        frame_type: QuicFrameTypeName,
        stream_type: StreamType,
        limit: String,
    },
    NewConnectionId {
        frame_type: QuicFrameTypeName,
        sequence_number: String,
        retire_prior_to: String,
        length: u64,
        connection_id: String,
        reset_token: String,
    },
    RetireConnectionId {
        frame_type: QuicFrameTypeName,
        sequence_number: String,
    },
    PathChallenge {
        frame_type: QuicFrameTypeName,
        data: Option<String>,
    },
    PathResponse {
        frame_type: QuicFrameTypeName,
        data: Option<String>,
    },
    ConnectionClose {
        frame_type: QuicFrameTypeName,
        error_space: ErrorSpace,
        error_code: u64,
        raw_error_code: u64,
        reason: String,
        trigger_frame_type: Option<u64>,
    },
    Unknown {
        frame_type: QuicFrameTypeName,
        raw_frame_type: u64,
    },
}

impl QuicFrame {
    pub fn padding() -> (r: Self)
        ensures
            r == (QuicFrame::Padding { frame_type: QuicFrameTypeName::Padding }),
    {
        QuicFrame::Padding { frame_type: QuicFrameTypeName::Padding }
    }

    pub fn ping() -> (r: Self)
        ensures
            r == (QuicFrame::Ping { frame_type: QuicFrameTypeName::Ping }),
    {
        QuicFrame::Ping { frame_type: QuicFrameTypeName::Ping }
    }

    pub fn ack(
        ack_delay: String,
        acked_ranges: Vec<(u64, u64)>,
        ect1: Option<String>,
        ect0: Option<String>,
        ce: Option<String>,
    ) -> (r: Self)
        ensures
            r == (QuicFrame::Ack {
                frame_type: QuicFrameTypeName::Ack,
                ack_delay,
                acked_ranges,
                ect1,
                ect0,
                ce,
            }),
    {
        QuicFrame::Ack {
            frame_type: QuicFrameTypeName::Ack,
            ack_delay,
            acked_ranges,
            ect1,
            ect0,
            ce,
        }
    }

    pub fn reset_stream(id: String, error_code: u64, final_size: String) -> (r: Self)
        ensures
            r == (QuicFrame::ResetStream {
                frame_type: QuicFrameTypeName::ResetStream,
                id,
                error_code,
                final_size,
            }),
    {
        QuicFrame::ResetStream {
            frame_type: QuicFrameTypeName::ResetStream,
            id,
            error_code,
            final_size,
        }
    }

    pub fn stop_sending(id: String, error_code: u64) -> (r: Self)
        ensures
            r == (QuicFrame::StopSending {
                frame_type: QuicFrameTypeName::StopSending,
                id,
                error_code,
            }),
    {
        QuicFrame::StopSending { frame_type: QuicFrameTypeName::StopSending, id, error_code }
    }

    pub fn crypto(offset: String, length: String) -> (r: Self)
        ensures
            r == (QuicFrame::Crypto { frame_type: QuicFrameTypeName::Crypto, offset, length }),
    {
        QuicFrame::Crypto { frame_type: QuicFrameTypeName::Crypto, offset, length }
    }

    pub fn new_token(length: String, token: String) -> (r: Self)
        ensures
            r == (QuicFrame::NewToken { frame_type: QuicFrameTypeName::NewToken, length, token }),
    {
        QuicFrame::NewToken { frame_type: QuicFrameTypeName::NewToken, length, token }
    }

    pub fn stream(
        id: String,
        offset: String,
        length: String,
        fin: bool,
        raw: Option<String>,
    ) -> (r: Self)
        ensures
            r == (QuicFrame::Stream {
                frame_type: QuicFrameTypeName::Stream,
                id,
                offset,
                length,
                fin,
                raw,
            }),
    {
        QuicFrame::Stream { frame_type: QuicFrameTypeName::Stream, id, offset, length, fin, raw }
    }

    pub fn max_data(maximum: String) -> (r: Self)
        ensures
            r == (QuicFrame::MaxData { frame_type: QuicFrameTypeName::MaxData, maximum }),
    {
        QuicFrame::MaxData { frame_type: QuicFrameTypeName::MaxData, maximum }
    }

    pub fn max_stream_data(id: String, maximum: String) -> (r: Self)
        ensures
            r == (QuicFrame::MaxStreamData {
                frame_type: QuicFrameTypeName::MaxStreamData,
                id,
                maximum,
            }),
    {
        QuicFrame::MaxStreamData { frame_type: QuicFrameTypeName::MaxStreamData, id, maximum }
    }

    pub fn max_streams(stream_type: StreamType, maximum: String) -> (r: Self)
        ensures
            r == (QuicFrame::MaxStreams {
                frame_type: QuicFrameTypeName::MaxStreams,
                stream_type,
                maximum,
            }),
    {
        QuicFrame::MaxStreams {
            frame_type: QuicFrameTypeName::MaxStreams,
            stream_type,
            maximum,
        }
    }

    pub fn data_blocked(limit: String) -> (r: Self)
        ensures
            r == (QuicFrame::DataBlocked { frame_type: QuicFrameTypeName::DataBlocked, limit }),
    {
        QuicFrame::DataBlocked { frame_type: QuicFrameTypeName::DataBlocked, limit }
    }

    pub fn stream_data_blocked(id: String, limit: String) -> (r: Self)
        ensures
            r == (QuicFrame::StreamDataBlocked {
                frame_type: QuicFrameTypeName::StreamDataBlocked,
                id,
                limit,
            }),
    {
        QuicFrame::StreamDataBlocked {
            frame_type: QuicFrameTypeName::StreamDataBlocked,
            id,
            limit,
        }
    }

    pub fn streams_blocked(stream_type: StreamType, limit: String) -> (r: Self)
        ensures
            r == (QuicFrame::StreamsBlocked {
                frame_type: QuicFrameTypeName::StreamsBlocked,
                stream_type,
                limit,
            }),
    {
        QuicFrame::StreamsBlocked {
            frame_type: QuicFrameTypeName::StreamsBlocked,
            stream_type,
            limit,
        }
    }

    pub fn new_connection_id(
        sequence_number: String,
        retire_prior_to: String,
        length: u64,
        connection_id: String,
        reset_token: String,
    ) -> (r: Self)
        ensures
            r == (QuicFrame::NewConnectionId {
                frame_type: QuicFrameTypeName::NewConnectionId,
                sequence_number,
                retire_prior_to,
                length,
                connection_id,
                reset_token,
            }),
    {
        QuicFrame::NewConnectionId {
            frame_type: QuicFrameTypeName::NewConnectionId,
            sequence_number,
            retire_prior_to,
            length,
            connection_id,
            reset_token,
        }
    }

    pub fn retire_connection_id(sequence_number: String) -> (r: Self)
        ensures
            r == (QuicFrame::RetireConnectionId {
                frame_type: QuicFrameTypeName::RetireConnectionId,
                sequence_number,
            }),
    {
        QuicFrame::RetireConnectionId {
            frame_type: QuicFrameTypeName::RetireConnectionId,
            sequence_number,
        }
    }

    pub fn path_challenge(data: Option<String>) -> (r: Self)
        ensures
            r == (QuicFrame::PathChallenge {
                frame_type: QuicFrameTypeName::PathChallenge,
                data,
            }),
    {
        QuicFrame::PathChallenge { frame_type: QuicFrameTypeName::PathChallenge, data }
    }

    pub fn path_response(data: Option<String>) -> (r: Self)
        ensures
            r == (QuicFrame::PathResponse { frame_type: QuicFrameTypeName::PathResponse, data }),
    {
        QuicFrame::PathResponse { frame_type: QuicFrameTypeName::PathResponse, data }
    }

    pub fn connection_close(
        error_space: ErrorSpace,
        error_code: u64,
        raw_error_code: u64,
        reason: String,
        trigger_frame_type: Option<u64>,
    ) -> (r: Self)
        ensures
            r == (QuicFrame::ConnectionClose {
                frame_type: QuicFrameTypeName::ConnectionClose,
                error_space,
                error_code,
                raw_error_code,
                reason,
                trigger_frame_type,
            }),
    {
        QuicFrame::ConnectionClose {
            frame_type: QuicFrameTypeName::ConnectionClose,
            error_space,
            error_code,
            raw_error_code,
            reason,
            trigger_frame_type,
        }
    }

    pub fn unknown(raw_frame_type: u64) -> (r: Self)
        ensures
            r == (QuicFrame::Unknown {
                frame_type: QuicFrameTypeName::Unknown,
                raw_frame_type,
            }),
    {
        QuicFrame::Unknown { frame_type: QuicFrameTypeName::Unknown, raw_frame_type }
    }
}

pub enum Http3FrameTypeName {
    Data,
    Headers,
    CancelPush,
    Settings,
    PushPromise,
    Goaway,
    MaxPushId,
    DuplicatePush,
    Reserved,
    Unknown,
}

pub struct HttpHeader {
    name: String,
    content: String,
}

pub struct Setting {
    name: String,
    content: String,
}

pub enum Http3Frame {
    Data {
        frame_type: Http3FrameTypeName,
    },
    Headers {
        frame_type: Http3FrameTypeName,
        fields: Vec<HttpHeader>,
    },
    CancelPush {
        frame_type: Http3FrameTypeName,
        id: String,
    },
    Settings {
        frame_type: Http3FrameTypeName,
        fields: Vec<Setting>,
    },
    PushPromise {
        frame_type: Http3FrameTypeName,
        id: String,
        fields: Vec<HttpHeader>,
    },
    Goaway {
        frame_type: Http3FrameTypeName,
        id: String,
    },
    MaxPushId {
        frame_type: Http3FrameTypeName,
        id: String,
    },
    Reserved {
        frame_type: Http3FrameTypeName,
    },
    Unknown {
        frame_type: Http3FrameTypeName,
    },
}

#[allow(dead_code)]
impl Http3Frame {
    fn data() -> (r: Self)
        ensures
            r == (Http3Frame::Data { frame_type: Http3FrameTypeName::Data }),
    {
        Http3Frame::Data { frame_type: Http3FrameTypeName::Data }
    }

    fn headers(fields: Vec<HttpHeader>) -> (r: Self)
        ensures
            r == (Http3Frame::Headers { frame_type: Http3FrameTypeName::Headers, fields }),
    {
        Http3Frame::Headers { frame_type: Http3FrameTypeName::Headers, fields }
    }

    fn cancel_push(id: String) -> (r: Self)
        ensures
            r == (Http3Frame::CancelPush { frame_type: Http3FrameTypeName::CancelPush, id }),
    {
        Http3Frame::CancelPush { frame_type: Http3FrameTypeName::CancelPush, id }
    }

    fn settings(fields: Vec<Setting>) -> (r: Self)
        ensures
            r == (Http3Frame::Settings { frame_type: Http3FrameTypeName::Settings, fields }),
    {
        Http3Frame::Settings { frame_type: Http3FrameTypeName::Settings, fields }
    }

    fn push_promise(id: String, fields: Vec<HttpHeader>) -> (r: Self)
        ensures
            r == (Http3Frame::PushPromise {
                frame_type: Http3FrameTypeName::PushPromise,
                id,
                fields,
            }),
    {
        Http3Frame::PushPromise { frame_type: Http3FrameTypeName::PushPromise, id, fields }
    }

    fn goaway(id: String) -> (r: Self)
        ensures
            r == (Http3Frame::Goaway { frame_type: Http3FrameTypeName::Goaway, id }),
    {
        Http3Frame::Goaway { frame_type: Http3FrameTypeName::Goaway, id }
    }

    fn max_push_id(id: String) -> (r: Self)
        ensures
            r == (Http3Frame::MaxPushId { frame_type: Http3FrameTypeName::MaxPushId, id }),
    {
        Http3Frame::MaxPushId { frame_type: Http3FrameTypeName::MaxPushId, id }
    }

    fn reserved() -> (r: Self)
        ensures
            r == (Http3Frame::Reserved { frame_type: Http3FrameTypeName::Reserved }),
    {
        Http3Frame::Reserved { frame_type: Http3FrameTypeName::Reserved }
    }

    fn unknown() -> (r: Self)
        ensures
            r == (Http3Frame::Unknown { frame_type: Http3FrameTypeName::Unknown }),
    {
        Http3Frame::Unknown { frame_type: Http3FrameTypeName::Unknown }
    }
}

} // verus!
