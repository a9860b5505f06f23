//! MQTT packets as plain values, and the calls that put them on the wire and
//! take them off it.
use bytes::BytesMut;
use mqtt_v5::decoder;
use mqtt_v5::encoder::encode_mqtt;
use mqtt_v5::types;
use vstd::prelude::*;

verus! {

/// The control packet type of a publish.
pub const PUBLISH: u8 = 3;

/// The control packet type of the answer to a connect.
pub const CONNECT_ACK: u8 = 2;

/// The control packet type of the answer to a subscribe.
pub const SUBSCRIBE_ACK: u8 = 9;

/// The longest text or payload that a length field on the wire can count.
pub const FIELD_LIMIT: usize = 65535;

/// The number of version 5 of the protocol on the wire.
pub const VERSION_5: u8 = 5;

/// How often a message is delivered.
#[derive(Debug, Clone, Copy, PartialEq, Eq, Structural)]
pub enum QoS {
    AtMostOnce,
    AtLeastOnce,
    ExactlyOnce,
}

/// The number of a quality of service on the wire.
pub open spec fn qos_number(qos: QoS) -> u8 {
    match qos {
        QoS::AtMostOnce => 0,
        QoS::AtLeastOnce => 1,
        QoS::ExactlyOnce => 2,
    }
}

impl QoS {
    /// The number on the wire.
    pub fn number(self) -> (number: u8)
        ensures
            number == qos_number(self),
    {
        match self {
            QoS::AtMostOnce => 0,
            QoS::AtLeastOnce => 1,
            QoS::ExactlyOnce => 2,
        }
    }
}

/// When a subscription is sent the message that a topic retains.
#[derive(Debug, Clone, Copy, PartialEq, Eq, Structural)]
pub enum RetainHandling {
    SendAtSubscribeTime,
    SendAtSubscribeTimeIfNonexistent,
    DoNotSend,
}

/// The number of a way to handle retained messages on the wire.
pub open spec fn retain_number(handling: RetainHandling) -> u8 {
    match handling {
        RetainHandling::SendAtSubscribeTime => 0,
        RetainHandling::SendAtSubscribeTimeIfNonexistent => 1,
        RetainHandling::DoNotSend => 2,
    }
}

impl RetainHandling {
    /// The number on the wire.
    pub fn number(self) -> (number: u8)
        ensures
            number == retain_number(self),
    {
        match self {
            RetainHandling::SendAtSubscribeTime => 0,
            RetainHandling::SendAtSubscribeTimeIfNonexistent => 1,
            RetainHandling::DoNotSend => 2,
        }
    }
}

/// What the broker publishes once the client is gone. It carries no properties.
#[derive(Debug)]
pub struct FinalWill {
    pub topic: String,
    pub payload: Vec<u8>,
    pub qos: QoS,
    pub should_retain: bool,
}

/// The request that opens a session. It carries no properties.
#[derive(Debug)]
pub struct ConnectPacket {
    pub protocol_name: String,
    pub protocol_version: u8,
    pub clean_start: bool,
    pub keep_alive: u16,
    pub client_id: String,
    pub user_name: Option<String>,
    pub password: Option<String>,
    pub will: FinalWill,
}

/// The request for the messages of one topic. It carries no properties.
#[derive(Debug)]
pub struct SubscribePacket {
    pub protocol_version: u8,
    pub packet_id: u16,
    pub filter: String,
    pub maximum_qos: QoS,
    pub no_local: bool,
    pub retain_as_published: bool,
    pub retain_handling: RetainHandling,
}

/// A packet that the client sends.
#[derive(Debug)]
pub enum Request {
    Connect(ConnectPacket),
    Subscribe(SubscribePacket),
}

/// A connect by the values of its fields; numbers stand for what has a number on the
/// wire.
pub struct ConnectView {
    pub protocol_name: Seq<char>,
    pub protocol_version: u8,
    pub clean_start: bool,
    pub keep_alive: u16,
    pub client_id: Seq<char>,
    pub user_name: Option<Seq<char>>,
    pub password: Option<Seq<char>>,
    pub will_topic: Seq<char>,
    pub will_payload: Seq<u8>,
    pub will_qos: u8,
    pub will_retain: bool,
}

/// A subscribe by the values of its fields; numbers stand for what has a number on
/// the wire.
pub struct SubscribeView {
    pub protocol_version: u8,
    pub packet_id: u16,
    pub filter: Seq<char>,
    pub maximum_qos: u8,
    pub no_local: bool,
    pub retain_as_published: bool,
    pub retain_handling: u8,
}

/// A packet that the client sends, by the values of its fields.
pub enum RequestView {
    Connect(ConnectView),
    Subscribe(SubscribeView),
}

/// A text that may be missing, as a sequence.
pub open spec fn text_view(text: Option<String>) -> Option<Seq<char>> {
    match text {
        Some(text) => Some(text@),
        None => None,
    }
}

/// A connect with those fields.
pub open spec fn connect_view(
    protocol_name: Seq<char>,
    protocol_version: u8,
    clean_start: bool,
    keep_alive: u16,
    client_id: Seq<char>,
    user_name: Option<Seq<char>>,
    password: Option<Seq<char>>,
    will_topic: Seq<char>,
    will_payload: Seq<u8>,
    will_qos: u8,
    will_retain: bool,
) -> RequestView {
    RequestView::Connect(
        ConnectView {
            protocol_name,
            protocol_version,
            clean_start,
            keep_alive,
            client_id,
            user_name,
            password,
            will_topic,
            will_payload,
            will_qos,
            will_retain,
        },
    )
}

impl View for ConnectPacket {
    type V = RequestView;

    open spec fn view(&self) -> RequestView {
        connect_view(
            self.protocol_name@,
            self.protocol_version,
            self.clean_start,
            self.keep_alive,
            self.client_id@,
            text_view(self.user_name),
            text_view(self.password),
            self.will.topic@,
            self.will.payload@,
            qos_number(self.will.qos),
            self.will.should_retain,
        )
    }
}

impl View for SubscribePacket {
    type V = RequestView;

    open spec fn view(&self) -> RequestView {
        RequestView::Subscribe(
            SubscribeView {
                protocol_version: self.protocol_version,
                packet_id: self.packet_id,
                filter: self.filter@,
                maximum_qos: qos_number(self.maximum_qos),
                no_local: self.no_local,
                retain_as_published: self.retain_as_published,
                retain_handling: retain_number(self.retain_handling),
            },
        )
    }
}

impl View for Request {
    type V = RequestView;

    open spec fn view(&self) -> RequestView {
        match self {
            Request::Connect(packet) => packet@,
            Request::Subscribe(packet) => packet@,
        }
    }
}

/// Whether a text fits the length field that stands before it on the wire.
pub open spec fn fits(text: Seq<char>) -> bool {
    vstd::utf8::encode_utf8(text).len() <= FIELD_LIMIT
}

/// Whether a number is that of a protocol version: 4 stands for version 3.1.1.
pub open spec fn is_version(number: u8) -> bool {
    number == 4 || number == VERSION_5
}

/// Whether every field of a packet fits its length field, and the protocol has the
/// version that it asks for.
pub open spec fn sendable(packet: RequestView) -> bool {
    match packet {
        RequestView::Connect(connect) => {
            &&& is_version(connect.protocol_version)
            &&& fits(connect.protocol_name)
            &&& fits(connect.client_id)
            &&& connect.user_name matches Some(name) ==> fits(name)
            &&& connect.password matches Some(password) ==> fits(password)
            &&& fits(connect.will_topic)
            &&& connect.will_payload.len() <= FIELD_LIMIT
        },
        RequestView::Subscribe(subscribe) => {
            &&& is_version(subscribe.protocol_version)
            &&& fits(subscribe.filter)
        },
    }
}

/// The bytes that `mqtt_v5::encoder::encode_mqtt` writes for a packet without
/// properties.
pub uninterp spec fn encoded(packet: RequestView) -> Seq<u8>;

/// `mqtt_v5::encoder::encode_mqtt` on a connect without properties, in the version
/// that the connect asks for: the bytes of the packet are appended to what the
/// buffer holds, and depend on nothing but the fields. The topic, the payload, the
/// quality of service and the retain flag are those of the will.
#[verifier::external_body]
fn encode_connect(
    protocol_name: String,
    protocol_version: u8,
    clean_start: bool,
    keep_alive: u16,
    client_id: String,
    user_name: Option<String>,
    password: Option<String>,
    topic: String,
    payload: Vec<u8>,
    qos: u8,
    should_retain: bool,
    bytes: &mut Vec<u8>,
)
    requires
        qos <= 2,
        sendable(
            connect_view(
                protocol_name@,
                protocol_version,
                clean_start,
                keep_alive,
                client_id@,
                text_view(user_name),
                text_view(password),
                topic@,
                payload@,
                qos,
                should_retain,
            ),
        ),
    ensures
        final(bytes)@ == old(bytes)@ + encoded(
            connect_view(
                protocol_name@,
                protocol_version,
                clean_start,
                keep_alive,
                client_id@,
                text_view(user_name),
                text_view(password),
                topic@,
                payload@,
                qos,
                should_retain,
            ),
        ),
{
    let protocol_version = types::ProtocolVersion::try_from(protocol_version).unwrap();
    let will = types::FinalWill { topic, payload: payload.into(), should_retain,
        qos: types::QoS::try_from(qos).unwrap(), will_delay_interval: None, response_topic: None,
        payload_format_indicator: None, message_expiry_interval: None, content_type: None,
        correlation_data: None, user_properties: vec![] };
    let packet = types::Packet::Connect(types::ConnectPacket { protocol_name, protocol_version,
        clean_start, keep_alive, client_id, will: Some(will), session_expiry_interval: None,
        receive_maximum: None, maximum_packet_size: None, topic_alias_maximum: None,
        request_response_information: None, request_problem_information: None, user_name, password,
        user_properties: vec![], authentication_method: None, authentication_data: None });
    let mut buffer = BytesMut::from(bytes.as_slice());
    encode_mqtt(&packet, &mut buffer, protocol_version);
    *bytes = buffer.to_vec();
}

/// `mqtt_v5::encoder::encode_mqtt` on a subscribe to one topic, without properties:
/// the bytes of the packet are appended to what the buffer holds, and depend on
/// nothing but the fields. `qos` and `retain` are the numbers of the quality of
/// service and of the way to handle retained messages.
#[verifier::external_body]
fn encode_subscribe(packet: SubscribePacket, qos: u8, retain: u8, bytes: &mut Vec<u8>)
    requires
        sendable(packet@),
        qos == qos_number(packet.maximum_qos),
        retain == retain_number(packet.retain_handling),
    ensures
        final(bytes)@ == old(bytes)@ + encoded(packet@),
{
    let SubscribePacket { packet_id, filter, no_local, retain_as_published, .. } = packet;
    let version = types::ProtocolVersion::try_from(packet.protocol_version).unwrap();
    let topic = types::SubscriptionTopic {
        topic_filter: mqtt_v5::topic::TopicFilter::Concrete { filter, level_count: 1 },
        maximum_qos: types::QoS::try_from(qos).unwrap(), no_local, retain_as_published,
        retain_handling: types::RetainHandling::try_from(retain).unwrap() };
    let packet = types::Packet::Subscribe(types::SubscribePacket {
        packet_id, subscription_identifier: None, user_properties: vec![],
        subscription_topics: vec![topic] });
    let mut buffer = BytesMut::from(bytes.as_slice());
    encode_mqtt(&packet, &mut buffer, version);
    *bytes = buffer.to_vec();
}

/// Appends the bytes of a packet to a buffer.
pub fn encode(packet: Request, bytes: &mut Vec<u8>)
    requires
        sendable(packet@),
    ensures
        final(bytes)@ == old(bytes)@ + encoded(packet@),
{
    match packet {
        Request::Connect(packet) => {
            let qos: u8 = packet.will.qos.number();
            encode_connect(
                packet.protocol_name,
                packet.protocol_version,
                packet.clean_start,
                packet.keep_alive,
                packet.client_id,
                packet.user_name,
                packet.password,
                packet.will.topic,
                packet.will.payload,
                qos,
                packet.will.should_retain,
                bytes,
            )
        },
        Request::Subscribe(packet) => {
            let qos: u8 = packet.maximum_qos.number();
            let retain: u8 = packet.retain_handling.number();
            encode_subscribe(packet, qos, retain, bytes)
        },
    }
}

/// The packet type of `mqtt_v5`, carried along for display.
#[verifier::external_type_specification]
#[verifier::external_body]
pub struct ExPacket(mqtt_v5::types::Packet);

/// The error of `mqtt_v5`'s decoder.
#[verifier::external_type_specification]
#[verifier::external_body]
pub struct ExDecodeError(mqtt_v5::types::DecodeError);

/// A packet that came from the broker.
#[derive(Debug)]
pub struct Received {
    /// The control packet type.
    pub kind: u8,
    /// The payload of a publish; no other packet has one.
    pub payload: Option<Vec<u8>>,
    /// The packet itself, for display.
    pub packet: mqtt_v5::types::Packet,
}

/// What the decoder gives for a buffer: a packet, `None` where the buffer holds
/// only a part of one, or an error.
pub type Outcome = Result<Option<Received>, mqtt_v5::types::DecodeError>;

/// An outcome by its plain values: the type and payload of a packet.
pub type OutcomeView = Result<Option<(u8, Option<Seq<u8>>)>, ()>;

/// The payload of a publish as a sequence.
pub open spec fn payload_view(payload: Option<Vec<u8>>) -> Option<Seq<u8>> {
    match payload {
        Some(bytes) => Some(bytes@),
        None => None,
    }
}

/// The plain values of an outcome.
pub open spec fn outcome_view(outcome: Outcome) -> OutcomeView {
    match outcome {
        Ok(Some(received)) => Ok(Some((received.kind, payload_view(received.payload)))),
        Ok(None) => Ok(None),
        Err(_) => Err(()),
    }
}

/// Whether an outcome holds a packet with a payload exactly where it is a publish.
pub open spec fn consistent(outcome: OutcomeView) -> bool {
    outcome matches Ok(Some(packet)) ==> (packet.1 is Some <==> packet.0 == PUBLISH)
}

/// Whether four bytes with their top bit set, followed by one whose lower seven
/// bits reach 16, start at `i`. Read as a number of variable length, those five
/// bytes stand for more than 32 bits can hold.
pub open spec fn overlong_at(bytes: Seq<u8>, i: int) -> bool {
    &&& 0 <= i
    &&& i + 4 < bytes.len()
    &&& bytes[i] >= 128
    &&& bytes[i + 1] >= 128
    &&& bytes[i + 2] >= 128
    &&& bytes[i + 3] >= 128
    &&& bytes[i + 4] % 128 >= 16
}

/// Whether an overlong number occurs anywhere in a buffer.
pub open spec fn has_overlong(bytes: Seq<u8>) -> bool {
    exists|i: int| overlong_at(bytes, i)
}

/// What `mqtt_v5::decoder::decode_mqtt` makes of a buffer, in version 5 of the
/// protocol: the type and the payload of the packet at its front.
pub uninterp spec fn decoded(bytes: Seq<u8>) -> OutcomeView;

/// `mqtt_v5::decoder::decode_mqtt` on a copy of a buffer: the outcome depends on
/// the bytes alone. A packet's type is what `Packet::to_byte` says, and a publish,
/// type 3, is the one packet with a payload.
///
/// The decoder adds up numbers of variable length in 32 bits before it refuses
/// one of five bytes. Where the addition can overflow it may panic, so buffers
/// that hold such bytes are left out.
#[verifier::external_body]
fn decode_mqtt(bytes: &[u8]) -> (outcome: Outcome)
    requires
        !has_overlong(bytes@),
    ensures
        outcome_view(outcome) == decoded(bytes@),
        consistent(outcome_view(outcome)),
{
    let mut buffer = BytesMut::from(bytes);
    match decoder::decode_mqtt(&mut buffer, types::ProtocolVersion::V500) {
        Ok(Some(packet)) => {
            let kind = packet.to_byte();
            let payload = match &packet {
                types::Packet::Publish(publish) => Some(publish.payload.to_vec()),
                _ => None,
            };
            Ok(Some(Received { kind, payload, packet }))
        },
        Ok(None) => Ok(None),
        Err(error) => Err(error),
    }
}

/// Whether an overlong number occurs anywhere in a buffer.
pub fn find_overlong(bytes: &[u8]) -> (found: bool)
    ensures
        found == has_overlong(bytes@),
{
    let mut i: usize = 0;
    while i < bytes.len()
        invariant
            i <= bytes@.len(),
            forall|j: int| 0 <= j < i ==> !overlong_at(bytes@, j),
        decreases bytes@.len() - i,
    {
        if bytes.len() - i > 4 && bytes[i] >= 128 && bytes[i + 1] >= 128 && bytes[i + 2] >= 128
            && bytes[i + 3] >= 128 && bytes[i + 4] % 128 >= 16 {
            assert(overlong_at(bytes@, i as int));
            return true;
        }
        assert(!overlong_at(bytes@, i as int));
        i += 1;
    }
    false
}

/// Decodes the packet at the front of a buffer, or gives `None`, and decodes
/// nothing, where the buffer holds an overlong number.
pub fn decode(bytes: &[u8]) -> (outcome: Option<Outcome>)
    ensures
        outcome is None <==> has_overlong(bytes@),
        outcome matches Some(outcome) ==> {
            &&& outcome_view(outcome) == decoded(bytes@)
            &&& consistent(outcome_view(outcome))
        },
{
    if find_overlong(bytes) {
        None
    } else {
        Some(decode_mqtt(bytes))
    }
}

/// A buffer is taken for one with an overlong number exactly where four bytes in a row
/// have their top bit set and the lower seven bits of the next reach 16.
pub proof fn overlong_numbers_are_five_bytes(bytes: Seq<u8>, i: int)
    requires
        0 <= i,
        i + 4 < bytes.len(),
        bytes[i] >= 128,
        bytes[i + 1] >= 128,
        bytes[i + 2] >= 128,
        bytes[i + 3] >= 128,
        bytes[i + 4] % 128 >= 16,
    ensures
        has_overlong(bytes),
{
    assert(overlong_at(bytes, i));
}

/// A buffer with an overlong number holds five such bytes somewhere.
pub proof fn overlong_buffers_hold_five_bytes(bytes: Seq<u8>) -> (i: int)
    requires
        has_overlong(bytes),
    ensures
        0 <= i,
        i + 4 < bytes.len(),
        bytes[i] >= 128,
        bytes[i + 1] >= 128,
        bytes[i + 2] >= 128,
        bytes[i + 3] >= 128,
        bytes[i + 4] % 128 >= 16,
{
    choose|i: int| overlong_at(bytes, i)
}

/// The numbers on the wire: those of version 5 of the protocol.
pub proof fn numbers_on_the_wire(qos: QoS, handling: RetainHandling)
    ensures
        qos is AtMostOnce <==> qos_number(qos) == 0,
        qos is AtLeastOnce <==> qos_number(qos) == 1,
        qos is ExactlyOnce <==> qos_number(qos) == 2,
        handling is SendAtSubscribeTime <==> retain_number(handling) == 0,
        handling is SendAtSubscribeTimeIfNonexistent <==> retain_number(handling) == 1,
        handling is DoNotSend <==> retain_number(handling) == 2,
        CONNECT_ACK == 2 && PUBLISH == 3 && SUBSCRIBE_ACK == 9,
        VERSION_5 == 5,
        FIELD_LIMIT == 65535,
{
}

/// A connect is seen by every one of its fields.
pub proof fn connects_show_every_field(packet: ConnectPacket)
    ensures
        Request::Connect(packet)@ == packet@,
        packet@ matches RequestView::Connect(seen) && {
            &&& seen.protocol_name == packet.protocol_name@
            &&& seen.protocol_version == packet.protocol_version
            &&& seen.clean_start == packet.clean_start
            &&& seen.keep_alive == packet.keep_alive
            &&& seen.client_id == packet.client_id@
            &&& packet.user_name matches Some(name) ==> seen.user_name == Some(name@)
            &&& packet.user_name is None ==> seen.user_name is None
            &&& packet.password matches Some(password) ==> seen.password == Some(password@)
            &&& packet.password is None ==> seen.password is None
            &&& seen.will_topic == packet.will.topic@
            &&& seen.will_payload == packet.will.payload@
            &&& seen.will_qos == qos_number(packet.will.qos)
            &&& seen.will_retain == packet.will.should_retain
        },
{
}

/// A subscribe is seen by every one of its fields.
pub proof fn subscribes_show_every_field(packet: SubscribePacket)
    ensures
        Request::Subscribe(packet)@ == packet@,
        packet@ matches RequestView::Subscribe(seen) && {
            &&& seen.protocol_version == packet.protocol_version
            &&& seen.packet_id == packet.packet_id
            &&& seen.filter == packet.filter@
            &&& seen.maximum_qos == qos_number(packet.maximum_qos)
            &&& seen.no_local == packet.no_local
            &&& seen.retain_as_published == packet.retain_as_published
            &&& seen.retain_handling == retain_number(packet.retain_handling)
        },
{
}

/// Every packet can be sent whose texts and payload are at most 65535 bytes long and
/// which asks for version 3.1.1 or 5 of the protocol.
pub proof fn what_can_be_sent(connect: ConnectView, subscribe: SubscribeView)
    ensures
        sendable(RequestView::Connect(connect)) <==> {
            &&& connect.protocol_version == 4 || connect.protocol_version == 5
            &&& vstd::utf8::encode_utf8(connect.protocol_name).len() <= 65535
            &&& vstd::utf8::encode_utf8(connect.client_id).len() <= 65535
            &&& connect.user_name matches Some(name) ==> vstd::utf8::encode_utf8(name).len()
                <= 65535
            &&& connect.password matches Some(password) ==> vstd::utf8::encode_utf8(
                password,
            ).len() <= 65535
            &&& vstd::utf8::encode_utf8(connect.will_topic).len() <= 65535
            &&& connect.will_payload.len() <= 65535
        },
        sendable(RequestView::Subscribe(subscribe)) <==> {
            &&& subscribe.protocol_version == 4 || subscribe.protocol_version == 5
            &&& vstd::utf8::encode_utf8(subscribe.filter).len() <= 65535
        },
{
}

/// An outcome is seen by the type and the whole payload of its packet, and a packet
/// has a payload exactly where it is a publish.
pub proof fn outcomes_show_type_and_payload(outcome: Outcome)
    ensures
        outcome is Err <==> outcome_view(outcome) is Err,
        outcome matches Ok(None) <==> outcome_view(outcome) == OutcomeView::Ok(None),
        outcome matches Ok(Some(received)) ==> {
            &&& outcome_view(outcome) matches Ok(Some((kind, payload)))
            &&& kind == received.kind
            &&& received.payload matches Some(bytes) ==> payload == Some(bytes@)
            &&& received.payload is None ==> payload is None
            &&& consistent(outcome_view(outcome)) <==> (payload is Some <==> kind == 3)
        },
        !(outcome matches Ok(Some(_))) ==> consistent(outcome_view(outcome)),
{
}

} // verus!
