//! The MQTT subscription that feeds the LED strip, as a machine: it says what to
//! do next on the socket or the LED channel, and is told what came of it.
use vstd::prelude::*;

use crate::led::LEDMessage;
use crate::mqtt;
use crate::mqtt::{ConnectPacket, ConnectView, FinalWill, Outcome, OutcomeView, QoS, Received};
use crate::mqtt::{Request, RequestView, RetainHandling, SubscribePacket, SubscribeView};
use crate::mqtt::{CONNECT_ACK, SUBSCRIBE_ACK, VERSION_5};

verus! {

/// Where the broker listens.
pub const BROKER: &'static str = "192.168.0.209:1883";

/// The name under which the device connects, and the topic that it listens to and
/// leaves its will on.
pub const DEVICE: &'static str = "esp32-c3";

/// What the broker publishes for the device once it is gone.
pub const WILL: &'static str = "offline";

/// The name of the protocol in a connect.
pub const PROTOCOL: &'static str = "MQTT";

/// The longest silence that the device announces, in seconds.
pub const KEEP_ALIVE: u16 = 200;

/// The identifier of the one subscription.
pub const SUBSCRIPTION_ID: u16 = 1;

/// The size of the read buffer.
pub const READ_SIZE: usize = 512;

/// How many reads the client spends on waiting for each of the two answers.
pub const ATTEMPTS: u32 = 100;

/// What the strip shows before the first message: white.
pub open spec fn greeting() -> LEDMessage {
    LEDMessage::Color((255u8, 255u8, 255u8))
}

/// How far the client has come. Each stage waits for one thing to happen.
#[derive(Debug, Clone, Copy, PartialEq, Eq)]
pub enum Stage {
    /// The greeting goes to the LED task.
    Greeting,
    /// The socket is being connected.
    Dialing,
    /// The connect is being written.
    SendingConnect,
    /// The connect is being flushed.
    FlushingConnect,
    /// A read is under way; `tries` reads brought no answer to the connect.
    AwaitingConnAck { tries: u32 },
    /// What that read left in the buffer is being decoded.
    DecodingConnAck { tries: u32 },
    /// The subscribe is being written.
    SendingSubscribe,
    /// The subscribe is being flushed.
    FlushingSubscribe,
    /// A read is under way; `tries` reads brought no answer to the subscribe.
    AwaitingSubAck { tries: u32 },
    /// What that read left in the buffer is being decoded.
    DecodingSubAck { tries: u32 },
    /// A read for the next message is under way.
    Listening,
    /// The watchdog is being reset after a read.
    Resetting,
    /// What that read left in the buffer is being decoded.
    DecodingMessage,
    /// The payload of a publish is being parsed.
    Parsing,
    /// A message goes to the LED task.
    Forwarding { message: LEDMessage },
    /// The buffer could not be decoded.
    Failed,
}

/// What has to be done next.
#[derive(Debug)]
pub enum Action {
    /// Hand a message to the LED task.
    Send(LEDMessage),
    /// Connect the socket to the broker.
    Connect,
    /// Write these bytes, with one call.
    Write(Vec<u8>),
    /// Write all of these bytes.
    WriteAll(Vec<u8>),
    /// Flush the socket.
    Flush,
    /// Read once, at most as much as the read buffer holds.
    Read,
    /// Read until the read buffer is full.
    ReadExact,
    /// Reset the task watchdog.
    ResetWatchdog,
    /// Decode these bytes, which hold an overlong number.
    Decode(Vec<u8>),
    /// Parse these bytes as a JSON message.
    Parse(Vec<u8>),
    /// Give up on this error.
    Fail(mqtt_v5::types::DecodeError),
}

/// An action by its plain values.
pub enum ActionView {
    Send(LEDMessage),
    Connect,
    Write(Seq<u8>),
    WriteAll(Seq<u8>),
    Flush,
    Read,
    ReadExact,
    ResetWatchdog,
    Decode(Seq<u8>),
    Parse(Seq<u8>),
    Fail,
}

impl View for Action {
    type V = ActionView;

    open spec fn view(&self) -> ActionView {
        match self {
            Action::Send(message) => ActionView::Send(*message),
            Action::Connect => ActionView::Connect,
            Action::Write(bytes) => ActionView::Write(bytes@),
            Action::WriteAll(bytes) => ActionView::WriteAll(bytes@),
            Action::Flush => ActionView::Flush,
            Action::Read => ActionView::Read,
            Action::ReadExact => ActionView::ReadExact,
            Action::ResetWatchdog => ActionView::ResetWatchdog,
            Action::Decode(bytes) => ActionView::Decode(bytes@),
            Action::Parse(bytes) => ActionView::Parse(bytes@),
            Action::Fail(_) => ActionView::Fail,
        }
    }
}

/// What there is to tell about a packet that was just decoded.
#[derive(Debug)]
pub enum Report {
    /// Nothing.
    Nothing,
    /// The answer to the connect came.
    ConnAck(mqtt_v5::types::Packet),
    /// The answer to the subscribe came.
    SubAck(mqtt_v5::types::Packet),
    /// A message was published.
    Publish(mqtt_v5::types::Packet),
    /// Another packet came while an answer was due.
    Got(mqtt_v5::types::Packet),
}

/// The kind of a report.
pub enum ReportView {
    Nothing,
    ConnAck,
    SubAck,
    Publish,
    Got,
}

impl View for Report {
    type V = ReportView;

    open spec fn view(&self) -> ReportView {
        match self {
            Report::Nothing => ReportView::Nothing,
            Report::ConnAck(_) => ReportView::ConnAck,
            Report::SubAck(_) => ReportView::SubAck,
            Report::Publish(_) => ReportView::Publish,
            Report::Got(_) => ReportView::Got,
        }
    }
}

/// The client's side of one session with the broker.
#[derive(Debug)]
pub struct Session {
    stage: Stage,
    outgoing: Vec<u8>,
    incoming: Vec<u8>,
    document: Vec<u8>,
}

/// A session by its plain values.
pub struct SessionView {
    /// How far the client has come.
    pub stage: Stage,
    /// What has been put into the write buffer so far.
    pub outgoing: Seq<u8>,
    /// The read buffer.
    pub incoming: Seq<u8>,
    /// The part of the last payload that is parsed.
    pub document: Seq<u8>,
}

impl View for Session {
    type V = SessionView;

    closed spec fn view(&self) -> SessionView {
        SessionView {
            stage: self.stage,
            outgoing: self.outgoing@,
            incoming: self.incoming@,
            document: self.document@,
        }
    }
}

/// The connect that the device sends.
pub open spec fn connect_request() -> RequestView {
    RequestView::Connect(
        ConnectView {
            protocol_name: PROTOCOL@,
            protocol_version: VERSION_5,
            clean_start: true,
            keep_alive: KEEP_ALIVE,
            client_id: DEVICE@,
            user_name: None,
            password: None,
            will_topic: DEVICE@,
            will_payload: vstd::utf8::encode_utf8(WILL@),
            will_qos: mqtt::qos_number(QoS::AtMostOnce),
            will_retain: false,
        },
    )
}

/// The subscribe that the device sends.
pub open spec fn subscribe_request() -> RequestView {
    RequestView::Subscribe(
        SubscribeView {
            protocol_version: VERSION_5,
            packet_id: SUBSCRIPTION_ID,
            filter: DEVICE@,
            maximum_qos: mqtt::qos_number(QoS::AtMostOnce),
            no_local: false,
            retain_as_published: false,
            retain_handling: mqtt::retain_number(RetainHandling::SendAtSubscribeTime),
        },
    )
}

/// What the first write sends.
pub open spec fn first_write() -> Seq<u8> {
    mqtt::encoded(connect_request())
}

/// What the second write sends: the write buffer is not emptied in between, so the
/// subscribe follows the connect.
pub open spec fn second_write() -> Seq<u8> {
    mqtt::encoded(connect_request()) + mqtt::encoded(subscribe_request())
}

/// What the write buffer holds at a stage.
pub open spec fn write_buffer(stage: Stage) -> Seq<u8> {
    match stage {
        Stage::Greeting | Stage::Dialing => Seq::empty(),
        Stage::SendingConnect | Stage::FlushingConnect => first_write(),
        Stage::AwaitingConnAck { .. } | Stage::DecodingConnAck { .. } => first_write(),
        _ => second_write(),
    }
}

/// What every session keeps: the read buffer has its size, the write buffer holds
/// what the stage says, no answer is awaited for more than the allowed reads, and
/// what is parsed holds no zero byte.
pub open spec fn wf(session: SessionView) -> bool {
    &&& session.incoming.len() == READ_SIZE
    &&& session.stage is Failed || session.outgoing == write_buffer(session.stage)
    &&& session.stage matches Stage::AwaitingConnAck { tries } ==> tries < ATTEMPTS
    &&& session.stage matches Stage::DecodingConnAck { tries } ==> tries < ATTEMPTS
    &&& session.stage matches Stage::AwaitingSubAck { tries } ==> tries < ATTEMPTS
    &&& session.stage matches Stage::DecodingSubAck { tries } ==> tries < ATTEMPTS
    &&& !session.document.contains(0u8)
}

/// The action that a stage waits for.
pub open spec fn due(session: SessionView) -> ActionView {
    match session.stage {
        Stage::Greeting => ActionView::Send(greeting()),
        Stage::Dialing => ActionView::Connect,
        Stage::SendingConnect => ActionView::Write(session.outgoing),
        Stage::FlushingConnect | Stage::FlushingSubscribe => ActionView::Flush,
        Stage::AwaitingConnAck { .. } => ActionView::Read,
        Stage::SendingSubscribe => ActionView::WriteAll(session.outgoing),
        Stage::AwaitingSubAck { .. } | Stage::Listening => ActionView::ReadExact,
        Stage::Resetting => ActionView::ResetWatchdog,
        Stage::DecodingConnAck { .. } | Stage::DecodingSubAck { .. }
        | Stage::DecodingMessage => ActionView::Decode(session.incoming),
        Stage::Parsing => ActionView::Parse(session.document),
        Stage::Forwarding { message } => ActionView::Send(message),
        Stage::Failed => ActionView::Fail,
    }
}

/// Whether a stage waits for an action that either succeeds or ends the session.
pub open spec fn awaits_done(stage: Stage) -> bool {
    match stage {
        Stage::Greeting | Stage::Dialing | Stage::SendingConnect | Stage::FlushingConnect => true,
        Stage::SendingSubscribe | Stage::FlushingSubscribe | Stage::Resetting => true,
        Stage::Forwarding { .. } => true,
        _ => false,
    }
}

/// Whether a stage waits for a read that brings `count` bytes.
pub open spec fn awaits_read(stage: Stage, count: nat) -> bool {
    match stage {
        Stage::AwaitingConnAck { .. } => count <= READ_SIZE,
        Stage::AwaitingSubAck { .. } | Stage::Listening => count == READ_SIZE,
        _ => false,
    }
}

/// Whether a stage waits for an outcome of the decoder.
pub open spec fn awaits_outcome(stage: Stage) -> bool {
    stage is DecodingConnAck || stage is DecodingSubAck || stage is DecodingMessage
}

/// The session at another stage.
pub open spec fn at(session: SessionView, stage: Stage) -> SessionView {
    SessionView { stage, ..session }
}

/// The session once the action that it waited for is done.
pub open spec fn after_done(session: SessionView) -> SessionView {
    match session.stage {
        Stage::Greeting => at(session, Stage::Dialing),
        Stage::Dialing => SessionView {
            stage: Stage::SendingConnect,
            outgoing: first_write(),
            ..session
        },
        Stage::SendingConnect => at(session, Stage::FlushingConnect),
        Stage::FlushingConnect => at(session, Stage::AwaitingConnAck { tries: 0 }),
        Stage::SendingSubscribe => at(session, Stage::FlushingSubscribe),
        Stage::FlushingSubscribe => at(session, Stage::AwaitingSubAck { tries: 0 }),
        Stage::Resetting => at(session, Stage::DecodingMessage),
        _ => at(session, Stage::Listening),
    }
}

/// The read buffer after a read: what was read stands at its front, and the rest is
/// what it was.
pub open spec fn overlay(buffer: Seq<u8>, chunk: Seq<u8>) -> Seq<u8> {
    chunk + buffer.skip(chunk.len() as int)
}

/// The session once a read brought `chunk`.
pub open spec fn after_read(session: SessionView, chunk: Seq<u8>) -> SessionView {
    SessionView {
        stage: match session.stage {
            Stage::AwaitingConnAck { tries } => Stage::DecodingConnAck { tries },
            Stage::AwaitingSubAck { tries } => Stage::DecodingSubAck { tries },
            _ => Stage::Resetting,
        },
        incoming: overlay(session.incoming, chunk),
        ..session
    }
}

/// The part of a payload before its first zero byte.
pub open spec fn until_nul(payload: Seq<u8>) -> Seq<u8> {
    match payload.index_of_first(0u8) {
        Some(i) => payload.take(i),
        None => payload,
    }
}

/// Whether a decoded packet is of a type.
pub open spec fn is_kind(packet: Option<(u8, Option<Seq<u8>>)>, kind: u8) -> bool {
    packet matches Some(packet) && packet.0 == kind
}

/// The session once the read buffer was decoded.
pub open spec fn after_outcome(session: SessionView, outcome: OutcomeView) -> SessionView {
    match (outcome, session.stage) {
        (Err(_), _) => at(session, Stage::Failed),
        (Ok(packet), Stage::DecodingConnAck { tries }) => {
            if is_kind(packet, CONNECT_ACK) || tries + 1 >= ATTEMPTS {
                SessionView {
                    stage: Stage::SendingSubscribe,
                    outgoing: session.outgoing + mqtt::encoded(subscribe_request()),
                    ..session
                }
            } else {
                at(session, Stage::AwaitingConnAck { tries: (tries + 1) as u32 })
            }
        },
        (Ok(packet), Stage::DecodingSubAck { tries }) => {
            if is_kind(packet, SUBSCRIBE_ACK) || tries + 1 >= ATTEMPTS {
                at(session, Stage::Listening)
            } else {
                at(session, Stage::AwaitingSubAck { tries: (tries + 1) as u32 })
            }
        },
        (Ok(packet), _) => match packet {
            Some((_, Some(payload))) => SessionView {
                stage: Stage::Parsing,
                document: until_nul(payload),
                ..session
            },
            _ => at(session, Stage::Listening),
        },
    }
}

/// The session once an outcome that it waits for is there, where the buffer can be
/// decoded at once.
pub open spec fn settled(session: SessionView) -> SessionView {
    if awaits_outcome(session.stage) && !mqtt::has_overlong(session.incoming) {
        after_outcome(session, mqtt::decoded(session.incoming))
    } else {
        session
    }
}

/// The session once a document was parsed, as `message`, or found to be no message.
pub open spec fn after_parse(session: SessionView, message: Option<LEDMessage>) -> SessionView {
    match message {
        Some(message) => at(session, Stage::Forwarding { message }),
        None => at(session, Stage::Listening),
    }
}

/// What there is to tell about an outcome.
pub open spec fn told(stage: Stage, outcome: OutcomeView) -> ReportView {
    match (outcome, stage) {
        (Ok(Some(packet)), Stage::DecodingConnAck { .. }) => {
            if packet.0 == CONNECT_ACK { ReportView::ConnAck } else { ReportView::Got }
        },
        (Ok(Some(packet)), Stage::DecodingSubAck { .. }) => {
            if packet.0 == SUBSCRIBE_ACK { ReportView::SubAck } else { ReportView::Got }
        },
        (Ok(Some(packet)), _) => {
            if packet.1 is Some { ReportView::Publish } else { ReportView::Nothing }
        },
        _ => ReportView::Nothing,
    }
}

/// What there is to tell once a session settles.
pub open spec fn told_settling(session: SessionView) -> ReportView {
    if awaits_outcome(session.stage) && !mqtt::has_overlong(session.incoming) {
        told(session.stage, mqtt::decoded(session.incoming))
    } else {
        ReportView::Nothing
    }
}

/// The packet that a report shows.
pub open spec fn shown(report: Report) -> Option<mqtt_v5::types::Packet> {
    match report {
        Report::Nothing => None,
        Report::ConnAck(packet) => Some(packet),
        Report::SubAck(packet) => Some(packet),
        Report::Publish(packet) => Some(packet),
        Report::Got(packet) => Some(packet),
    }
}

/// The part of a payload before its first zero byte.
pub fn cut(payload: &Vec<u8>) -> (document: Vec<u8>)
    ensures
        document@ == until_nul(payload@),
        !document@.contains(0u8),
{
    let mut document: Vec<u8> = Vec::new();
    let mut i: usize = 0;
    proof {
        payload@.index_of_first_ensures(0u8);
    }
    while i < payload.len()
        invariant
            i <= payload@.len(),
            document@ =~= payload@.take(i as int),
            forall|j: int| 0 <= j < i ==> payload@[j] != 0,
            payload@.index_of_first(0u8) matches Some(k) ==> 0 <= k < payload@.len() && payload@[k] == 0
                && forall|j: int| 0 <= j < k ==> payload@[j] != 0,
            payload@.index_of_first(0u8) is None ==> !payload@.contains(0u8),
        decreases payload@.len() - i,
    {
        if payload[i] == 0 {
            assert(payload@.contains(payload@[i as int]));
            return document;
        }
        document.push(payload[i]);
        i += 1;
    }
    assert(document@ =~= payload@);
    document
}

/// The connect that the device sends.
fn connect_packet() -> (request: Request)
    ensures
        request@ == connect_request(),
        mqtt::sendable(request@),
{
    proof {
        lemma_device_texts_fit();
    }
    let will = FinalWill {
        topic: DEVICE.to_string(),
        payload: vstd::slice::slice_to_vec(WILL.as_bytes()),
        qos: QoS::AtMostOnce,
        should_retain: false,
    };
    Request::Connect(
        ConnectPacket {
            protocol_name: PROTOCOL.to_string(),
            protocol_version: VERSION_5,
            clean_start: true,
            keep_alive: KEEP_ALIVE,
            client_id: DEVICE.to_string(),
            user_name: None,
            password: None,
            will,
        },
    )
}

/// The subscribe that the device sends.
fn subscribe_packet() -> (request: Request)
    ensures
        request@ == subscribe_request(),
        mqtt::sendable(request@),
{
    proof {
        lemma_device_texts_fit();
    }
    Request::Subscribe(
        SubscribePacket {
            protocol_version: VERSION_5,
            packet_id: SUBSCRIPTION_ID,
            filter: DEVICE.to_string(),
            maximum_qos: QoS::AtMostOnce,
            no_local: false,
            retain_as_published: false,
            retain_handling: RetainHandling::SendAtSubscribeTime,
        },
    )
}

/// A copy of some bytes.
fn copied(bytes: &Vec<u8>) -> (copy: Vec<u8>)
    ensures
        copy@ == bytes@,
{
    let copy = bytes.clone();
    assert(copy@ =~= bytes@);
    copy
}

impl Session {
    /// How far the client has come.
    pub fn stage(&self) -> (stage: Stage)
        ensures
            stage == self@.stage,
    {
        self.stage
    }

    /// The read buffer.
    pub fn incoming(&self) -> (bytes: &Vec<u8>)
        ensures
            bytes@ == self@.incoming,
    {
        &self.incoming
    }

    /// The action that the session waits for.
    fn due_action(&self) -> (action: Action)
        requires
            self@.stage !is Failed,
        ensures
            action@ == due(self@),
    {
        match self.stage {
            Stage::Greeting => Action::Send(LEDMessage::Color((255, 255, 255))),
            Stage::Dialing => Action::Connect,
            Stage::SendingConnect => Action::Write(copied(&self.outgoing)),
            Stage::FlushingConnect | Stage::FlushingSubscribe => Action::Flush,
            Stage::AwaitingConnAck { .. } => Action::Read,
            Stage::SendingSubscribe => Action::WriteAll(copied(&self.outgoing)),
            Stage::AwaitingSubAck { .. } | Stage::Listening => Action::ReadExact,
            Stage::Resetting => Action::ResetWatchdog,
            Stage::DecodingConnAck { .. } | Stage::DecodingSubAck { .. }
            | Stage::DecodingMessage => Action::Decode(copied(&self.incoming)),
            Stage::Parsing => Action::Parse(copied(&self.document)),
            Stage::Forwarding { message } => Action::Send(message),
            Stage::Failed => vstd::pervasive::unreached(),
        }
    }

    /// Tells the session that the action it waited for is done.
    pub fn done(&mut self) -> (next: (Action, Report))
        requires
            wf(old(self)@),
            awaits_done(old(self)@.stage),
        ensures
            wf(final(self)@),
            final(self)@ == settled(after_done(old(self)@)),
            next.0@ == due(final(self)@),
            next.1@ == told_settling(after_done(old(self)@)),
    {
        match self.stage {
            Stage::Greeting => {
                self.stage = Stage::Dialing;
            },
            Stage::Dialing => {
                mqtt::encode(connect_packet(), &mut self.outgoing);
                self.stage = Stage::SendingConnect;
                assert(self.outgoing@ =~= first_write());
            },
            Stage::SendingConnect => {
                self.stage = Stage::FlushingConnect;
            },
            Stage::FlushingConnect => {
                self.stage = Stage::AwaitingConnAck { tries: 0 };
            },
            Stage::SendingSubscribe => {
                self.stage = Stage::FlushingSubscribe;
            },
            Stage::FlushingSubscribe => {
                self.stage = Stage::AwaitingSubAck { tries: 0 };
            },
            Stage::Resetting => {
                self.stage = Stage::DecodingMessage;
                return self.settle();
            },
            _ => {
                self.stage = Stage::Listening;
            },
        }
        (self.due_action(), Report::Nothing)
    }

    /// Tells the session what a read brought.
    pub fn read(&mut self, chunk: &[u8]) -> (next: (Action, Report))
        requires
            wf(old(self)@),
            awaits_read(old(self)@.stage, chunk@.len()),
        ensures
            wf(final(self)@),
            final(self)@ == settled(after_read(old(self)@, chunk@)),
            next.0@ == due(final(self)@),
            next.1@ == told_settling(after_read(old(self)@, chunk@)),
    {
        let ghost before = *self;
        let mut i: usize = 0;
        while i < chunk.len()
            invariant
                i <= chunk@.len() <= self.incoming@.len(),
                self.incoming@ =~= chunk@.take(i as int) + before.incoming@.skip(i as int),
                self.incoming@.len() == before.incoming@.len(),
                self.stage == before.stage,
                self.outgoing == before.outgoing,
                self.document == before.document,
            decreases chunk@.len() - i,
        {
            self.incoming.set(i, chunk[i]);
            i += 1;
        }
        assert(self.incoming@ =~= overlay(before@.incoming, chunk@));
        self.stage = match self.stage {
            Stage::AwaitingConnAck { tries } => Stage::DecodingConnAck { tries },
            Stage::AwaitingSubAck { tries } => Stage::DecodingSubAck { tries },
            _ => Stage::Resetting,
        };
        assert(self@ == after_read(before@, chunk@));
        match self.stage {
            Stage::Resetting => (Action::ResetWatchdog, Report::Nothing),
            _ => self.settle(),
        }
    }

    /// Decodes the read buffer, or asks for its decoding where it holds an overlong
    /// number.
    fn settle(&mut self) -> (next: (Action, Report))
        requires
            wf(old(self)@),
            awaits_outcome(old(self)@.stage),
        ensures
            wf(final(self)@),
            final(self)@ == settled(old(self)@),
            next.0@ == due(final(self)@),
            next.1@ == told_settling(old(self)@),
    {
        match mqtt::decode(self.incoming.as_slice()) {
            Some(outcome) => self.decoded(outcome),
            None => (self.due_action(), Report::Nothing),
        }
    }

    /// Tells the session what the decoder made of the read buffer.
    pub fn decoded(&mut self, outcome: Outcome) -> (next: (Action, Report))
        requires
            wf(old(self)@),
            awaits_outcome(old(self)@.stage),
        ensures
            wf(final(self)@),
            final(self)@ == after_outcome(old(self)@, mqtt::outcome_view(outcome)),
            next.0@ == due(final(self)@),
            next.0 matches Action::Fail(error) ==> outcome == Outcome::Err(error),
            next.1@ == told(old(self)@.stage, mqtt::outcome_view(outcome)),
            next.1 !is Nothing ==> (outcome matches Ok(Some(received)) && shown(next.1) == Some(
                received.packet,
            )),
    {
        let received = match outcome {
            Err(error) => {
                self.stage = Stage::Failed;
                return (Action::Fail(error), Report::Nothing);
            },
            Ok(received) => received,
        };
        let kind: u8 = match &received {
            Some(received) => received.kind,
            None => 0,
        };
        let report = match self.stage {
            Stage::DecodingConnAck { tries } => {
                if kind == CONNECT_ACK || tries + 1 >= ATTEMPTS {
                    mqtt::encode(subscribe_packet(), &mut self.outgoing);
                    self.stage = Stage::SendingSubscribe;
                } else {
                    self.stage = Stage::AwaitingConnAck { tries: tries + 1 };
                }
                match received {
                    Some(received) => if kind == CONNECT_ACK {
                        Report::ConnAck(received.packet)
                    } else {
                        Report::Got(received.packet)
                    },
                    None => Report::Nothing,
                }
            },
            Stage::DecodingSubAck { tries } => {
                if kind == SUBSCRIBE_ACK || tries + 1 >= ATTEMPTS {
                    self.stage = Stage::Listening;
                } else {
                    self.stage = Stage::AwaitingSubAck { tries: tries + 1 };
                }
                match received {
                    Some(received) => if kind == SUBSCRIBE_ACK {
                        Report::SubAck(received.packet)
                    } else {
                        Report::Got(received.packet)
                    },
                    None => Report::Nothing,
                }
            },
            _ => match received {
                Some(Received { payload: Some(payload), packet, .. }) => {
                    self.document = cut(&payload);
                    self.stage = Stage::Parsing;
                    Report::Publish(packet)
                },
                _ => {
                    self.stage = Stage::Listening;
                    Report::Nothing
                },
            },
        };
        (self.due_action(), report)
    }

    /// Tells the session what the document was parsed as, or that it is no message.
    pub fn parsed(&mut self, message: Option<LEDMessage>) -> (next: Action)
        requires
            wf(old(self)@),
            old(self)@.stage is Parsing,
        ensures
            wf(final(self)@),
            final(self)@ == after_parse(old(self)@, message),
            next@ == due(final(self)@),
    {
        self.stage = match message {
            Some(message) => Stage::Forwarding { message },
            None => Stage::Listening,
        };
        self.due_action()
    }
}

/// A session that was just started.
pub open spec fn at_start() -> SessionView {
    SessionView {
        stage: Stage::Greeting,
        outgoing: Seq::empty(),
        incoming: Seq::new(READ_SIZE as nat, |i: int| 0u8),
        document: Seq::empty(),
    }
}

/// Starts a subscription: the strip is greeted first, and the read buffer is zero.
pub fn subscribe_to_channel() -> (start: (Session, Action))
    ensures
        wf(start.0@),
        start.0@.stage == Stage::Greeting,
        start.0@.outgoing == Seq::<u8>::empty(),
        start.0@.incoming == Seq::new(READ_SIZE as nat, |i: int| 0u8),
        start.0@.document == Seq::<u8>::empty(),
        start.1@ == due(start.0@),
        start.0@ == at_start(),
{
    let mut incoming: Vec<u8> = Vec::new();
    while incoming.len() < READ_SIZE
        invariant
            incoming@.len() <= READ_SIZE,
            incoming@ =~= Seq::new(incoming@.len(), |i: int| 0u8),
        decreases READ_SIZE - incoming@.len(),
    {
        incoming.push(0);
    }
    let session = Session {
        stage: Stage::Greeting,
        outgoing: Vec::new(),
        incoming,
        document: Vec::new(),
    };
    let action = session.due_action();
    (session, action)
}

/// Every text that the device sends fits its length field.
proof fn lemma_device_texts_fit()
    ensures
        mqtt::fits(PROTOCOL@),
        mqtt::fits(DEVICE@),
        mqtt::fits(WILL@),
{
    reveal_strlit("MQTT");
    reveal_strlit("esp32-c3");
    reveal_strlit("offline");
    vstd::utf8::is_ascii_chars_encode_utf8(PROTOCOL@);
    vstd::utf8::is_ascii_chars_encode_utf8(DEVICE@);
    vstd::utf8::is_ascii_chars_encode_utf8(WILL@);
}

/// The session after some reads, as long as it waits for an answer. Each read is
/// given by what it brought and by what the decoder made of the buffer then.
pub open spec fn heard(session: SessionView, reads: Seq<(Seq<u8>, OutcomeView)>) -> SessionView
    decreases reads.len(),
{
    if reads.len() == 0 || !(session.stage is AwaitingConnAck || session.stage is AwaitingSubAck) {
        session
    } else {
        heard(
            after_outcome(after_read(session, reads[0].0), reads[0].1),
            reads.drop_first(),
        )
    }
}

/// Whether the session has its subscription and waits for messages.
pub open spec fn subscribed(stage: Stage) -> bool {
    match stage {
        Stage::Listening | Stage::Resetting | Stage::DecodingMessage | Stage::Parsing => true,
        Stage::Forwarding { .. } => true,
        _ => false,
    }
}

/// The first write sends the connect and nothing else; the second sends the connect
/// again and the subscribe behind it. Nothing else is ever written.
pub proof fn writes_are_the_requests(session: SessionView)
    requires
        wf(session),
    ensures
        due(session) matches ActionView::Write(bytes) ==> bytes == first_write(),
        due(session) matches ActionView::WriteAll(bytes) ==> bytes == second_write(),
        first_write() == mqtt::encoded(connect_request()),
        second_write() == first_write() + mqtt::encoded(subscribe_request()),
{
}

/// An answer ends the wait for it at once, whatever read brought it.
pub proof fn answers_end_the_wait(
    session: SessionView,
    chunk: Seq<u8>,
    payload: Option<Seq<u8>>,
)
    requires
        wf(session),
    ensures
        session.stage is AwaitingConnAck ==> after_outcome(
            after_read(session, chunk),
            Ok(Some((CONNECT_ACK, payload))),
        ).stage == Stage::SendingSubscribe,
        session.stage is AwaitingSubAck ==> after_outcome(
            after_read(session, chunk),
            Ok(Some((SUBSCRIBE_ACK, payload))),
        ).stage == Stage::Listening,
{
}

/// No answer is waited for longer than the allowed number of reads: where every
/// read can be decoded, the client goes on to subscribe, or to listen, with the
/// answer or without it.
pub proof fn waiting_is_bounded(session: SessionView, reads: Seq<(Seq<u8>, OutcomeView)>)
    requires
        wf(session),
        forall|i: int| 0 <= i < reads.len() ==> (#[trigger] reads[i]).0.len() <= READ_SIZE,
        forall|i: int| 0 <= i < reads.len() ==> (#[trigger] reads[i]).1 is Ok,
    ensures
        session.stage matches Stage::AwaitingConnAck { tries } ==> reads.len() + tries >= ATTEMPTS
            ==> heard(session, reads).stage == Stage::SendingSubscribe,
        session.stage matches Stage::AwaitingSubAck { tries } ==> reads.len() + tries >= ATTEMPTS
            ==> heard(session, reads).stage == Stage::Listening,
    decreases reads.len(),
{
    if reads.len() > 0 && (session.stage is AwaitingConnAck || session.stage is AwaitingSubAck) {
        let read = reads[0];
        let next = after_outcome(after_read(session, read.0), read.1);
        let rest = reads.drop_first();
        assert forall|i: int| 0 <= i < rest.len() implies (#[trigger] rest[i]).1 is Ok
            && rest[i].0.len() <= READ_SIZE by {
            assert(rest[i] == reads[i + 1]);
        }
        if next.stage is AwaitingConnAck || next.stage is AwaitingSubAck {
            waiting_is_bounded(next, rest);
        }
    }
}

/// Whether every one of some reads can be decoded, and none brings a packet of a type.
pub open spec fn silent(reads: Seq<(Seq<u8>, OutcomeView)>, kind: u8) -> bool {
    forall|i: int|
        0 <= i < reads.len() ==> {
            &&& (#[trigger] reads[i]).1 is Ok
            &&& !is_kind(reads[i].1->Ok_0, kind)
        }
}

/// No answer is given up early: as long as no read brings it, every read before the
/// last allowed one leaves the client waiting, and is counted.
pub proof fn waiting_lasts(session: SessionView, reads: Seq<(Seq<u8>, OutcomeView)>)
    ensures
        session.stage matches Stage::AwaitingConnAck { tries } ==> silent(reads, CONNECT_ACK)
            && reads.len() + tries < ATTEMPTS ==> heard(session, reads).stage
            == (Stage::AwaitingConnAck { tries: (tries + reads.len()) as u32 }),
        session.stage matches Stage::AwaitingSubAck { tries } ==> silent(reads, SUBSCRIBE_ACK)
            && reads.len() + tries < ATTEMPTS ==> heard(session, reads).stage
            == (Stage::AwaitingSubAck { tries: (tries + reads.len()) as u32 }),
    decreases reads.len(),
{
    if reads.len() > 0 {
        let read = reads[0];
        let next = after_outcome(after_read(session, read.0), read.1);
        let rest = reads.drop_first();
        assert forall|i: int| 0 <= i < rest.len() implies #[trigger] rest[i] == reads[i + 1] by {}
        assert(silent(reads, CONNECT_ACK) ==> silent(rest, CONNECT_ACK));
        assert(silent(reads, SUBSCRIBE_ACK) ==> silent(rest, SUBSCRIBE_ACK));
        waiting_lasts(next, rest);
    }
}

/// Once subscribed, the client only listens: it forwards messages and reads, and
/// never connects, writes or flushes again, until a buffer cannot be decoded.
pub proof fn listening_lasts(
    session: SessionView,
    chunk: Seq<u8>,
    outcome: OutcomeView,
    message: Option<LEDMessage>,
)
    requires
        subscribed(session.stage),
    ensures
        awaits_done(session.stage) ==> subscribed(after_done(session).stage),
        session.stage is Listening ==> subscribed(after_read(session, chunk).stage),
        awaits_outcome(session.stage) ==> (subscribed(after_outcome(session, outcome).stage)
            <==> outcome is Ok),
        session.stage is Parsing ==> subscribed(after_parse(session, message).stage),
        !(due(session) is Connect),
        !(due(session) is Write),
        !(due(session) is WriteAll),
        !(due(session) is Flush),
{
}

/// The strip is sent the greeting, and after that only what a published document
/// was parsed as: a document comes from nothing but a packet with a payload, and
/// is that payload up to its first zero byte.
pub proof fn only_publishes_reach_the_strip(
    session: SessionView,
    outcome: OutcomeView,
    message: Option<LEDMessage>,
)
    requires
        wf(session),
        mqtt::consistent(outcome),
    ensures
        due(session) matches ActionView::Send(sent) ==> {
            ||| session.stage == Stage::Greeting && sent == greeting()
            ||| session.stage == Stage::Forwarding { message: sent }
        },
        session.stage is DecodingMessage && after_outcome(session, outcome).stage is Parsing ==> {
            &&& outcome matches Ok(Some((kind, Some(payload))))
            &&& kind == mqtt::PUBLISH
            &&& after_outcome(session, outcome).document == until_nul(payload)
        },
        session.stage is Parsing ==> (after_parse(session, message).stage matches
            Stage::Forwarding { message: sent } ==> message == Some(sent)),
        !(after_done(session).stage is Forwarding),
        after_outcome(session, outcome).stage is Forwarding ==> session.stage is Forwarding,
{
}

/// A read replaces the front of the buffer and leaves the rest as it was; one that
/// fills the buffer replaces all of it.
pub proof fn reads_leave_the_rest(buffer: Seq<u8>, chunk: Seq<u8>)
    requires
        chunk.len() <= buffer.len(),
    ensures
        overlay(buffer, chunk).len() == buffer.len(),
        forall|i: int| 0 <= i < chunk.len() ==> overlay(buffer, chunk)[i] == chunk[i],
        forall|i: int|
            chunk.len() <= i < buffer.len() ==> overlay(buffer, chunk)[i] == buffer[i],
        chunk.len() == buffer.len() ==> overlay(buffer, chunk) == chunk,
{
    assert(chunk.len() == buffer.len() ==> overlay(buffer, chunk) =~= chunk);
}

/// What is parsed of a payload is its longest beginning without a zero byte.
pub proof fn documents_end_at_zero(payload: Seq<u8>)
    ensures
        until_nul(payload).len() <= payload.len(),
        until_nul(payload) == payload.take(until_nul(payload).len() as int),
        !until_nul(payload).contains(0u8),
        until_nul(payload).len() < payload.len() ==> payload[until_nul(payload).len() as int] == 0,
        !payload.contains(0u8) ==> until_nul(payload) == payload,
        until_nul(until_nul(payload)) == until_nul(payload),
{
    payload.index_of_first_ensures(0u8);
    assert(until_nul(payload) =~= payload.take(until_nul(payload).len() as int));
    assert(!until_nul(payload).contains(0u8));
    until_nul(payload).index_of_first_ensures(0u8);
}

/// The session opens in one order: the greeting, the socket, the connect, a flush,
/// and then the first read.
pub proof fn opening_order(session: SessionView)
    requires
        wf(session),
        session.stage == Stage::Greeting,
    ensures
        ({
            let greeted = settled(after_done(session));
            let connected = settled(after_done(greeted));
            let written = settled(after_done(connected));
            let flushed = settled(after_done(written));
            &&& due(session) == ActionView::Send(greeting())
            &&& due(greeted) == ActionView::Connect
            &&& due(connected) == ActionView::Write(first_write())
            &&& due(written) == ActionView::Flush
            &&& due(flushed) == ActionView::Read
            &&& flushed.stage == Stage::AwaitingConnAck { tries: 0 }
        }),
{
}

/// Once the wait for the first answer is over, the subscribe is written, flushed,
/// and its answer read for.
pub proof fn subscribing_order(session: SessionView)
    requires
        wf(session),
        session.stage == Stage::SendingSubscribe,
    ensures
        ({
            let written = settled(after_done(session));
            let flushed = settled(after_done(written));
            &&& due(session) == ActionView::WriteAll(second_write())
            &&& due(written) == ActionView::Flush
            &&& due(flushed) == ActionView::ReadExact
            &&& flushed.stage == Stage::AwaitingSubAck { tries: 0 }
        }),
{
}

/// What is published reaches the strip: a read that brings a publish is followed by
/// a reset of the watchdog, by the parsing of the payload up to its first zero byte,
/// by the message that this gives, and by the next read. A buffer with an overlong
/// number is handed out for decoding first; any other is decoded at once.
pub proof fn published_messages_are_forwarded(
    session: SessionView,
    chunk: Seq<u8>,
    payload: Seq<u8>,
    message: LEDMessage,
)
    requires
        wf(session),
        session.stage == Stage::Listening,
        chunk.len() == READ_SIZE,
    ensures
        ({
            let publish = OutcomeView::Ok(Some((mqtt::PUBLISH, Some(payload))));
            let read = settled(after_read(session, chunk));
            let reset = after_done(read);
            let decoded = after_outcome(reset, publish);
            let parsed = after_parse(decoded, Some(message));
            let sent = settled(after_done(parsed));
            &&& due(read) == ActionView::ResetWatchdog
            &&& mqtt::has_overlong(chunk) ==> settled(reset) == reset && due(reset)
                == ActionView::Decode(chunk)
            &&& !mqtt::has_overlong(chunk) && mqtt::decoded(chunk) == publish ==> settled(reset)
                == decoded
            &&& due(decoded) == ActionView::Parse(until_nul(payload))
            &&& due(parsed) == ActionView::Send(message)
            &&& due(sent) == ActionView::ReadExact
            &&& sent.stage == Stage::Listening
            &&& sent.incoming == chunk
        }),
{
    reads_leave_the_rest(session.incoming, chunk);
}

/// A buffer is handed out for decoding only where it holds an overlong number.
pub proof fn only_overlong_buffers_are_handed_out(session: SessionView)
    ensures
        due(settled(session)) is Decode ==> mqtt::has_overlong(session.incoming),
{
}

} // verus!
