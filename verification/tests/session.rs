use rust_esp32_std_demo::led::LEDMessage;
use rust_esp32_std_demo::mqtt;
use rust_esp32_std_demo::mqtt_client::{
    cut, subscribe_to_channel, Action, Report, Session, Stage, ATTEMPTS, READ_SIZE,
};

const CONNACK: [u8; 5] = [0x20, 3, 0, 0, 0];
const SUBACK: [u8; 6] = [0x90, 4, 0, 1, 0, 0];
const PING_RESPONSE: [u8; 2] = [0xd0, 0];

fn connect_bytes() -> Vec<u8> {
    let mut bytes = vec![0x10, 41, 0, 4];
    bytes.extend_from_slice(b"MQTT");
    bytes.extend_from_slice(&[5, 0x06, 0, 200, 0, 0, 8]);
    bytes.extend_from_slice(b"esp32-c3");
    bytes.extend_from_slice(&[0, 0, 8]);
    bytes.extend_from_slice(b"esp32-c3");
    bytes.extend_from_slice(&[0, 7]);
    bytes.extend_from_slice(b"offline");
    bytes
}

fn subscribe_bytes() -> Vec<u8> {
    let mut bytes = vec![0x82, 14, 0, 1, 0, 0, 8];
    bytes.extend_from_slice(b"esp32-c3");
    bytes.push(0);
    bytes
}

fn publish_bytes(payload: &[u8]) -> Vec<u8> {
    let mut bytes = vec![0x30, (11 + payload.len()) as u8, 0, 8];
    bytes.extend_from_slice(b"esp32-c3");
    bytes.push(0);
    bytes.extend_from_slice(payload);
    bytes
}

fn filled(front: &[u8]) -> Vec<u8> {
    let mut bytes = front.to_vec();
    bytes.resize(READ_SIZE, 0);
    bytes
}

fn awaiting_connack() -> Session {
    let (mut session, action) = subscribe_to_channel();
    assert!(matches!(action, Action::Send(LEDMessage::Color((255, 255, 255)))));
    assert!(matches!(session.done().0, Action::Connect));
    match session.done().0 {
        Action::Write(bytes) => assert_eq!(bytes, connect_bytes()),
        other => panic!("{:?}", other),
    }
    assert!(matches!(session.done().0, Action::Flush));
    assert!(matches!(session.done().0, Action::Read));
    assert_eq!(session.stage(), Stage::AwaitingConnAck { tries: 0 });
    session
}

fn awaiting_suback() -> Session {
    let mut session = awaiting_connack();
    assert!(matches!(session.read(&CONNACK).0, Action::WriteAll(_)));
    assert!(matches!(session.done().0, Action::Flush));
    assert!(matches!(session.done().0, Action::ReadExact));
    assert_eq!(session.stage(), Stage::AwaitingSubAck { tries: 0 });
    session
}

fn listening() -> Session {
    let mut session = awaiting_suback();
    let (action, report) = session.read(&filled(&SUBACK));
    assert!(matches!(action, Action::ReadExact));
    assert!(matches!(report, Report::SubAck(mqtt_v5::types::Packet::SubscribeAck(_))));
    assert_eq!(session.stage(), Stage::Listening);
    session
}

#[test]
fn the_read_buffer_starts_as_zeros() {
    let (session, _) = subscribe_to_channel();
    assert_eq!(session.incoming(), &vec![0u8; 512]);
}

#[test]
fn connack_leads_to_both_requests_in_one_write() {
    let mut session = awaiting_connack();
    let (action, report) = session.read(&CONNACK);
    let mut expected = connect_bytes();
    expected.extend(subscribe_bytes());
    match action {
        Action::WriteAll(bytes) => assert_eq!(bytes, expected),
        other => panic!("{:?}", other),
    }
    match report {
        Report::ConnAck(mqtt_v5::types::Packet::ConnectAck(packet)) => {
            assert_eq!(packet.reason_code, mqtt_v5::types::ConnectReason::Success)
        }
        other => panic!("{:?}", other),
    }
}

#[test]
fn other_packets_and_parts_are_waited_through() {
    let mut session = awaiting_connack();
    let (action, report) = session.read(&PING_RESPONSE);
    assert!(matches!(action, Action::Read));
    assert!(matches!(report, Report::Got(mqtt_v5::types::Packet::PingResponse)));
    assert_eq!(session.stage(), Stage::AwaitingConnAck { tries: 1 });
    // A packet longer than the buffer is only a part of one.
    let (action, report) = session.read(&[0x20, 0xff, 0x7f]);
    assert!(matches!(action, Action::Read));
    assert!(matches!(report, Report::Nothing));
    assert_eq!(session.stage(), Stage::AwaitingConnAck { tries: 2 });
}

#[test]
fn an_empty_read_sees_the_old_buffer() {
    let mut session = awaiting_connack();
    session.read(&PING_RESPONSE);
    let (_, report) = session.read(&[]);
    assert!(matches!(report, Report::Got(mqtt_v5::types::Packet::PingResponse)));
    assert_eq!(session.incoming()[0..2], PING_RESPONSE);
    // A later read replaces the front only.
    session.read(&[0xc0]);
    assert_eq!(session.incoming()[0..3], [0xc0, 0, 0]);
}

#[test]
fn waiting_for_connack_ends_after_the_last_attempt() {
    let mut session = awaiting_connack();
    for tries in 1..ATTEMPTS {
        assert!(matches!(session.read(&PING_RESPONSE).0, Action::Read));
        assert_eq!(session.stage(), Stage::AwaitingConnAck { tries });
    }
    let (action, report) = session.read(&PING_RESPONSE);
    assert!(matches!(action, Action::WriteAll(_)));
    assert!(matches!(report, Report::Got(_)));
    assert_eq!(session.stage(), Stage::SendingSubscribe);
}

#[test]
fn waiting_for_suback_ends_after_the_last_attempt() {
    let mut session = awaiting_suback();
    for _ in 1..ATTEMPTS {
        assert!(matches!(session.read(&filled(&CONNACK)).1, Report::Got(_)));
    }
    assert_eq!(session.stage(), Stage::AwaitingSubAck { tries: 99 });
    assert!(matches!(session.read(&filled(&CONNACK)).0, Action::ReadExact));
    assert_eq!(session.stage(), Stage::Listening);
}

#[test]
fn a_published_color_reaches_the_strip() {
    let mut session = listening();
    let bytes = filled(&publish_bytes(b"{\"Color\":[1,2,3]}\0\0rest"));
    let (action, report) = session.read(&bytes);
    assert!(matches!(action, Action::ResetWatchdog));
    assert!(matches!(report, Report::Nothing));
    let (action, report) = session.done();
    match action {
        Action::Parse(document) => assert_eq!(document, b"{\"Color\":[1,2,3]}"),
        other => panic!("{:?}", other),
    }
    assert!(matches!(report, Report::Publish(mqtt_v5::types::Packet::Publish(_))));
    let action = session.parsed(Some(LEDMessage::Color((1, 2, 3))));
    assert!(matches!(action, Action::Send(LEDMessage::Color((1, 2, 3)))));
    assert!(matches!(session.done().0, Action::ReadExact));
    assert_eq!(session.stage(), Stage::Listening);
}

#[test]
fn what_is_no_message_is_passed_over() {
    let mut session = listening();
    session.read(&filled(&publish_bytes(b"nonsense")));
    session.done();
    assert!(matches!(session.parsed(None), Action::ReadExact));
    assert_eq!(session.stage(), Stage::Listening);
    // Packets other than a publish are not even parsed.
    session.read(&filled(&SUBACK));
    let (action, report) = session.done();
    assert!(matches!(action, Action::ReadExact));
    assert!(matches!(report, Report::Nothing));
}

#[test]
fn an_undecodable_buffer_ends_the_session() {
    let mut session = awaiting_connack();
    let (action, report) = session.read(&[0x00]);
    assert!(matches!(
        action,
        Action::Fail(mqtt_v5::types::DecodeError::InvalidPacketType)
    ));
    assert!(matches!(report, Report::Nothing));
    assert_eq!(session.stage(), Stage::Failed);
}

#[test]
fn an_overlong_number_is_decoded_elsewhere() {
    let mut session = awaiting_connack();
    let chunk = [0x20, 0x80, 0x80, 0x80, 0x80, 0x7f];
    match session.read(&chunk).0 {
        Action::Decode(bytes) => assert_eq!(bytes, filled(&chunk)),
        other => panic!("{:?}", other),
    }
    assert_eq!(session.stage(), Stage::DecodingConnAck { tries: 0 });
    let (action, _) = session.decoded(Ok(None));
    assert!(matches!(action, Action::Read));
    session.read(&chunk);
    let error = mqtt_v5::types::DecodeError::InvalidRemainingLength;
    assert!(matches!(
        session.decoded(Err(error)).0,
        Action::Fail(mqtt_v5::types::DecodeError::InvalidRemainingLength)
    ));
}

#[test]
fn decoding_gives_type_and_payload() {
    match mqtt::decode(&publish_bytes(b"xyz")) {
        Some(Ok(Some(received))) => {
            assert_eq!(received.kind, mqtt::PUBLISH);
            assert_eq!(received.payload, Some(b"xyz".to_vec()));
        }
        other => panic!("{:?}", other),
    }
    match mqtt::decode(&SUBACK) {
        Some(Ok(Some(received))) => {
            assert_eq!(received.kind, mqtt::SUBSCRIBE_ACK);
            assert_eq!(received.payload, None);
        }
        other => panic!("{:?}", other),
    }
    assert!(matches!(mqtt::decode(&[]), Some(Ok(None))));
    assert!(mqtt::decode(&[0x30, 0x80, 0x80, 0x80, 0x80, 0x10]).is_none());
    assert!(mqtt::find_overlong(&[0xff, 0xff, 0xff, 0xff, 0xff]));
    assert!(!mqtt::find_overlong(&[0xff, 0xff, 0xff, 0xff, 0x0f]));
    assert!(!mqtt::find_overlong(&[0xff, 0xff, 0xff, 0x7f, 0xff]));
    // Four bytes of continuation and a small fifth are refused, not added up.
    assert!(matches!(
        mqtt::decode(&[0x30, 0x80, 0x80, 0x80, 0x80, 0x01]),
        Some(Err(mqtt_v5::types::DecodeError::InvalidRemainingLength))
    ));
}

#[test]
fn encoding_appends() {
    let mut bytes = vec![7, 7];
    mqtt::encode(
        mqtt::Request::Subscribe(mqtt::SubscribePacket {
            protocol_version: mqtt::VERSION_5,
            packet_id: 1,
            filter: "esp32-c3".to_string(),
            maximum_qos: mqtt::QoS::AtMostOnce,
            no_local: false,
            retain_as_published: false,
            retain_handling: mqtt::RetainHandling::SendAtSubscribeTime,
        }),
        &mut bytes,
    );
    let mut expected = vec![7, 7];
    expected.extend(subscribe_bytes());
    assert_eq!(bytes, expected);
}

#[test]
fn every_field_reaches_the_wire() {
    let mut bytes = vec![];
    mqtt::encode(
        mqtt::Request::Subscribe(mqtt::SubscribePacket {
            protocol_version: 4,
            packet_id: 258,
            filter: "a".to_string(),
            maximum_qos: mqtt::QoS::ExactlyOnce,
            no_local: true,
            retain_as_published: true,
            retain_handling: mqtt::RetainHandling::SendAtSubscribeTimeIfNonexistent,
        }),
        &mut bytes,
    );
    // The properties are missing from the bytes of version 3.1.1.
    assert_eq!(bytes[2..], [1, 2, 0, 1, b'a', 0x1e]);

    let mut bytes = vec![];
    mqtt::encode(
        mqtt::Request::Connect(mqtt::ConnectPacket {
            protocol_name: "MQTT".to_string(),
            protocol_version: mqtt::VERSION_5,
            clean_start: false,
            keep_alive: 9,
            client_id: "c".to_string(),
            user_name: Some("u".to_string()),
            password: Some("p".to_string()),
            will: mqtt::FinalWill {
                topic: "t".to_string(),
                payload: vec![7],
                qos: mqtt::QoS::AtLeastOnce,
                should_retain: false,
            },
        }),
        &mut bytes,
    );
    let mut expected = vec![0x10, 30, 0, 4];
    expected.extend_from_slice(b"MQTT");
    expected.extend_from_slice(&[5, 0xcc, 0, 9, 0, 0, 1, b'c']);
    expected.extend_from_slice(&[0, 0, 1, b't', 0, 1, 7, 0, 1, b'u', 0, 1, b'p']);
    assert_eq!(bytes.len(), expected.len());
    assert_eq!(bytes[2..], expected[2..]);
    assert_eq!(mqtt::RetainHandling::DoNotSend.number(), 2);
}

#[test]
fn documents_end_at_the_first_zero() {
    assert_eq!(cut(&vec![1, 2, 0, 3, 0]), vec![1, 2]);
    assert_eq!(cut(&vec![1, 2]), vec![1, 2]);
    assert_eq!(cut(&vec![0, 1]), Vec::<u8>::new());
    assert_eq!(cut(&vec![]), Vec::<u8>::new());
}

#[test]
fn a_run_sends_the_greeting_and_then_each_message_once() {
    let parse = |document: &[u8]| match document {
        b"\"Off\"" => Some(LEDMessage::Off),
        b"{\"Color\":[4,5,6]}" => Some(LEDMessage::Color((4, 5, 6))),
        _ => None,
    };
    let mut reads = vec![
        CONNACK.to_vec(),
        filled(&SUBACK),
        filled(&publish_bytes(b"{\"Color\":[4,5,6]}")),
        filled(&publish_bytes(b"nonsense")),
        filled(&PING_RESPONSE),
        filled(&publish_bytes(b"\"Off\"\0{\"Color\":[1,1,1]}")),
    ]
    .into_iter();
    let (mut session, mut action) = subscribe_to_channel();
    let mut sent = vec![];
    let mut connects = 0;
    loop {
        action = match action {
            Action::Send(message) => {
                sent.push(message);
                session.done().0
            }
            Action::Connect => {
                connects += 1;
                session.done().0
            }
            Action::Read | Action::ReadExact => match reads.next() {
                Some(chunk) => session.read(&chunk).0,
                None => break,
            },
            Action::Parse(document) => session.parsed(parse(&document)),
            _ => session.done().0,
        };
    }
    assert_eq!(
        sent,
        [LEDMessage::Color((255, 255, 255)), LEDMessage::Color((4, 5, 6)), LEDMessage::Off]
    );
    assert_eq!(connects, 1);
    assert_eq!(session.stage(), Stage::Listening);
}
