//! What each call on the MQTT session does, said of the session before and after it.
use vstd::prelude::*;

use crate::led::LEDMessage;
use crate::mqtt;
use crate::mqtt::{ConnectView, OutcomeView, RequestView, SubscribeView};
use crate::mqtt_client;
use crate::mqtt_client::{Action, ActionView, Report, SessionView, Stage};

verus! {

/// Each stage asks for one thing, whatever else the session holds.
pub proof fn each_stage_asks_for_one_thing(session: SessionView)
    ensures
        session.stage is Greeting ==> mqtt_client::due(session) == ActionView::Send(
            LEDMessage::Color((255u8, 255u8, 255u8)),
        ),
        session.stage is Dialing ==> mqtt_client::due(session) is Connect,
        session.stage is SendingConnect ==> mqtt_client::due(session) == ActionView::Write(
            session.outgoing,
        ),
        session.stage is FlushingConnect ==> mqtt_client::due(session) is Flush,
        session.stage is AwaitingConnAck ==> mqtt_client::due(session) is Read,
        session.stage is DecodingConnAck ==> mqtt_client::due(session) == ActionView::Decode(
            session.incoming,
        ),
        session.stage is SendingSubscribe ==> mqtt_client::due(session) == ActionView::WriteAll(
            session.outgoing,
        ),
        session.stage is FlushingSubscribe ==> mqtt_client::due(session) is Flush,
        session.stage is AwaitingSubAck ==> mqtt_client::due(session) is ReadExact,
        session.stage is DecodingSubAck ==> mqtt_client::due(session) == ActionView::Decode(
            session.incoming,
        ),
        session.stage is Listening ==> mqtt_client::due(session) is ReadExact,
        session.stage is Resetting ==> mqtt_client::due(session) is ResetWatchdog,
        session.stage is DecodingMessage ==> mqtt_client::due(session) == ActionView::Decode(
            session.incoming,
        ),
        session.stage is Parsing ==> mqtt_client::due(session) == ActionView::Parse(
            session.document,
        ),
        session.stage matches Stage::Forwarding { message } ==> mqtt_client::due(session)
            == ActionView::Send(message),
        session.stage is Failed ==> mqtt_client::due(session) is Fail,
{
}

/// Every stage takes what it waits for: every length of read that fits the buffer of
/// 512 bytes where one read is enough, and a full buffer elsewhere.
pub proof fn stages_take_what_they_wait_for(stage: Stage, count: nat)
    ensures
        mqtt_client::awaits_done(stage) <==> (stage is Greeting || stage is Dialing
            || stage is SendingConnect || stage is FlushingConnect || stage is SendingSubscribe
            || stage is FlushingSubscribe || stage is Resetting || stage is Forwarding),
        stage is AwaitingConnAck ==> (mqtt_client::awaits_read(stage, count) <==> count <= 512),
        stage is AwaitingSubAck || stage is Listening ==> (mqtt_client::awaits_read(stage, count)
            <==> count == 512),
        mqtt_client::awaits_read(stage, count) ==> stage is AwaitingConnAck
            || stage is AwaitingSubAck || stage is Listening,
        mqtt_client::awaits_outcome(stage) <==> (stage is DecodingConnAck
            || stage is DecodingSubAck || stage is DecodingMessage),
{
}

/// What a session keeps, in figures: a read buffer of 512 bytes, less than a hundred
/// reads without an answer, a document without a zero byte, and a write buffer with
/// the connect, and later with the subscribe behind it.
pub proof fn sessions_keep_their_bounds(session: SessionView)
    requires
        mqtt_client::wf(session),
    ensures
        session.incoming.len() == 512,
        session.stage matches Stage::AwaitingConnAck { tries } ==> tries < 100,
        session.stage matches Stage::AwaitingSubAck { tries } ==> tries < 100,
        forall|i: int| 0 <= i < session.document.len() ==> session.document[i] != 0,
        session.stage is SendingConnect || session.stage is AwaitingConnAck ==> session.outgoing
            == mqtt_client::first_write(),
        session.stage is SendingSubscribe ==> session.outgoing == mqtt_client::second_write(),
{
    assert forall|i: int| 0 <= i < session.document.len() implies session.document[i] != 0 by {
        assert(session.document.contains(session.document[i]));
    }
}

/// Nothing more is asked of a session at a stage than that.
pub proof fn bounds_make_a_session(session: SessionView)
    requires
        session.incoming.len() == 512,
        forall|i: int| 0 <= i < session.document.len() ==> session.document[i] != 0,
        session.stage is Greeting || session.stage is Dialing ==> session.outgoing.len() == 0,
        session.stage matches Stage::AwaitingConnAck { tries } ==> tries < 100,
        session.stage matches Stage::DecodingConnAck { tries } ==> tries < 100,
        session.stage matches Stage::AwaitingSubAck { tries } ==> tries < 100,
        session.stage matches Stage::DecodingSubAck { tries } ==> tries < 100,
        !(session.stage is Greeting || session.stage is Dialing) ==> session.outgoing
            == mqtt_client::write_buffer(session.stage),
    ensures
        mqtt_client::wf(session),
{
    assert(session.stage is Greeting || session.stage is Dialing ==> session.outgoing
        =~= Seq::<u8>::empty());
}

/// A session starts with the greeting, with nothing to write or to parse, and with 512
/// zero bytes to read into.
pub proof fn sessions_start_with_the_greeting()
    ensures
        mqtt_client::wf(mqtt_client::at_start()),
        mqtt_client::due(mqtt_client::at_start()) == ActionView::Send(
            LEDMessage::Color((255u8, 255u8, 255u8)),
        ),
        mqtt_client::at_start().stage is Greeting,
        mqtt_client::at_start().outgoing.len() == 0,
        mqtt_client::at_start().document.len() == 0,
        mqtt_client::at_start().incoming.len() == 512,
        forall|i: int| 0 <= i < 512 ==> mqtt_client::at_start().incoming[i] == 0,
{
}

/// The two requests, field by field: the device connects and subscribes under its own
/// name, in version 5, with a will that says that it is offline.
pub proof fn the_requests_are()
    ensures
        mqtt_client::first_write() == mqtt::encoded(
            RequestView::Connect(
                ConnectView {
                    protocol_name: "MQTT"@,
                    protocol_version: 5,
                    clean_start: true,
                    keep_alive: 200,
                    client_id: "esp32-c3"@,
                    user_name: None,
                    password: None,
                    will_topic: "esp32-c3"@,
                    will_payload: vstd::utf8::encode_utf8("offline"@),
                    will_qos: 0,
                    will_retain: false,
                },
            ),
        ),
        mqtt_client::second_write() == mqtt_client::first_write() + mqtt::encoded(
            RequestView::Subscribe(
                SubscribeView {
                    protocol_version: 5,
                    packet_id: 1,
                    filter: "esp32-c3"@,
                    maximum_qos: 0,
                    no_local: false,
                    retain_as_published: false,
                    retain_handling: 0,
                },
            ),
        ),
        mqtt_client::BROKER@ == "192.168.0.209:1883"@,
{
}

/// What `done` does before there is anything to decode: one stage follows another,
/// whatever the buffers hold. The connect is put into the write buffer once the
/// socket is there, and nothing else is touched.
pub proof fn done_leads_on(session: SessionView)
    requires
        mqtt_client::awaits_done(session.stage),
        !(session.stage is Resetting),
    ensures
        ({
            let next = mqtt_client::settled(mqtt_client::after_done(session));
            &&& session.stage is Greeting ==> next.stage is Dialing
            &&& session.stage is Dialing ==> next.stage is SendingConnect
            &&& session.stage is SendingConnect ==> next.stage is FlushingConnect
            &&& session.stage is FlushingConnect ==> next.stage == (
            Stage::AwaitingConnAck { tries: 0 })
            &&& session.stage is SendingSubscribe ==> next.stage is FlushingSubscribe
            &&& session.stage is FlushingSubscribe ==> next.stage == (
            Stage::AwaitingSubAck { tries: 0 })
            &&& session.stage is Forwarding ==> next.stage is Listening
            &&& session.stage is Dialing ==> next.outgoing == mqtt_client::first_write()
            &&& !(session.stage is Dialing) ==> next.outgoing == session.outgoing
            &&& next.incoming == session.incoming
            &&& next.document == session.document
        }),
        mqtt_client::told_settling(mqtt_client::after_done(session)) is Nothing,
{
}

/// What `read` does while the answer to the connect is due. What was read stands at
/// the front of the buffer, and the rest of the buffer is what it was. If the decoder
/// finds the answer there, the client goes on to subscribe at once, whatever the
/// answer carries; so it does after the hundredth read. An error ends the session,
/// and anything else is waited through.
pub proof fn reading_for_the_first_answer(session: SessionView, chunk: Seq<u8>, tries: u32)
    requires
        session.stage == (Stage::AwaitingConnAck { tries }),
        session.incoming.len() == 512,
        chunk.len() <= 512,
        !mqtt::has_overlong(chunk + session.incoming.skip(chunk.len() as int)),
    ensures
        ({
            let buffer = chunk + session.incoming.skip(chunk.len() as int);
            let outcome = mqtt::decoded(buffer);
            let read = mqtt_client::after_read(session, chunk);
            let next = mqtt_client::settled(read);
            let report = mqtt_client::told_settling(read);
            &&& next.incoming == buffer
            &&& next.document == session.document
            &&& outcome is Err ==> next.stage is Failed && report is Nothing
            &&& outcome matches Ok(Some((kind, _))) ==> {
                &&& kind == 2 ==> next.stage is SendingSubscribe && report is ConnAck
                &&& kind != 2 ==> report is Got
                &&& kind != 2 && tries < 99 ==> next.stage == (
                Stage::AwaitingConnAck { tries: (tries + 1) as u32 })
            }
            &&& outcome == OutcomeView::Ok(None) ==> report is Nothing
            &&& outcome == OutcomeView::Ok(None) && tries < 99 ==> next.stage == (
            Stage::AwaitingConnAck { tries: (tries + 1) as u32 })
            &&& outcome is Ok && tries >= 99 ==> next.stage is SendingSubscribe
            &&& next.stage is SendingSubscribe ==> next.outgoing == session.outgoing
                + mqtt::encoded(mqtt_client::subscribe_request())
            &&& !(next.stage is SendingSubscribe) ==> next.outgoing == session.outgoing
        }),
{
}

/// What `read` does while the answer to the subscribe is due: the buffer is what was
/// read. The answer, or the hundredth read, makes the client listen; an error ends
/// the session, and anything else is waited through.
pub proof fn reading_for_the_second_answer(session: SessionView, chunk: Seq<u8>, tries: u32)
    requires
        session.stage == (Stage::AwaitingSubAck { tries }),
        session.incoming.len() == 512,
        chunk.len() == 512,
        !mqtt::has_overlong(chunk),
    ensures
        ({
            let outcome = mqtt::decoded(chunk);
            let read = mqtt_client::after_read(session, chunk);
            let next = mqtt_client::settled(read);
            let report = mqtt_client::told_settling(read);
            &&& next.incoming == chunk
            &&& next.outgoing == session.outgoing
            &&& next.document == session.document
            &&& outcome is Err ==> next.stage is Failed && report is Nothing
            &&& outcome matches Ok(Some((kind, _))) ==> {
                &&& kind == 9 ==> next.stage is Listening && report is SubAck
                &&& kind != 9 ==> report is Got
                &&& kind != 9 && tries < 99 ==> next.stage == (
                Stage::AwaitingSubAck { tries: (tries + 1) as u32 })
            }
            &&& outcome == OutcomeView::Ok(None) ==> report is Nothing
            &&& outcome == OutcomeView::Ok(None) && tries < 99 ==> next.stage == (
            Stage::AwaitingSubAck { tries: (tries + 1) as u32 })
            &&& outcome is Ok && tries >= 99 ==> next.stage is Listening
        }),
{
    mqtt_client::reads_leave_the_rest(session.incoming, chunk);
}

/// What `read` does while the client listens: the buffer is what was read, and the
/// watchdog is reset before anything is decoded.
pub proof fn reading_for_a_message(session: SessionView, chunk: Seq<u8>)
    requires
        session.stage is Listening,
        session.incoming.len() == 512,
        chunk.len() == 512,
    ensures
        ({
            let read = mqtt_client::after_read(session, chunk);
            let next = mqtt_client::settled(read);
            &&& next.stage is Resetting
            &&& next.incoming == chunk
            &&& next.outgoing == session.outgoing
            &&& next.document == session.document
            &&& mqtt_client::told_settling(read) is Nothing
        }),
{
    mqtt_client::reads_leave_the_rest(session.incoming, chunk);
}

/// What `done` does once the watchdog is reset. A publish has its payload parsed, up
/// to the first zero byte and no further, whatever the payload is; an error ends the
/// session, and after anything else the client listens on.
pub proof fn decoding_a_message(session: SessionView)
    requires
        session.stage is Resetting,
        !mqtt::has_overlong(session.incoming),
    ensures
        ({
            let outcome = mqtt::decoded(session.incoming);
            let reset = mqtt_client::after_done(session);
            let next = mqtt_client::settled(reset);
            let report = mqtt_client::told_settling(reset);
            &&& next.incoming == session.incoming
            &&& next.outgoing == session.outgoing
            &&& outcome is Err ==> next.stage is Failed && report is Nothing
            &&& outcome == OutcomeView::Ok(None) ==> next.stage is Listening && report is Nothing
            &&& outcome matches Ok(Some((_, None))) ==> next.stage is Listening && report is Nothing
            &&& outcome matches Ok(Some((_, Some(payload)))) ==> {
                let end = next.document.len() as int;
                &&& next.stage is Parsing && report is Publish
                &&& end <= payload.len()
                &&& next.document == payload.take(end)
                &&& forall|i: int| 0 <= i < end ==> payload[i] != 0
                &&& end < payload.len() ==> payload[end] == 0
            }
            &&& !(next.stage is Parsing) ==> next.document == session.document
        }),
{
    let outcome = mqtt::decoded(session.incoming);
    if let Ok(Some((_, Some(payload)))) = outcome {
        lemma_documents_are_beginnings(payload);
    }
}

/// A document is the payload up to its first zero byte.
proof fn lemma_documents_are_beginnings(payload: Seq<u8>)
    ensures
        ({
            let end = mqtt_client::until_nul(payload).len() as int;
            &&& end <= payload.len()
            &&& mqtt_client::until_nul(payload) == payload.take(end)
            &&& forall|i: int| 0 <= i < end ==> payload[i] != 0
            &&& end < payload.len() ==> payload[end] == 0
        }),
{
    let document = mqtt_client::until_nul(payload);
    mqtt_client::documents_end_at_zero(payload);
    assert forall|i: int| 0 <= i < document.len() implies payload[i] != 0 by {
        assert(document.contains(document[i]));
    }
}

/// A buffer with an overlong number is left as it is, and its decoding asked for, at
/// each of the three stages that decode.
pub proof fn overlong_buffers_wait(session: SessionView)
    requires
        session.stage is DecodingConnAck || session.stage is DecodingSubAck
            || session.stage is DecodingMessage,
        mqtt::has_overlong(session.incoming),
    ensures
        mqtt_client::settled(session) == session,
        mqtt_client::told_settling(session) is Nothing,
        mqtt_client::due(session) == ActionView::Decode(session.incoming),
{
}

/// A buffer without an overlong number is decoded at once, at each of the three stages
/// that decode, and what follows is what `decoded` makes of the same outcome.
pub proof fn other_buffers_are_decoded(session: SessionView)
    requires
        session.stage is DecodingConnAck || session.stage is DecodingSubAck
            || session.stage is DecodingMessage,
        !mqtt::has_overlong(session.incoming),
    ensures
        mqtt_client::settled(session) == mqtt_client::after_outcome(
            session,
            mqtt::decoded(session.incoming),
        ),
        mqtt_client::told_settling(session) == mqtt_client::told(
            session.stage,
            mqtt::decoded(session.incoming),
        ),
{
}

/// What `decoded` does with an outcome while an answer is due: the answer or the
/// hundredth read ends the wait, an error the session, and anything else is counted.
pub proof fn outcomes_end_the_wait(session: SessionView, outcome: OutcomeView, tries: u32)
    requires
        session.stage == (Stage::DecodingConnAck { tries }) || session.stage == (
        Stage::DecodingSubAck { tries }),
    ensures
        ({
            let first = session.stage is DecodingConnAck;
            let next = mqtt_client::after_outcome(session, outcome);
            let report = mqtt_client::told(session.stage, outcome);
            let answered = outcome matches Ok(Some((kind, _))) && kind == if first {
                2u8
            } else {
                9u8
            };
            let packet = outcome matches Ok(Some(_));
            &&& next.incoming == session.incoming
            &&& next.document == session.document
            &&& outcome is Err ==> next.stage is Failed
            &&& outcome is Ok && (answered || tries >= 99) && first ==> next.stage
                is SendingSubscribe && next.outgoing == session.outgoing + mqtt::encoded(
                mqtt_client::subscribe_request(),
            )
            &&& outcome is Ok && (answered || tries >= 99) && !first ==> next.stage is Listening
            &&& outcome is Ok && !answered && tries < 99 && first ==> next.stage == (
            Stage::AwaitingConnAck { tries: (tries + 1) as u32 })
            &&& outcome is Ok && !answered && tries < 99 && !first ==> next.stage == (
            Stage::AwaitingSubAck { tries: (tries + 1) as u32 })
            &&& !(next.stage is SendingSubscribe) ==> next.outgoing == session.outgoing
            &&& answered && first <==> report is ConnAck
            &&& answered && !first <==> report is SubAck
            &&& packet && !answered <==> report is Got
            &&& !packet <==> report is Nothing
        }),
{
}

/// What `decoded` does with an outcome while the client listens: it parses the payload
/// of a publish up to the first zero byte, and passes every other packet over.
pub proof fn outcomes_bring_documents(session: SessionView, outcome: OutcomeView)
    requires
        session.stage is DecodingMessage,
    ensures
        ({
            let next = mqtt_client::after_outcome(session, outcome);
            let report = mqtt_client::told(session.stage, outcome);
            &&& next.incoming == session.incoming
            &&& next.outgoing == session.outgoing
            &&& outcome is Err ==> next.stage is Failed && report is Nothing
            &&& outcome == OutcomeView::Ok(None) ==> next.stage is Listening && report is Nothing
            &&& outcome matches Ok(Some((_, None))) ==> next.stage is Listening && report is Nothing
            &&& outcome matches Ok(Some((_, Some(payload)))) ==> {
                let end = next.document.len() as int;
                &&& next.stage is Parsing && report is Publish
                &&& end <= payload.len()
                &&& next.document == payload.take(end)
                &&& forall|i: int| 0 <= i < end ==> payload[i] != 0
                &&& end < payload.len() ==> payload[end] == 0
            }
            &&& !(next.stage is Parsing) ==> next.document == session.document
        }),
{
    if let Ok(Some((_, Some(payload)))) = outcome {
        lemma_documents_are_beginnings(payload);
    }
}

/// What `parsed` does: a message is forwarded, the very one that was parsed, and
/// without one the client listens on. Nothing else changes.
pub proof fn parsing_forwards_the_message(session: SessionView, message: LEDMessage)
    ensures
        mqtt_client::after_parse(session, Some(message)).stage == (Stage::Forwarding { message }),
        mqtt_client::after_parse(session, None).stage is Listening,
        forall|parsed: Option<LEDMessage>| #[trigger]
            mqtt_client::after_parse(session, parsed).incoming == session.incoming
                && mqtt_client::after_parse(session, parsed).outgoing == session.outgoing
                && mqtt_client::after_parse(session, parsed).document == session.document,
{
}

/// An action is seen with all that it carries.
pub proof fn actions_show_what_they_carry(action: Action)
    ensures
        action matches Action::Send(message) ==> action@ == ActionView::Send(message),
        action is Connect ==> action@ is Connect,
        action matches Action::Write(bytes) ==> action@ == ActionView::Write(bytes@),
        action matches Action::WriteAll(bytes) ==> action@ == ActionView::WriteAll(bytes@),
        action is Flush ==> action@ is Flush,
        action is Read ==> action@ is Read,
        action is ReadExact ==> action@ is ReadExact,
        action is ResetWatchdog ==> action@ is ResetWatchdog,
        action matches Action::Decode(bytes) ==> action@ == ActionView::Decode(bytes@),
        action matches Action::Parse(bytes) ==> action@ == ActionView::Parse(bytes@),
        action is Fail ==> action@ is Fail,
{
}

/// A report is seen by its kind, and every report but an empty one shows its packet.
pub proof fn reports_show_their_packet(report: Report)
    ensures
        report is Nothing <==> report@ is Nothing,
        report is ConnAck <==> report@ is ConnAck,
        report is SubAck <==> report@ is SubAck,
        report is Publish <==> report@ is Publish,
        report is Got <==> report@ is Got,
        report is Nothing <==> mqtt_client::shown(report) is None,
        report matches Report::ConnAck(packet) ==> mqtt_client::shown(report) == Some(packet),
        report matches Report::SubAck(packet) ==> mqtt_client::shown(report) == Some(packet),
        report matches Report::Publish(packet) ==> mqtt_client::shown(report) == Some(packet),
        report matches Report::Got(packet) ==> mqtt_client::shown(report) == Some(packet),
{
}

} // verus!
