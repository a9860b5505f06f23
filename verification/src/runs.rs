//! What holds of whole runs of the MQTT session, from one event to the next.
use vstd::prelude::*;

use crate::led::LEDMessage;
use crate::mqtt;
use crate::mqtt::OutcomeView;
use crate::mqtt_client;
use crate::mqtt_client::{ActionView, SessionView, Stage, READ_SIZE};

verus! {

/// What a session is told.
pub enum Event {
    /// The action that it waited for is done.
    Done,
    /// A read brought these bytes.
    Read(Seq<u8>),
    /// The buffer that it handed out was decoded.
    Decoded(OutcomeView),
    /// The document was parsed, as a message or as none.
    Parsed(Option<LEDMessage>),
}

/// Whether a session waits for an event.
pub open spec fn awaits(session: SessionView, event: Event) -> bool {
    match event {
        Event::Done => mqtt_client::awaits_done(session.stage),
        Event::Read(chunk) => mqtt_client::awaits_read(session.stage, chunk.len()),
        Event::Decoded(_) => mqtt_client::awaits_outcome(session.stage),
        Event::Parsed(_) => session.stage is Parsing,
    }
}

/// The session after an event.
pub open spec fn after(session: SessionView, event: Event) -> SessionView {
    match event {
        Event::Done => mqtt_client::settled(mqtt_client::after_done(session)),
        Event::Read(chunk) => mqtt_client::settled(mqtt_client::after_read(session, chunk)),
        Event::Decoded(outcome) => mqtt_client::after_outcome(session, outcome),
        Event::Parsed(message) => mqtt_client::after_parse(session, message),
    }
}

/// Whether each of some events comes when the session waits for it.
pub open spec fn orderly(session: SessionView, events: Seq<Event>) -> bool
    decreases events.len(),
{
    events.len() > 0 ==> awaits(session, events[0]) && orderly(
        after(session, events[0]),
        events.drop_first(),
    )
}

/// The session after some events.
pub open spec fn reached(session: SessionView, events: Seq<Event>) -> SessionView
    decreases events.len(),
{
    if events.len() == 0 {
        session
    } else {
        reached(after(session, events[0]), events.drop_first())
    }
}

/// What a session waits to hand to the LED task.
pub open spec fn waiting(session: SessionView) -> Seq<LEDMessage> {
    match mqtt_client::due(session) {
        ActionView::Send(message) => seq![message],
        _ => Seq::empty(),
    }
}

/// What is handed to the LED task in the course of some events, in that order.
pub open spec fn sent(session: SessionView, events: Seq<Event>) -> Seq<LEDMessage>
    decreases events.len(),
{
    if events.len() == 0 {
        Seq::empty()
    } else {
        let now = if events[0] is Done {
            waiting(session)
        } else {
            Seq::empty()
        };
        now + sent(after(session, events[0]), events.drop_first())
    }
}

/// How often the socket is connected in the course of some events.
pub open spec fn dialed(session: SessionView, events: Seq<Event>) -> nat
    decreases events.len(),
{
    if events.len() == 0 {
        0
    } else {
        let now: nat = if events[0] is Done && mqtt_client::due(session) is Connect {
            1
        } else {
            0
        };
        now + dialed(after(session, events[0]), events.drop_first())
    }
}

/// The messages that documents were parsed as, in the order of the events.
pub open spec fn messages(events: Seq<Event>) -> Seq<LEDMessage>
    decreases events.len(),
{
    if events.len() == 0 {
        Seq::empty()
    } else {
        let now = match events[0] {
            Event::Parsed(Some(message)) => seq![message],
            _ => Seq::empty(),
        };
        now + messages(events.drop_first())
    }
}

/// Every event keeps what a session keeps.
pub proof fn events_keep_the_session(session: SessionView, event: Event)
    requires
        mqtt_client::wf(session),
        awaits(session, event),
    ensures
        mqtt_client::wf(after(session, event)),
{
    let told = match event {
        Event::Done => mqtt_client::after_done(session),
        Event::Read(chunk) => mqtt_client::after_read(session, chunk),
        _ => session,
    };
    let outcome = match event {
        Event::Decoded(outcome) => outcome,
        _ => mqtt::decoded(told.incoming),
    };
    if let Ok(Some((_, Some(payload)))) = outcome {
        mqtt_client::documents_end_at_zero(payload);
    }
}

/// Every run keeps what a session keeps.
pub proof fn runs_keep_the_session(session: SessionView, events: Seq<Event>)
    requires
        mqtt_client::wf(session),
        orderly(session, events),
    ensures
        mqtt_client::wf(reached(session, events)),
    decreases events.len(),
{
    if events.len() > 0 {
        events_keep_the_session(session, events[0]);
        runs_keep_the_session(after(session, events[0]), events.drop_first());
    }
}

/// In every run the LED task is handed, in order and each once, what waited for it
/// at first and then the messages that documents were parsed as. Only the last of
/// them may still wait.
pub proof fn runs_send_what_was_parsed(session: SessionView, events: Seq<Event>)
    requires
        orderly(session, events),
    ensures
        sent(session, events) + waiting(reached(session, events)) == waiting(session) + messages(
            events,
        ),
    decreases events.len(),
{
    if events.len() == 0 {
        assert(sent(session, events) + waiting(session) =~= waiting(session) + messages(events));
    } else {
        let event = events[0];
        let next = after(session, event);
        let rest = events.drop_first();
        runs_send_what_was_parsed(next, rest);
        let now = if event is Done {
            waiting(session)
        } else {
            Seq::empty()
        };
        let parsed = match event {
            Event::Parsed(Some(message)) => seq![message],
            _ => Seq::empty(),
        };
        assert(now + waiting(next) =~= waiting(session) + parsed);
        assert(sent(session, events) + waiting(reached(session, events)) =~= now + (sent(next, rest)
            + waiting(reached(next, rest))));
        assert(now + (waiting(next) + messages(rest)) =~= (now + waiting(next)) + messages(rest));
        assert((waiting(session) + parsed) + messages(rest) =~= waiting(session) + messages(
            events,
        ));
    }
}

/// Whether the socket is still to be connected.
pub open spec fn to_dial(stage: Stage) -> bool {
    stage is Greeting || stage is Dialing
}

/// The socket is connected at most once in every run, and no event leads back to
/// where it is still to be connected.
pub proof fn runs_connect_once(session: SessionView, events: Seq<Event>)
    requires
        orderly(session, events),
    ensures
        dialed(session, events) <= 1,
        !to_dial(session.stage) ==> dialed(session, events) == 0,
        !to_dial(session.stage) ==> !to_dial(reached(session, events).stage),
        events.len() > 0 ==> !(reached(session, events).stage is Greeting),
    decreases events.len(),
{
    if events.len() > 0 {
        runs_connect_once(after(session, events[0]), events.drop_first());
    }
}

/// A run can be cut anywhere: its second part goes on where the first one ends.
pub proof fn runs_can_be_cut(session: SessionView, first: Seq<Event>, second: Seq<Event>)
    ensures
        orderly(session, first + second) <==> orderly(session, first) && orderly(
            reached(session, first),
            second,
        ),
        reached(session, first + second) == reached(reached(session, first), second),
        sent(session, first + second) == sent(session, first) + sent(
            reached(session, first),
            second,
        ),
    decreases first.len(),
{
    if first.len() == 0 {
        assert(first + second =~= second);
        assert(sent(session, first) + sent(session, second) =~= sent(session, second));
    } else {
        let event = first[0];
        let rest = first.drop_first();
        assert((first + second)[0] == event);
        assert((first + second).drop_first() =~= rest + second);
        runs_can_be_cut(after(session, event), rest, second);
        let now = if event is Done {
            waiting(session)
        } else {
            Seq::empty()
        };
        let next = after(session, event);
        assert(now + (sent(next, rest) + sent(reached(next, rest), second)) =~= (now + sent(
            next,
            rest,
        )) + sent(reached(next, rest), second));
    }
}

/// What a read brings to a session that listens.
pub struct Block {
    /// The bytes, as many as the read buffer holds.
    pub chunk: Seq<u8>,
    /// What the decoder makes of them where they are handed out for decoding.
    pub elsewhere: OutcomeView,
}

/// What the decoder makes of a block.
pub open spec fn outcome_of(block: Block) -> OutcomeView {
    if mqtt::has_overlong(block.chunk) {
        block.elsewhere
    } else {
        mqtt::decoded(block.chunk)
    }
}

/// The message of a block, under a way to parse documents: none where the block is
/// no publish, or where its document is no message.
pub open spec fn message_of(
    block: Block,
    parse: spec_fn(Seq<u8>) -> Option<LEDMessage>,
) -> Option<LEDMessage> {
    match outcome_of(block) {
        Ok(Some((_, Some(payload)))) => parse(mqtt_client::until_nul(payload)),
        _ => None,
    }
}

/// What a session that listens is told for a block.
pub open spec fn block_events(
    block: Block,
    parse: spec_fn(Seq<u8>) -> Option<LEDMessage>,
) -> Seq<Event> {
    let read = seq![Event::Read(block.chunk), Event::Done];
    let decoded = if mqtt::has_overlong(block.chunk) {
        read.push(Event::Decoded(block.elsewhere))
    } else {
        read
    };
    match outcome_of(block) {
        Ok(Some((_, Some(payload)))) => match parse(mqtt_client::until_nul(payload)) {
            Some(message) => decoded.push(Event::Parsed(Some(message))).push(Event::Done),
            None => decoded.push(Event::Parsed(None)),
        },
        _ => decoded,
    }
}

/// What a session is told for some blocks, up to the first that cannot be decoded.
pub open spec fn events_of(
    blocks: Seq<Block>,
    parse: spec_fn(Seq<u8>) -> Option<LEDMessage>,
) -> Seq<Event>
    decreases blocks.len(),
{
    if blocks.len() == 0 {
        Seq::empty()
    } else if outcome_of(blocks[0]) is Err {
        block_events(blocks[0], parse)
    } else {
        block_events(blocks[0], parse) + events_of(blocks.drop_first(), parse)
    }
}

/// The messages of some blocks, in their order, up to the first that cannot be
/// decoded.
pub open spec fn messages_of(
    blocks: Seq<Block>,
    parse: spec_fn(Seq<u8>) -> Option<LEDMessage>,
) -> Seq<LEDMessage>
    decreases blocks.len(),
{
    if blocks.len() == 0 || outcome_of(blocks[0]) is Err {
        Seq::empty()
    } else {
        let rest = messages_of(blocks.drop_first(), parse);
        match message_of(blocks[0], parse) {
            Some(message) => seq![message] + rest,
            None => rest,
        }
    }
}

/// Whether every one of some blocks can be decoded.
pub open spec fn all_decode(blocks: Seq<Block>) -> bool {
    forall|i: int| 0 <= i < blocks.len() ==> outcome_of(#[trigger] blocks[i]) is Ok
}

/// A session that listens hands a block's message, or nothing, to the LED task, and
/// listens again; a block that cannot be decoded ends it.
pub proof fn a_block_is_forwarded(
    session: SessionView,
    block: Block,
    parse: spec_fn(Seq<u8>) -> Option<LEDMessage>,
)
    requires
        session.stage == Stage::Listening,
        session.incoming.len() == READ_SIZE,
        block.chunk.len() == READ_SIZE,
    ensures
        orderly(session, block_events(block, parse)),
        sent(session, block_events(block, parse)) == match message_of(block, parse) {
            Some(message) => seq![message],
            None => Seq::empty(),
        },
        reached(session, block_events(block, parse)).stage == if outcome_of(block) is Ok {
            Stage::Listening
        } else {
            Stage::Failed
        },
        reached(session, block_events(block, parse)).incoming == block.chunk,
{
    let events = block_events(block, parse);
    mqtt_client::reads_leave_the_rest(session.incoming, block.chunk);
    reveal_with_fuel(orderly, 6);
    reveal_with_fuel(reached, 6);
    reveal_with_fuel(sent, 6);
    let read = after(session, events[0]);
    let reset = after(read, events[1]);
    let rest = events.drop_first().drop_first();
    assert(read.incoming == block.chunk);
    assert(read.stage == Stage::Resetting);
    if mqtt::has_overlong(block.chunk) {
        assert(reset.stage == Stage::DecodingMessage);
        assert(rest[0] == Event::Decoded(block.elsewhere));
    }
}

/// A session that listens hands, for each block in turn, its message or nothing to
/// the LED task, until a block cannot be decoded.
pub proof fn blocks_are_forwarded(
    session: SessionView,
    blocks: Seq<Block>,
    parse: spec_fn(Seq<u8>) -> Option<LEDMessage>,
)
    requires
        session.stage == Stage::Listening,
        session.incoming.len() == READ_SIZE,
        forall|i: int| 0 <= i < blocks.len() ==> (#[trigger] blocks[i]).chunk.len() == READ_SIZE,
    ensures
        orderly(session, events_of(blocks, parse)),
        sent(session, events_of(blocks, parse)) == messages_of(blocks, parse),
        reached(session, events_of(blocks, parse)).stage == if all_decode(blocks) {
            Stage::Listening
        } else {
            Stage::Failed
        },
    decreases blocks.len(),
{
    if blocks.len() > 0 {
        let block = blocks[0];
        let rest = blocks.drop_first();
        let events = block_events(block, parse);
        assert forall|i: int| 0 <= i < rest.len() implies #[trigger] rest[i] == blocks[i + 1] by {}
        a_block_is_forwarded(session, block, parse);
        if outcome_of(block) is Ok {
            blocks_are_forwarded(reached(session, events), rest, parse);
            runs_can_be_cut(session, events, events_of(rest, parse));
            assert(all_decode(blocks) <==> all_decode(rest)) by {
                assert forall|i: int| all_decode(rest) && 0 <= i < blocks.len() implies outcome_of(
                    #[trigger] blocks[i],
                ) is Ok by {
                    if i > 0 {
                        assert(rest[i - 1] == blocks[i]);
                    }
                }
            }
            assert(Seq::<LEDMessage>::empty() + messages_of(rest, parse) =~= messages_of(
                rest,
                parse,
            ));
        }
    }
}

/// A whole run hands the greeting to the LED task, and then, for each block in turn,
/// its message or nothing. `opening` is what the session is told until it listens.
pub proof fn a_whole_run(
    session: SessionView,
    opening: Seq<Event>,
    blocks: Seq<Block>,
    parse: spec_fn(Seq<u8>) -> Option<LEDMessage>,
)
    requires
        mqtt_client::wf(session),
        session.stage == Stage::Greeting,
        orderly(session, opening),
        reached(session, opening).stage == Stage::Listening,
        forall|i: int| 0 <= i < opening.len() ==> !((#[trigger] opening[i]) is Parsed),
        forall|i: int| 0 <= i < blocks.len() ==> (#[trigger] blocks[i]).chunk.len() == READ_SIZE,
    ensures
        orderly(session, opening + events_of(blocks, parse)),
        sent(session, opening + events_of(blocks, parse)) == seq![mqtt_client::greeting()]
            + messages_of(blocks, parse),
{
    runs_keep_the_session(session, opening);
    runs_send_what_was_parsed(session, opening);
    lemma_nothing_parsed(opening);
    assert(sent(session, opening) =~= sent(session, opening) + waiting(reached(session, opening)));
    assert(sent(session, opening) =~= seq![mqtt_client::greeting()]);
    blocks_are_forwarded(reached(session, opening), blocks, parse);
    runs_can_be_cut(session, opening, events_of(blocks, parse));
}

/// Where nothing was parsed there are no messages.
proof fn lemma_nothing_parsed(events: Seq<Event>)
    requires
        forall|i: int| 0 <= i < events.len() ==> !((#[trigger] events[i]) is Parsed),
    ensures
        messages(events) == Seq::<LEDMessage>::empty(),
    decreases events.len(),
{
    if events.len() > 0 {
        let rest = events.drop_first();
        assert forall|i: int| 0 <= i < rest.len() implies !((#[trigger] rest[i]) is Parsed) by {
            assert(rest[i] == events[i + 1]);
        }
        lemma_nothing_parsed(rest);
    }
}

/// Where parsing undoes writing, and what is written holds no zero byte, a published
/// message comes out as it went in, whatever follows the zero byte behind it.
pub proof fn published_messages_come_back(
    session: SessionView,
    block: Block,
    message: LEDMessage,
    junk: Seq<u8>,
    write: spec_fn(LEDMessage) -> Seq<u8>,
    parse: spec_fn(Seq<u8>) -> Option<LEDMessage>,
)
    requires
        session.stage == Stage::Listening,
        session.incoming.len() == READ_SIZE,
        block.chunk.len() == READ_SIZE,
        parse(write(message)) == Some(message),
        !write(message).contains(0u8),
        outcome_of(block) == OutcomeView::Ok(
            Some((mqtt::PUBLISH, Some(write(message) + seq![0u8] + junk))),
        ),
    ensures
        sent(session, block_events(block, parse)) == seq![message],
{
    let payload = write(message) + seq![0u8] + junk;
    let cut = mqtt_client::until_nul(payload);
    let length = write(message).len() as int;
    mqtt_client::documents_end_at_zero(payload);
    assert(payload[length] == 0);
    if cut.len() > length {
        assert(cut[length] == 0);
    } else if cut.len() < length {
        assert(write(message)[cut.len() as int] == 0);
    }
    assert(cut =~= write(message));
    a_block_is_forwarded(session, block, parse);
}

/// What the decoder makes of the read buffer once a block was read into it.
pub open spec fn seen(session: SessionView, block: Block) -> OutcomeView {
    let buffer = block.chunk + session.incoming.skip(block.chunk.len() as int);
    if mqtt::has_overlong(buffer) {
        block.elsewhere
    } else {
        mqtt::decoded(buffer)
    }
}

/// The session after one read for an answer, and after the decoding that is asked for
/// where the buffer holds an overlong number.
pub open spec fn after_one_read(session: SessionView, block: Block) -> SessionView {
    let read = after(session, Event::Read(block.chunk));
    if awaits(read, Event::Decoded(block.elsewhere)) {
        after(read, Event::Decoded(block.elsewhere))
    } else {
        read
    }
}

/// The session after some reads, as long as it waits for an answer.
pub open spec fn after_reads(session: SessionView, blocks: Seq<Block>) -> SessionView
    decreases blocks.len(),
{
    if blocks.len() == 0 || !(session.stage is AwaitingConnAck || session.stage is AwaitingSubAck) {
        session
    } else {
        after_reads(after_one_read(session, blocks[0]), blocks.drop_first())
    }
}

/// Whether every read brings as many bytes as the session waits for, and leaves a
/// buffer that can be decoded, as long as the session waits for an answer.
pub open spec fn readable(session: SessionView, blocks: Seq<Block>) -> bool
    decreases blocks.len(),
{
    blocks.len() > 0 && (session.stage is AwaitingConnAck || session.stage is AwaitingSubAck) ==> {
        &&& awaits(session, Event::Read(blocks[0].chunk))
        &&& seen(session, blocks[0]) is Ok
        &&& readable(after_one_read(session, blocks[0]), blocks.drop_first())
    }
}

/// Whether no read leaves a packet of a type in the buffer, as long as the session
/// waits for an answer.
pub open spec fn without(session: SessionView, blocks: Seq<Block>, kind: u8) -> bool
    decreases blocks.len(),
{
    blocks.len() > 0 && (session.stage is AwaitingConnAck || session.stage is AwaitingSubAck) ==> {
        &&& seen(session, blocks[0]) matches Ok(Some((found, _))) ==> found != kind
        &&& without(after_one_read(session, blocks[0]), blocks.drop_first(), kind)
    }
}

/// A read ends the wait for an answer exactly where the decoder finds the answer in
/// the buffer that the read leaves, or the read is the hundredth; otherwise it is
/// counted. Whether the decoder is asked at once or elsewhere makes no difference.
pub proof fn a_read_ends_the_wait(session: SessionView, block: Block, tries: u32)
    requires
        session.stage == (Stage::AwaitingConnAck { tries }) || session.stage == (
        Stage::AwaitingSubAck { tries }),
        session.incoming.len() == 512,
        awaits(session, Event::Read(block.chunk)),
        seen(session, block) is Ok,
    ensures
        ({
            let next = after_one_read(session, block);
            let first = session.stage is AwaitingConnAck;
            let answer: u8 = if first {
                2
            } else {
                9
            };
            let answered = seen(session, block) matches Ok(Some((kind, _))) && kind == answer;
            &&& next.incoming == block.chunk + session.incoming.skip(block.chunk.len() as int)
            &&& next.incoming.len() == 512
            &&& first && (answered || tries >= 99) ==> next.stage is SendingSubscribe
            &&& !first && (answered || tries >= 99) ==> next.stage is Listening
            &&& first && !answered && tries < 99 ==> next.stage == (
            Stage::AwaitingConnAck { tries: (tries + 1) as u32 })
            &&& !first && !answered && tries < 99 ==> next.stage == (
            Stage::AwaitingSubAck { tries: (tries + 1) as u32 })
        }),
{
}

/// However the reads fall, a hundred of them end each wait.
pub proof fn a_hundred_reads_end_the_wait(session: SessionView, blocks: Seq<Block>, tries: u32)
    requires
        session.stage == (Stage::AwaitingConnAck { tries }) || session.stage == (
        Stage::AwaitingSubAck { tries }),
        session.incoming.len() == 512,
        tries < 100,
        readable(session, blocks),
        tries + blocks.len() >= 100,
    ensures
        session.stage is AwaitingConnAck ==> after_reads(session, blocks).stage is SendingSubscribe,
        session.stage is AwaitingSubAck ==> after_reads(session, blocks).stage is Listening,
    decreases blocks.len(),
{
    let next = after_one_read(session, blocks[0]);
    a_read_ends_the_wait(session, blocks[0], tries);
    if next.stage is AwaitingConnAck || next.stage is AwaitingSubAck {
        a_hundred_reads_end_the_wait(next, blocks.drop_first(), (tries + 1) as u32);
    }
}

/// As long as no read leaves the answer in the buffer, fewer than a hundred reads
/// leave the client waiting, and each is counted.
pub proof fn fewer_reads_leave_it_waiting(session: SessionView, blocks: Seq<Block>, tries: u32)
    requires
        session.stage == (Stage::AwaitingConnAck { tries }) || session.stage == (
        Stage::AwaitingSubAck { tries }),
        session.incoming.len() == 512,
        readable(session, blocks),
        session.stage is AwaitingConnAck ==> without(session, blocks, 2),
        session.stage is AwaitingSubAck ==> without(session, blocks, 9),
        tries + blocks.len() < 100,
    ensures
        session.stage is AwaitingConnAck ==> after_reads(session, blocks).stage == (
        Stage::AwaitingConnAck { tries: (tries + blocks.len()) as u32 }),
        session.stage is AwaitingSubAck ==> after_reads(session, blocks).stage == (
        Stage::AwaitingSubAck { tries: (tries + blocks.len()) as u32 }),
    decreases blocks.len(),
{
    if blocks.len() > 0 {
        let next = after_one_read(session, blocks[0]);
        a_read_ends_the_wait(session, blocks[0], tries);
        fewer_reads_leave_it_waiting(next, blocks.drop_first(), (tries + 1) as u32);
    }
}

} // verus!
