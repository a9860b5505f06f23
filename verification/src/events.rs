//! What goes through the event loop, and what the timer publishes.
use std::time::Duration;
use vstd::prelude::*;

use crate::mqtt::QoS;
use crate::text;

verus! {

/// The name under which messages are posted, ended by a zero as C wants it.
pub const SOURCE: &'static str = "DEMO-SERVICE\0";

/// The topic that the timer publishes to.
pub const TICK_TOPIC: &'static str = "rust-esp32-std-demo";

/// When the single timer goes off, in seconds.
pub const ONCE_SECS: u64 = 2;

/// How long the single timer is waited for, in seconds.
pub const ONCE_WAIT_SECS: u64 = 3;

/// How often the other timer goes off, in seconds.
pub const PERIOD_SECS: u64 = 5;

/// A message of the event loop: the time since start at which it was posted.
#[derive(Copy, Clone, Debug)]
pub struct EventLoopMessage(pub Duration);

impl EventLoopMessage {
    /// A message that was posted at that time.
    pub fn new(duration: Duration) -> (message: Self)
        ensures
            message.0 == duration,
    {
        Self(duration)
    }
}

/// What the timer hands to the MQTT client.
#[derive(Debug)]
pub struct Publication {
    pub topic: String,
    pub qos: QoS,
    pub retain: bool,
    pub payload: Vec<u8>,
}

/// What `Debug` shows of a `std::time::Duration` of so many seconds and nanoseconds.
pub uninterp spec fn duration_text(secs: u64, nanos: u32) -> Seq<char>;

/// The `Debug` text of a `std::time::Duration`, which depends on nothing but its
/// seconds and nanoseconds.
#[verifier::external_body]
fn show_duration(secs: u64, nanos: u32) -> (text: String)
    requires
        nanos < 1_000_000_000,
    ensures
        text@ == duration_text(secs, nanos),
{
    format!("{:?}", Duration::new(secs, nanos))
}

/// The payload for a time that is shown as `now`.
pub open spec fn payload_at(now: Seq<char>) -> Seq<u8> {
    vstd::utf8::encode_utf8("Now is "@ + now)
}

/// What the timer publishes at a time since start, given by whole seconds and the
/// nanoseconds on top.
pub fn tick(secs: u64, nanos: u32) -> (publication: Publication)
    requires
        nanos < 1_000_000_000,
    ensures
        publication.topic@ == TICK_TOPIC@,
        publication.qos == QoS::AtMostOnce,
        !publication.retain,
        publication.payload@ == vstd::utf8::encode_utf8("Now is "@ + duration_text(secs, nanos)),
        publication.payload@ == payload_at(duration_text(secs, nanos)),
{
    tick_at(show_duration(secs, nanos).as_str())
}

/// What the timer publishes at a time that is shown as `now`.
pub fn tick_at(now: &str) -> (publication: Publication)
    ensures
        publication.topic@ == TICK_TOPIC@,
        publication.qos == QoS::AtMostOnce,
        !publication.retain,
        publication.payload@ == vstd::utf8::encode_utf8("Now is "@ + now@),
        publication.payload@ == payload_at(now@),
{
    let line = text::joined("Now is ", now);
    Publication {
        topic: TICK_TOPIC.to_string(),
        qos: QoS::AtMostOnce,
        retain: false,
        payload: vstd::slice::slice_to_vec(line.as_str().as_bytes()),
    }
}

/// The payload reads back as text that holds the whole time behind a fixed beginning.
pub proof fn payloads_tell_the_time(now: Seq<char>)
    ensures
        vstd::utf8::valid_utf8(payload_at(now)),
        ({
            let read = vstd::utf8::decode_utf8(payload_at(now));
            &&& read.take("Now is "@.len() as int) == "Now is "@
            &&& read.skip("Now is "@.len() as int) == now
        }),
{
    vstd::utf8::encode_utf8_decode_utf8("Now is "@ + now);
    vstd::utf8::encode_utf8_valid_utf8("Now is "@ + now);
}

/// The single timer goes off before its wait is over, and the names and times are
/// those that the other side knows.
pub proof fn timers_and_names()
    ensures
        ONCE_SECS == 2 && ONCE_WAIT_SECS == 3 && PERIOD_SECS == 5,
        ONCE_SECS < ONCE_WAIT_SECS,
        TICK_TOPIC@ == "rust-esp32-std-demo"@,
        SOURCE@ == "DEMO-SERVICE\0"@,
{
}

} // verus!
