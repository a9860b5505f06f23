//! The end of the program: waiting for the word to stop, and the countdown.
use vstd::prelude::*;

verus! {

/// How many seconds the countdown lasts.
pub const COUNTDOWN: u32 = 3;

/// What the main task does next.
#[derive(Debug, Clone, Copy, PartialEq, Eq)]
pub enum Watch {
    /// Shut down; the word to stop came with this number.
    Stop(u32),
    /// Wait this many seconds for the word to stop, then read the sensor.
    Wait { secs: u64 },
}

/// What the main task does, given what it was told so far.
pub open spec fn next_watch(told: Option<u32>) -> Watch {
    match told {
        Some(cycles) => Watch::Stop(cycles),
        None => Watch::Wait { secs: 1 },
    }
}

/// What the main task does, given what it was told so far.
pub fn watch(told: Option<u32>) -> (next: Watch)
    ensures
        next == match told {
            Some(cycles) => Watch::Stop(cycles),
            None => Watch::Wait { secs: 1 },
        },
        next == next_watch(told),
{
    match told {
        Some(cycles) => Watch::Stop(cycles),
        None => Watch::Wait { secs: 1 },
    }
}

/// The seconds that are announced before the shutdown.
pub open spec fn announced() -> Seq<u32> {
    Seq::new(COUNTDOWN as nat, |i: int| (COUNTDOWN - i) as u32)
}

/// The seconds that are announced, one second apart, before the shutdown.
pub fn countdown() -> (seconds: Vec<u32>)
    ensures
        seconds@ == Seq::new(COUNTDOWN as nat, |i: int| (COUNTDOWN - i) as u32),
        seconds@ == announced(),
{
    let mut seconds: Vec<u32> = Vec::new();
    let mut s: u32 = 0;
    while s < COUNTDOWN
        invariant
            s <= COUNTDOWN,
            seconds@ =~= Seq::new(s as nat, |i: int| (COUNTDOWN - i) as u32),
        decreases COUNTDOWN - s,
    {
        seconds.push(COUNTDOWN - s);
        s += 1;
    }
    seconds
}

/// The main task stops exactly when it was told to, with the number that it was told,
/// and waits a second at a time until then.
pub proof fn the_word_stops_it(cycles: u32)
    ensures
        next_watch(Some(cycles)) == Watch::Stop(cycles),
        next_watch(None) == (Watch::Wait { secs: 1 }),
{
}

/// The countdown goes down from three to one by one.
pub proof fn the_countdown_goes_down()
    ensures
        announced().len() == 3,
        announced()[0] == 3,
        announced().last() == 1,
        forall|i: int| 0 < i < announced().len() ==> announced()[i - 1] == #[trigger] announced()[i] + 1,
{
}

} // verus!
