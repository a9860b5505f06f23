//! The lines that the self-tests print.
use vstd::prelude::*;
use vstd::string::StringExecFns;

use crate::text;

verus! {

/// What the thread-local variable holds in a new thread.
pub const TLS_INITIAL: u32 = 13;

/// What the main thread sets it to.
pub const TLS_MAIN: u32 = 42;

/// How many threads are started; each sets its variable to its number.
pub const THREADS: u32 = 5;

/// When the main thread looks at its variable.
#[derive(Debug, Clone, Copy, PartialEq, Eq)]
pub enum TlsMoment {
    BeforeChange,
    AfterChange,
    AfterThreads,
}

/// How the line on the main thread's variable begins.
pub open spec fn moment_text(moment: TlsMoment) -> Seq<char> {
    match moment {
        TlsMoment::BeforeChange => "Main TLS before change: "@,
        TlsMoment::AfterChange => "Main TLS after change: "@,
        TlsMoment::AfterThreads => "Main TLS after threads: "@,
    }
}

/// The line on the main thread's variable.
pub fn main_tls_line(moment: TlsMoment, value: u32) -> (line: String)
    ensures
        line@ == moment_text(moment) + text::decimal_text(value as nat),
{
    let start = match moment {
        TlsMoment::BeforeChange => "Main TLS before change: ",
        TlsMoment::AfterChange => "Main TLS after change: ",
        TlsMoment::AfterThreads => "Main TLS after threads: ",
    };
    text::joined(start, text::decimal(value as u64).as_str())
}

/// The line on a started thread's variable.
pub fn inner_tls_line(value: u32) -> (line: String)
    ensures
        line@ == "Inner TLS: "@ + text::decimal_text(value as nat),
        line@ == inner_text(value as nat),
{
    text::joined("Inner TLS: ", text::decimal(value as u64).as_str())
}

/// The line in which a started thread shows itself as `thread`.
pub fn thread_line(number: u32, thread: &str) -> (line: String)
    ensures
        line@ == "This is thread number "@ + text::decimal_text(number as nat) + ", "@ + thread@,
        line@ == thread_text(number as nat, thread@),
{
    let mut line = text::joined("This is thread number ", text::decimal(number as u64).as_str());
    line.append(", ");
    line.append(thread);
    line
}

/// The line on what a compare-and-swap and a swap found.
pub fn atomics_line(first: usize, second: usize) -> (line: String)
    ensures
        line@ == "Result: "@ + text::decimal_text(first as nat) + ", "@ + text::decimal_text(
            second as nat,
        ),
        line@ == atomics_text(first as nat, second as nat),
{
    let mut line = text::joined("Result: ", text::decimal(first as u64).as_str());
    line.append(", ");
    line.append(text::decimal(second as u64).as_str());
    line
}

/// The line on the main thread's variable tells the three moments apart.
pub proof fn moments_are_named(moment: TlsMoment)
    ensures
        moment is BeforeChange ==> moment_text(moment) == "Main TLS before change: "@,
        moment is AfterChange ==> moment_text(moment) == "Main TLS after change: "@,
        moment is AfterThreads ==> moment_text(moment) == "Main TLS after threads: "@,
        TLS_INITIAL == 13 && TLS_MAIN == 42 && THREADS == 5,
{
}

/// The line on a started thread's variable.
pub open spec fn inner_text(value: nat) -> Seq<char> {
    "Inner TLS: "@ + text::decimal_text(value)
}

/// The line in which a started thread shows itself.
pub open spec fn thread_text(number: nat, thread: Seq<char>) -> Seq<char> {
    "This is thread number "@ + text::decimal_text(number) + ", "@ + thread
}

/// The line on what a compare-and-swap and a swap found.
pub open spec fn atomics_text(first: nat, second: nat) -> Seq<char> {
    "Result: "@ + text::decimal_text(first) + ", "@ + text::decimal_text(second)
}

/// Every line holds its values whole, in decimal, behind its own beginning.
pub proof fn lines_keep_their_values(first: nat, second: nat, thread: Seq<char>)
    ensures
        ({
            let start = "Inner TLS: "@.len() as int;
            &&& inner_text(first).take(start) == "Inner TLS: "@
            &&& text::number_of(inner_text(first).skip(start)) == first
            &&& inner_text(first).skip(start) == text::decimal_text(first)
        }),
        ({
            let line = thread_text(first, thread);
            let start = "This is thread number "@.len() as int;
            let end = (line.len() - thread.len()) as int;
            let number = end - ", "@.len();
            &&& line.take(start) == "This is thread number "@
            &&& line.subrange(start, number) == text::decimal_text(first)
            &&& line.subrange(number, end) == ", "@
            &&& line.skip(end) == thread
        }),
        ({
            let line = atomics_text(first, second);
            let start = "Result: "@.len() as int;
            let middle = start + text::decimal_text(first).len();
            let end = middle + ", "@.len();
            &&& line.take(start) == "Result: "@
            &&& line.subrange(start, middle) == text::decimal_text(first)
            &&& line.subrange(middle, end) == ", "@
            &&& line.skip(end) == text::decimal_text(second)
        }),
{
    text::decimal_reads_back(first);
    assert(inner_text(first).skip("Inner TLS: "@.len() as int) =~= text::decimal_text(first));
}

} // verus!
