//! The echo service: what goes back to a client for each read.
use vstd::prelude::*;

verus! {

/// Where the service listens.
pub const ADDRESS: &'static str = "0.0.0.0:8080";

/// How much is read at a time.
pub const BUFFER: usize = 20;

/// What to do after a read.
#[derive(Debug)]
pub enum Echo {
    /// The client is gone.
    Close,
    /// Write all of these bytes.
    Reply(Vec<u8>),
}

/// What goes back for a read: what was read, or nothing more where the read was
/// empty.
pub open spec fn answer(read: Seq<u8>) -> Option<Seq<u8>> {
    if read.len() == 0 {
        None
    } else {
        Some(read)
    }
}

/// The part of the buffer that a read filled.
pub open spec fn filled(buffer: Seq<u8>, count: nat) -> Seq<u8> {
    buffer.take(count as int)
}

/// What goes back for the first `count` bytes of the buffer, which a read filled.
pub fn test_tcp_bind_handle_client(buffer: &[u8; BUFFER], count: usize) -> (echo: Echo)
    requires
        count <= BUFFER,
    ensures
        match answer(buffer@.take(count as int)) {
            None => echo is Close,
            Some(bytes) => echo matches Echo::Reply(reply) && reply@ == bytes,
        },
        count == 0 <==> echo is Close,
        echo matches Echo::Reply(reply) ==> reply@ == filled(buffer@, count as nat),
{
    if count == 0 {
        return Echo::Close;
    }
    let mut reply: Vec<u8> = Vec::new();
    let mut i: usize = 0;
    while i < count
        invariant
            i <= count <= buffer@.len(),
            reply@ =~= buffer@.take(i as int),
        decreases count - i,
    {
        reply.push(buffer[i]);
        i += 1;
    }
    Echo::Reply(reply)
}

/// All that goes back to a client, given its reads.
pub open spec fn sent(reads: Seq<Seq<u8>>) -> Seq<u8>
    decreases reads.len(),
{
    if reads.len() == 0 {
        Seq::empty()
    } else {
        match answer(reads[0]) {
            None => Seq::empty(),
            Some(bytes) => bytes + sent(reads.drop_first()),
        }
    }
}

/// A client gets back what it sent, byte for byte, however the reads cut it up; the
/// empty read that ends the session adds nothing.
pub proof fn echo_is_faithful(reads: Seq<Seq<u8>>)
    requires
        forall|i: int| 0 <= i < reads.len() ==> (#[trigger] reads[i]).len() > 0,
    ensures
        sent(reads) == reads.flatten(),
        sent(reads.push(Seq::empty())) == reads.flatten(),
    decreases reads.len(),
{
    if reads.len() > 0 {
        let rest = reads.drop_first();
        assert forall|i: int| 0 <= i < rest.len() implies (#[trigger] rest[i]).len() > 0 by {
            assert(rest[i] == reads[i + 1]);
        }
        echo_is_faithful(rest);
        assert(reads.push(Seq::empty()).drop_first() =~= rest.push(Seq::empty()));
        assert(reads.push(Seq::empty())[0] == reads[0]);
    } else {
        assert(reads.push(Seq::empty())[0].len() == 0);
    }
}

/// An empty read ends the service: nothing that follows it goes back.
pub proof fn empty_read_ends_it(reads: Seq<Seq<u8>>, later: Seq<Seq<u8>>)
    requires
        reads.len() > 0,
        reads.last().len() == 0,
    ensures
        sent(reads + later) == sent(reads),
    decreases reads.len(),
{
    assert((reads + later)[0] == reads[0]);
    if reads[0].len() > 0 {
        assert((reads + later).drop_first() =~= reads.drop_first() + later);
        empty_read_ends_it(reads.drop_first(), later);
    }
}

/// A read of anything is answered with just that, whole and unchanged, and a read of
/// nothing ends the session; no read asks for more than twenty bytes of
/// a client on port 8080.
pub proof fn reads_are_answered(read: Seq<u8>)
    ensures
        answer(read) is None <==> read.len() == 0,
        answer(read) matches Some(bytes) ==> {
            &&& bytes.len() == read.len()
            &&& forall|i: int| 0 <= i < read.len() ==> bytes[i] == read[i]
        },
        BUFFER == 20,
        ADDRESS@ == "0.0.0.0:8080"@,
{
}

/// What a read filled of the buffer is its first bytes, as many as were read; what the
/// buffer held behind them stays out of it.
pub proof fn only_what_was_read_counts(buffer: Seq<u8>, count: nat)
    requires
        count <= buffer.len(),
    ensures
        filled(buffer, count).len() == count,
        forall|i: int| 0 <= i < count ==> filled(buffer, count)[i] == buffer[i],
{
}

} // verus!
