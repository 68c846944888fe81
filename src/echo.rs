use vstd::prelude::*;

use crate::fault::IoFault;

verus! {

/// What the echo responder does after one blocking read.
#[derive(Debug, PartialEq, Eq)]
pub enum EchoAction {
    /// Write these bytes back to the peer, then read again.
    Reply(Vec<u8>),
    /// The peer closed or reset the connection: leave the loop.
    Stop,
    /// The read failed in a way the responder cannot carry on from.
    Fail(IoFault),
}

/// The bytes a responder sends back after a read of `n` bytes into `buf`.
pub open spec fn echo_of(buf: Seq<u8>, n: nat) -> Seq<u8> {
    buf.subrange(0, n as int)
}

/// Decides the responder's next move from the outcome of a read into `buf`.
/// A read of zero bytes is the end of the stream.
pub fn echo_step(buf: &[u8], outcome: &Result<usize, IoFault>) -> (r: EchoAction)
    requires
        outcome matches Ok(n) ==> n <= buf@.len(),
    ensures
        match *outcome {
            Ok(n) => if n == 0 {
                r is Stop
            } else {
                r matches EchoAction::Reply(bytes) && bytes@ == echo_of(buf@, n as nat)
            },
            Err(k) => if k == IoFault::ConnectionReset {
                r is Stop
            } else {
                r == EchoAction::Fail(k)
            },
        },
{
    match outcome {
        Ok(n) => {
            let n = *n;
            if n == 0 {
                return EchoAction::Stop;
            }
            let mut bytes: Vec<u8> = Vec::with_capacity(n);
            let mut i: usize = 0;
            while i < n
                invariant
                    n <= buf@.len(),
                    i <= n,
                    bytes@ == buf@.subrange(0, i as int),
                decreases n - i,
            {
                bytes.push(buf[i]);
                i = i + 1;
                assert(bytes@ =~= buf@.subrange(0, i as int));
            }
            EchoAction::Reply(bytes)
        },
        Err(IoFault::ConnectionReset) => EchoAction::Stop,
        Err(k) => EchoAction::Fail(*k),
    }
}

/// The bytes of a run of responder reads, each a buffer and the count read into it.
pub open spec fn received(reads: Seq<(Seq<u8>, nat)>) -> Seq<u8>
    decreases reads.len(),
{
    if reads.len() == 0 {
        Seq::empty()
    } else {
        received(reads.drop_last()) + reads.last().0.subrange(0, reads.last().1 as int)
    }
}

/// The bytes a responder sends back over a run of reads.
pub open spec fn echoed(reads: Seq<(Seq<u8>, nat)>) -> Seq<u8>
    decreases reads.len(),
{
    if reads.len() == 0 {
        Seq::empty()
    } else {
        echoed(reads.drop_last()) + echo_of(reads.last().0, reads.last().1)
    }
}

proof fn lemma_echoed_is_received(reads: Seq<(Seq<u8>, nat)>)
    ensures
        echoed(reads) == received(reads),
    decreases reads.len(),
{
    if reads.len() > 0 {
        lemma_echoed_is_received(reads.drop_last());
    }
}

/// Echo fidelity: when the responder has read, in order, a prefix of what the
/// client wrote and answered each read as `echo_step` does, whatever the
/// client reads back, in order, of those answers is a prefix of what it wrote.
pub proof fn lemma_echo_fidelity(
    written: Seq<u8>,
    reads: Seq<(Seq<u8>, nat)>,
    read_back: Seq<u8>,
)
    requires
        forall|i: int| 0 <= i < reads.len() ==> #[trigger] reads[i].1 <= reads[i].0.len(),
        received(reads).is_prefix_of(written),
        read_back.is_prefix_of(echoed(reads)),
    ensures
        read_back.is_prefix_of(written),
{
    lemma_echoed_is_received(reads);
    let e = received(reads);
    assert(read_back =~= written.subrange(0, read_back.len() as int)) by {
        assert forall|k: int| 0 <= k < read_back.len() implies read_back[k] == written[k] by {
            assert(read_back[k] == e[k]);
            assert(e[k] == written[k]);
        }
    }
}

} // verus!
