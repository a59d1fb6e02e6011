//! The relay engine's byte-copy model.
//!
//! A relay session copies bytes in both directions between the client and
//! the destination until both directions have observed end-of-stream. Each
//! direction is modelled by the history of bytes read from its source and
//! the history of bytes written to its sink; the invariant ties the two
//! together: what was written is exactly a prefix of what was read, and the
//! pending count measures the gap. The surrounding process performs the
//! actual reads and writes and records each of them here, so the model is
//! an exact ledger of the stream.

use vstd::prelude::*;

verus! {

/// One direction of a relay: bytes flowing from a source connection to a
/// sink connection.
pub struct RelayDirection {
    /// End-of-stream was observed on the source (the peer closed its write
    /// side). Pending bytes may still be flushed afterwards.
    pub eof: bool,
    /// Number of bytes read from the source but not yet written to the sink.
    pub pending_len: usize,
    /// Number of bytes fully copied to the sink, for diagnostics.
    pub copied: u64,
    /// History of every byte read from the source, in order.
    pub read_hist: Ghost<Seq<u8>>,
    /// History of every byte written to the sink, in order.
    pub written_hist: Ghost<Seq<u8>>,
}

impl RelayDirection {
    /// The direction's invariant: the written history is exactly the prefix
    /// of the read history that has been flushed so far, the pending count
    /// is the gap between the two, and the copied counter measures the
    /// written history.
    pub open spec fn wf(&self) -> bool {
        &&& self.copied as int == self.written_hist@.len()
        &&& self.pending_len as int == self.read_hist@.len() - self.written_hist@.len()
        &&& self.written_hist@ == self.read_hist@.take(self.written_hist@.len() as int)
    }

    /// The direction is finished: end-of-stream seen and every byte flushed.
    pub open spec fn finished(&self) -> bool {
        self.eof && self.pending_len == 0
    }

    /// A fresh direction with nothing read, nothing written and the stream
    /// still open.
    pub fn new() -> (d: RelayDirection)
        ensures
            d.wf(),
            !d.eof,
            d.pending_len == 0,
            d.copied == 0,
            d.read_hist@ == Seq::<u8>::empty(),
            d.written_hist@ == Seq::<u8>::empty(),
    {
        let d = RelayDirection {
            eof: false,
            pending_len: 0,
            copied: 0,
            read_hist: Ghost(Seq::empty()),
            written_hist: Ghost(Seq::empty()),
        };
        proof {
            assert(d.written_hist@ =~= d.read_hist@.take(0));
        }
        d
    }

    /// Record `chunk` as read from the source; it becomes pending for the
    /// sink. Reading is only possible while the source is open.
    pub fn on_read(&mut self, chunk: &[u8])
        requires
            old(self).wf(),
            !old(self).eof,
            old(self).pending_len + chunk@.len() <= usize::MAX,
        ensures
            final(self).wf(),
            !final(self).eof,
            final(self).read_hist@ == old(self).read_hist@ + chunk@,
            final(self).written_hist@ == old(self).written_hist@,
            final(self).pending_len == old(self).pending_len + chunk@.len(),
            final(self).copied == old(self).copied,
    {
        self.pending_len = self.pending_len + chunk.len();
        self.read_hist = Ghost(self.read_hist@ + chunk@);
        proof {
            assert(self.written_hist@ =~= self.read_hist@.take(
                self.written_hist@.len() as int,
            ));
        }
    }

    /// Record that the first `n` pending bytes were written to the sink.
    pub fn on_written(&mut self, n: usize)
        requires
            old(self).wf(),
            n <= old(self).pending_len,
            old(self).copied + n <= u64::MAX,
        ensures
            final(self).wf(),
            final(self).eof == old(self).eof,
            final(self).read_hist@ == old(self).read_hist@,
            final(self).written_hist@ == old(self).read_hist@.take(
                old(self).written_hist@.len() + n,
            ),
            final(self).pending_len == old(self).pending_len - n,
            final(self).copied == old(self).copied + n,
    {
        self.pending_len = self.pending_len - n;
        self.copied = self.copied + (n as u64);
        self.written_hist = Ghost(self.read_hist@.take(
            self.written_hist@.len() as int + n as int,
        ));
        proof {
            assert(self.written_hist@ =~= self.read_hist@.take(
                self.written_hist@.len() as int,
            ));
        }
    }

    /// Record end-of-stream from the source. Pending bytes remain and may
    /// still be flushed to the sink.
    pub fn on_eof(&mut self)
        requires
            old(self).wf(),
        ensures
            final(self).wf(),
            final(self).eof,
            final(self).read_hist@ == old(self).read_hist@,
            final(self).written_hist@ == old(self).written_hist@,
            final(self).pending_len == old(self).pending_len,
            final(self).copied == old(self).copied,
    {
        self.eof = true;
    }

    /// Executable view of `finished`.
    pub fn is_finished(&self) -> (r: bool)
        ensures
            r == self.finished(),
    {
        self.eof && self.pending_len == 0
    }
}

/// An ephemeral relay session: the pair of directions for one forwarded
/// connection.
pub struct RelaySession {
    /// Bytes flowing from the client to the destination.
    pub client_to_dest: RelayDirection,
    /// Bytes flowing from the destination to the client.
    pub dest_to_client: RelayDirection,
}

impl RelaySession {
    /// Both directions satisfy their invariant.
    pub open spec fn wf(&self) -> bool {
        self.client_to_dest.wf() && self.dest_to_client.wf()
    }

    /// The relay as a whole is complete only once both directions are
    /// finished; one side reaching end-of-stream does not end the session.
    pub open spec fn done(&self) -> bool {
        self.client_to_dest.finished() && self.dest_to_client.finished()
    }

    /// A fresh session with both directions open and empty.
    pub fn new() -> (s: RelaySession)
        ensures
            s.wf(),
            !s.done(),
            !s.client_to_dest.eof,
            !s.dest_to_client.eof,
            s.client_to_dest.copied == 0,
            s.dest_to_client.copied == 0,
            s.client_to_dest.pending_len == 0,
            s.dest_to_client.pending_len == 0,
            s.client_to_dest.read_hist@ == Seq::<u8>::empty(),
            s.dest_to_client.read_hist@ == Seq::<u8>::empty(),
    {
        RelaySession { client_to_dest: RelayDirection::new(), dest_to_client: RelayDirection::new() }
    }

    /// Executable view of `done`.
    pub fn is_done(&self) -> (r: bool)
        ensures
            r == self.done(),
    {
        self.client_to_dest.is_finished() && self.dest_to_client.is_finished()
    }

    /// Byte counts for diagnostics: bytes copied from the client and bytes
    /// copied from the destination.
    pub fn byte_counts(&self) -> (counts: (u64, u64))
        ensures
            counts.0 == self.client_to_dest.copied,
            counts.1 == self.dest_to_client.copied,
    {
        (self.client_to_dest.copied, self.dest_to_client.copied)
    }
}

/// Law (round-trip transparency): the bytes written to the sink equal, byte
/// for byte and in order, the flushed prefix of the bytes read from the
/// source — and the whole of them once the direction is drained. Both
/// directions of a session are instances of this one statement.
pub proof fn lemma_stream_transparency(d: RelayDirection)
    requires
        d.wf(),
    ensures
        d.written_hist@ == d.read_hist@.take(d.written_hist@.len() as int),
        d.pending_len == 0 ==> d.written_hist@ == d.read_hist@,
{
    if d.pending_len == 0 {
        assert(d.read_hist@.take(d.written_hist@.len() as int) =~= d.read_hist@);
    }
}

/// Law (half-close): when the client has closed its write side but the
/// destination has not, the relay is not complete — bytes still in flight
/// from the destination continue to be recorded and delivered until the
/// destination also closes.
pub proof fn lemma_half_close(s: RelaySession)
    requires
        s.wf(),
        s.client_to_dest.eof,
        !s.dest_to_client.eof,
    ensures
        !s.done(),
{
}

} // verus!
