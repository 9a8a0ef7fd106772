//! Reads from and writes to plain byte buffers.

use vstd::prelude::*;

use super::{AsyncBytesRead, AsyncBytesWrite, BlockingIo};
use crate::error::ErrorText;
use crate::wake::PollState;
use core::task::Waker;

verus! {

/// The buffer holds fewer bytes than were asked for.
#[derive(Debug)]
pub struct UnexpectedEnd;

impl ErrorText for UnexpectedEnd {
    open spec fn text(&self) -> Seq<char> {
        "failed to fill whole buffer"@
    }

    fn to_text(&self) -> (text: String) {
        "failed to fill whole buffer".to_owned()
    }
}

/// A position in a byte buffer.
pub struct Cursor {
    bytes: Vec<u8>,
    position: usize,
}

impl View for Cursor {
    type V = Seq<u8>;

    /// The bytes that have not been read.
    closed spec fn view(&self) -> Seq<u8> {
        self.bytes@.skip(self.position as int)
    }
}

impl Cursor {
    #[verifier::type_invariant]
    spec fn in_range(self) -> bool {
        self.position <= self.bytes@.len()
    }
}

/// Reads from memory.
pub type CursorRead = BlockingIo<Cursor>;

/// Writes to memory.
pub type CursorWrite = BlockingIo<Vec<u8>>;

/// A reader that starts at the first of `bytes`.
pub fn cursor_read(bytes: Vec<u8>) -> (reader: CursorRead)
    ensures
        reader.0@ == bytes@,
{
    let reader = BlockingIo(Cursor { bytes, position: 0 });
    assert(bytes@.skip(0) =~= bytes@);
    reader
}

/// A writer to an empty buffer.
pub fn cursor_write() -> (writer: CursorWrite)
    ensures
        writer.0@ == Seq::<u8>::empty(),
{
    BlockingIo(Vec::new())
}

impl AsyncBytesRead for BlockingIo<Cursor> {
    type Error = UnexpectedEnd;

    open spec fn incoming(&self) -> Option<Seq<u8>> {
        Some(self.0@)
    }

    /// A read never waits. It fails exactly if there are not enough bytes, and
    /// then takes nothing.
    open spec fn reads(
        &self,
        after: &Self,
        wanted: int,
        outcome: PollState<Result<(), UnexpectedEnd>>,
    ) -> bool {
        match outcome {
            PollState::Ready(Ok(_)) => self.0@.len() >= wanted,
            PollState::Ready(Err(_)) => self.0@.len() < wanted && after.0@ == self.0@,
            PollState::Pending => false,
        }
    }

    /// Fills the rest of `buf` at once, or fails and takes nothing.
    fn poll_read_exact(&mut self, buf: &mut [u8], filled: &mut usize, waker: &Waker) -> (outcome:
        PollState<Result<(), UnexpectedEnd>>)
        ensures
            ({
                let start = *old(filled) as int;
                let wanted = old(buf)@.len() - start;
                if wanted <= old(self).0@.len() {
                    &&& outcome == PollState::Ready(Ok::<(), UnexpectedEnd>(()))
                    &&& final(buf)@ == old(buf)@.subrange(0, start) + old(self).0@.subrange(
                        0,
                        wanted,
                    )
                    &&& final(self).0@ == old(self).0@.skip(wanted)
                } else {
                    &&& outcome == PollState::Ready(Err::<(), UnexpectedEnd>(UnexpectedEnd))
                    &&& final(buf)@ == old(buf)@
                    &&& final(self).0@ == old(self).0@
                }
            }),
    {
        proof {
            use_type_invariant(&self.0);
        }
        let wanted: usize = buf.len() - *filled;
        if wanted > self.0.bytes.len() - self.0.position {
            assert(self.0@ =~= buf@.subrange(*filled as int, *filled as int) + self.0@);
            return PollState::Ready(Err(UnexpectedEnd));
        }
        let ghost start = *filled as int;
        let ghost buf0 = buf@;
        let ghost unread = self.0@;
        let position: usize = self.0.position;
        let mut i: usize = 0;
        while i < wanted
            invariant
                0 <= i <= wanted,
                wanted == buf0.len() - start,
                0 <= start <= buf0.len(),
                *filled == start + i,
                buf@.len() == buf0.len(),
                position + wanted <= self.0.bytes.len(),
                self.0.position == position,
                unread == self.0.bytes@.skip(position as int),
                buf@ == buf0.subrange(0, start) + unread.subrange(0, i as int) + buf0.skip(
                    start + i,
                ),
            decreases wanted - i,
        {
            buf[*filled] = self.0.bytes[position + i];
            *filled = *filled + 1;
            i = i + 1;
            assert(buf@ =~= buf0.subrange(0, start) + unread.subrange(0, i as int) + buf0.skip(
                start + i,
            ));
        }
        proof {
            super::lemma_read_progress(buf0, start, unread.subrange(0, wanted as int));
            assert(buf@.subrange(start, start + wanted) =~= unread.subrange(0, wanted as int));
            assert(unread =~= unread.subrange(0, wanted as int) + unread.skip(wanted as int));
        }
        self.0.position = position + wanted;
        assert(self.0@ =~= unread.skip(wanted as int));
        assert(buf@ =~= buf0.subrange(0, start) + unread.subrange(0, wanted as int));
        PollState::Ready(Ok(()))
    }
}

impl AsyncBytesWrite for BlockingIo<Vec<u8>> {
    type Error = UnexpectedEnd;

    open spec fn outgoing(&self) -> Option<Seq<u8>> {
        Some(self.0@)
    }

    open spec fn writes(
        &self,
        after: &Self,
        outcome: PollState<Result<(), UnexpectedEnd>>,
    ) -> bool {
        outcome == PollState::Ready(Ok::<(), UnexpectedEnd>(()))
    }

    open spec fn flushes(&self, after: &Self, outcome: PollState<Result<(), UnexpectedEnd>>) -> bool {
        outcome == PollState::Ready(Ok::<(), UnexpectedEnd>(())) && *after == *self
    }

    /// Appends the rest of `buf`.
    fn poll_write_all(&mut self, buf: &[u8], written: &mut usize, waker: &Waker) -> (outcome:
        PollState<Result<(), UnexpectedEnd>>)
        ensures
            outcome == PollState::Ready(Ok::<(), UnexpectedEnd>(())),
            final(self).0@ == old(self).0@ + buf@.skip(*old(written) as int),
    {
        let rest = vstd::slice::slice_subrange(buf, *written, buf.len());
        self.0.extend_from_slice(rest);
        assert(rest@ =~= buf@.skip(*written as int));
        assert(self.0@ =~= old(self).0@ + buf@.subrange(*written as int, buf@.len() as int));
        *written = buf.len();
        PollState::Ready(Ok(()))
    }

    /// Nothing is held back, so there is nothing to flush.
    fn poll_flush(&mut self, waker: &Waker) -> (outcome: PollState<Result<(), UnexpectedEnd>>)
        ensures
            outcome == PollState::Ready(Ok::<(), UnexpectedEnd>(())),
            *final(self) == *old(self),
    {
        PollState::Ready(Ok(()))
    }
}

/// A read from a buffer never waits: it fails exactly if the buffer holds fewer
/// bytes than are wanted, and then takes none. Writes and flushes succeed.
pub proof fn law_buffer_never_waits(
    before: BlockingIo<Cursor>,
    after: BlockingIo<Cursor>,
    wanted: int,
    outcome: PollState<Result<(), UnexpectedEnd>>,
    sink: BlockingIo<Vec<u8>>,
    filled: BlockingIo<Vec<u8>>,
)
    ensures
        before.reads(&after, wanted, outcome) ==> outcome is Ready && (outcome->Ready_0 is Ok
            <==> before.0@.len() >= wanted) && (outcome->Ready_0 is Err ==> after.0@
            == before.0@),
        sink.writes(&filled, outcome) ==> outcome is Ready && outcome->Ready_0 is Ok,
        sink.flushes(&filled, outcome) ==> outcome is Ready && outcome->Ready_0 is Ok && filled
            == sink,
{
}

} // verus!
