//! In-memory pipes: bytes come out in the order in which they went in.

use vstd::prelude::*;

use super::{AsyncBytesRead, AsyncBytesWrite};
use crate::error::ErrorText;
use crate::wake::{new_waker_cell, park_waker, wake_parked, PollState};
use atomic_waker::AtomicWaker;
use core::task::Waker;
use std::collections::VecDeque;

verus! {

/// Why a pipe cannot be read.
#[derive(Debug)]
pub enum PipeError {
    /// The writer is gone and the pipe is empty.
    Closed,
}

impl ErrorText for PipeError {
    open spec fn text(&self) -> Seq<char> {
        "pipe closed"@
    }

    fn to_text(&self) -> (text: String) {
        "pipe closed".to_owned()
    }
}

/// A pipe in one direction.
pub struct Pipe {
    buf: VecDeque<u8>,
    read_waker: AtomicWaker,
    closed: bool,
}

/// What a pipe holds.
#[verifier::ext_equal]
pub struct PipeState {
    /// Bytes written and not yet read, oldest first.
    pub queued: Seq<u8>,
    /// Whether the writer is gone.
    pub closed: bool,
    /// Whether a reader is parked until more bytes arrive.
    pub waiting: bool,
}

/// How many bytes a read of `wanted` bytes can take at once.
pub open spec fn available(queued: Seq<u8>, wanted: int) -> int {
    if queued.len() < wanted {
        queued.len() as int
    } else {
        wanted
    }
}

impl View for Pipe {
    type V = PipeState;

    closed spec fn view(&self) -> PipeState {
        PipeState {
            queued: self.buf@,
            closed: self.closed,
            waiting: crate::wake::waker_parked(self.read_waker),
        }
    }
}

/// An empty pipe.
pub fn pipe() -> (pipe: Pipe)
    ensures
        pipe@ == (PipeState { queued: Seq::empty(), closed: false, waiting: false }),
{
    Pipe { buf: VecDeque::new(), read_waker: new_waker_cell(), closed: false }
}

impl Pipe {
    /// Marks that nothing more will be written, and wakes the reader.
    pub fn close(&mut self)
        ensures
            final(self)@ == (PipeState { closed: true, waiting: false, ..old(self)@ }),
    {
        self.closed = true;
        wake_parked(&mut self.read_waker);
    }
}

impl AsyncBytesRead for Pipe {
    type Error = PipeError;

    open spec fn incoming(&self) -> Option<Seq<u8>> {
        Some(self@.queued)
    }

    /// A read falls short only if the pipe has run dry: it waits while the
    /// writer is there, and fails when the writer is gone.
    open spec fn reads(
        &self,
        after: &Self,
        wanted: int,
        outcome: PollState<Result<(), PipeError>>,
    ) -> bool {
        &&& after@.closed == self@.closed
        &&& match outcome {
            PollState::Ready(Ok(_)) => true,
            PollState::Ready(Err(_)) => after@.queued.len() == 0 && after@.closed,
            PollState::Pending => after@.queued.len() == 0 && !after@.closed && after@.waiting,
        }
    }

    /// Takes as many bytes as there are and as `buf` has room for. A read
    /// that is still short waits for more, or fails if the writer is gone.
    fn poll_read_exact(&mut self, buf: &mut [u8], filled: &mut usize, waker: &Waker) -> (outcome:
        PollState<Result<(), PipeError>>)
        ensures
            ({
                let start = *old(filled) as int;
                let taken = available(old(self)@.queued, old(buf)@.len() - start);
                &&& *final(filled) == start + taken
                &&& final(buf)@ == old(buf)@.subrange(0, start) + old(self)@.queued.subrange(
                    0,
                    taken,
                ) + old(buf)@.skip(start + taken)
                &&& final(self)@.queued == old(self)@.queued.skip(taken)
                &&& final(self)@.closed == old(self)@.closed
                &&& if start + taken == old(buf)@.len() {
                    outcome == PollState::Ready(Ok::<(), PipeError>(())) && final(self)@.waiting
                        == old(self)@.waiting
                } else if old(self)@.closed {
                    outcome == PollState::Ready(Err::<(), PipeError>(PipeError::Closed)) && final(self)@.waiting
                } else {
                    outcome == PollState::<Result<(), PipeError>>::Pending && final(self)@.waiting
                }
            }),
    {
        let ghost start = *filled as int;
        let ghost taken = available(self@.queued, buf@.len() - start);
        let ghost buf0 = buf@;
        let ghost queued0 = self@.queued;
        while *filled < buf.len() && self.buf.len() > 0
            invariant
                0 <= start <= *filled <= start + taken,
                taken == available(queued0, buf0.len() - start),
                buf@.len() == buf0.len(),
                buf@ == buf0.subrange(0, start) + queued0.subrange(0, *filled - start) + buf0.skip(
                    *filled as int,
                ),
                self@.queued == queued0.skip(*filled - start),
                self@.closed == old(self)@.closed,
                self@.waiting == old(self)@.waiting,
            decreases buf.len() - *filled,
        {
            match self.buf.pop_front() {
                Some(byte) => {
                    buf[*filled] = byte;
                    *filled = *filled + 1;
                    assert(buf@ =~= buf0.subrange(0, start) + queued0.subrange(0, *filled - start)
                        + buf0.skip(*filled as int));
                    assert(self@.queued =~= queued0.skip(*filled - start));
                },
                None => {},
            }
        }
        proof {
            super::lemma_read_progress(buf0, start, queued0.subrange(0, taken));
            assert(buf@.subrange(start, start + taken) =~= queued0.subrange(0, taken));
            assert(queued0 =~= queued0.subrange(0, taken) + queued0.skip(taken));
        }
        if *filled == buf.len() {
            return PollState::Ready(Ok(()));
        }
        park_waker(&mut self.read_waker, waker);
        if self.closed {
            return PollState::Ready(Err(PipeError::Closed));
        }
        PollState::Pending
    }
}

impl AsyncBytesWrite for Pipe {
    type Error = PipeError;

    open spec fn outgoing(&self) -> Option<Seq<u8>> {
        Some(self@.queued)
    }

    open spec fn writes(&self, after: &Self, outcome: PollState<Result<(), PipeError>>) -> bool {
        &&& outcome == PollState::Ready(Ok::<(), PipeError>(()))
        &&& after@.closed == self@.closed
        &&& !after@.waiting
    }

    open spec fn flushes(&self, after: &Self, outcome: PollState<Result<(), PipeError>>) -> bool {
        outcome == PollState::Ready(Ok::<(), PipeError>(())) && *after == *self
    }

    /// Takes in all bytes at once and wakes the reader.
    fn poll_write_all(&mut self, buf: &[u8], written: &mut usize, waker: &Waker) -> (outcome:
        PollState<Result<(), PipeError>>)
        ensures
            outcome == PollState::Ready(Ok::<(), PipeError>(())),
            final(self)@ == (PipeState {
                queued: old(self)@.queued + buf@.skip(*old(written) as int),
                closed: old(self)@.closed,
                waiting: false,
            }),
    {
        let ghost start = *written as int;
        assert(self@.queued =~= old(self)@.queued + buf@.subrange(start, start));
        while *written < buf.len()
            invariant
                0 <= start <= *written <= buf@.len(),
                self@.queued == old(self)@.queued + buf@.subrange(start, *written as int),
                self@.closed == old(self)@.closed,
            decreases buf.len() - *written,
        {
            self.buf.push_back(buf[*written]);
            *written = *written + 1;
            assert(self@.queued =~= old(self)@.queued + buf@.subrange(start, *written as int));
        }
        assert(buf@.subrange(start, buf@.len() as int) =~= buf@.skip(start));
        wake_parked(&mut self.read_waker);
        PollState::Ready(Ok(()))
    }

    /// Nothing is held back, so there is nothing to flush.
    fn poll_flush(&mut self, waker: &Waker) -> (outcome: PollState<Result<(), PipeError>>)
        ensures
            outcome == PollState::Ready(Ok::<(), PipeError>(())),
            *final(self) == *old(self),
    {
        PollState::Ready(Ok(()))
    }
}

/// One end of a pair of pipes.
#[derive(Clone, Copy, PartialEq, Eq, Structural)]
pub enum Side {
    A,
    B,
}

/// Two pipes that connect two sides: what one side writes, the other reads.
pub struct Duplex {
    /// Carries what side A writes.
    pub a_to_b: Pipe,
    /// Carries what side B writes.
    pub b_to_a: Pipe,
}

impl Duplex {
    /// The pipe that `side` reads from.
    pub open spec fn inbound(&self, side: Side) -> Pipe {
        match side {
            Side::A => self.b_to_a,
            Side::B => self.a_to_b,
        }
    }

    /// The pipe that `side` writes to.
    pub open spec fn outbound(&self, side: Side) -> Pipe {
        match side {
            Side::A => self.a_to_b,
            Side::B => self.b_to_a,
        }
    }

    /// The reading end of `side`.
    pub fn reader(&mut self, side: Side) -> (reader: &mut Pipe)
        ensures
            *reader == old(self).inbound(side),
            final(self).inbound(side) == *final(reader),
            final(self).outbound(side) == old(self).outbound(side),
    {
        match side {
            Side::A => &mut self.b_to_a,
            Side::B => &mut self.a_to_b,
        }
    }

    /// The writing end of `side`.
    pub fn writer(&mut self, side: Side) -> (writer: &mut Pipe)
        ensures
            *writer == old(self).outbound(side),
            final(self).outbound(side) == *final(writer),
            final(self).inbound(side) == old(self).inbound(side),
    {
        match side {
            Side::A => &mut self.a_to_b,
            Side::B => &mut self.b_to_a,
        }
    }
}

/// Two empty pipes, one in each direction.
pub fn duplex() -> (pair: Duplex)
    ensures
        pair.a_to_b@ == (PipeState { queued: Seq::empty(), closed: false, waiting: false }),
        pair.b_to_a@ == (PipeState { queued: Seq::empty(), closed: false, waiting: false }),
{
    Duplex { a_to_b: pipe(), b_to_a: pipe() }
}

/// What one side writes is what the other side reads.
pub proof fn law_sides_are_crossed(pair: Duplex)
    ensures
        pair.outbound(Side::A) == pair.inbound(Side::B),
        pair.outbound(Side::B) == pair.inbound(Side::A),
{
}

/// Reading back what was written to an empty pipe yields the same bytes, in
/// the same order, whatever pieces they are read in.
pub proof fn law_pipe_is_first_in_first_out(written: Seq<u8>, first: int, second: int)
    requires
        0 <= first,
        0 <= second,
        first + second <= written.len(),
    ensures
        available(written, first) == first,
        available(written.skip(first), second) == second,
        written.subrange(0, first) + written.skip(first).subrange(0, second) == written.subrange(
            0,
            first + second,
        ),
        written.skip(first).skip(second) == written.skip(first + second),
{
    assert(written.subrange(0, first) + written.skip(first).subrange(0, second)
        =~= written.subrange(0, first + second));
    assert(written.skip(first).skip(second) =~= written.skip(first + second));
}

/// A read waits only while the pipe is open and empty, and then the reader is
/// parked; it fails only if the pipe is closed and empty. A read closes nothing.
pub proof fn law_pipe_fails_only_when_it_is_closed(
    before: Pipe,
    after: Pipe,
    wanted: int,
    outcome: PollState<Result<(), PipeError>>,
)
    requires
        before.reads(&after, wanted, outcome),
    ensures
        after@.closed == before@.closed,
        outcome is Pending ==> !after@.closed && after@.queued.len() == 0 && after@.waiting,
        outcome matches PollState::Ready(Err(_)) ==> after@.closed && after@.queued.len() == 0,
{
}

/// A write succeeds at once and wakes the reader, and a flush changes nothing.
pub proof fn law_pipe_takes_every_write(
    before: Pipe,
    after: Pipe,
    outcome: PollState<Result<(), PipeError>>,
)
    ensures
        before.writes(&after, outcome) ==> outcome is Ready && !after@.waiting && after@.closed
            == before@.closed && outcome->Ready_0 is Ok,
        before.flushes(&after, outcome) ==> after == before && outcome is Ready
            && outcome->Ready_0 is Ok,
{
}

/// A read takes as much as it wants, or all that there is if that is less.
pub proof fn law_pipe_gives_what_it_has(queued: Seq<u8>, wanted: int)
    requires
        wanted >= 0,
    ensures
        0 <= available(queued, wanted) <= wanted,
        available(queued, wanted) <= queued.len(),
        available(queued, wanted) == wanted || available(queued, wanted) == queued.len(),
{
}

} // verus!
