//! Byte-stream I/O.
//!
//! [`AsyncBytesRead`] and [`AsyncBytesWrite`] are all that the stream layer
//! asks of a byte stream. An operation that may have to wait is expressed as
//! a poll: it advances as far as it can and either finishes or parks the
//! caller's waker. How far it got is kept by the caller, so a poll can be
//! repeated until the operation is complete.

use vstd::prelude::*;

use crate::wake::PollState;
use core::task::Waker;

pub mod blocking;
pub mod cursor;
pub mod futures_io;
pub mod local_lock;
pub mod mem_pipe;
pub mod tokio_io;

pub use blocking::BlockingIo;
pub use local_lock::LocalLock;

verus! {

/// What every poll of a read keeps: the buffer's length, the bytes that were
/// read before, and a progress count that never falls back.
pub open spec fn read_progress(
    before: Seq<u8>,
    filled_before: int,
    after: Seq<u8>,
    filled_after: int,
) -> bool {
    &&& after.len() == before.len()
    &&& filled_before <= filled_after <= after.len()
    &&& after.subrange(0, filled_before) == before.subrange(0, filled_before)
    &&& after.skip(filled_after) == before.skip(filled_after)
}

/// Reading `chunk` into a buffer at `start` is progress.
pub proof fn lemma_read_progress(before: Seq<u8>, start: int, chunk: Seq<u8>)
    requires
        0 <= start,
        start + chunk.len() <= before.len(),
    ensures
        read_progress(
            before,
            start,
            before.subrange(0, start) + chunk + before.skip(start + chunk.len()),
            start + chunk.len(),
        ),
{
    let after = before.subrange(0, start) + chunk + before.skip(start + chunk.len());
    assert(after.subrange(0, start) =~= before.subrange(0, start));
    assert(after.skip(start + chunk.len()) =~= before.skip(start + chunk.len()));
}

/// Whether taking `bytes` off a stream leaves `after` of `before`, as far as
/// the bytes on the stream are known.
pub open spec fn takes(before: Option<Seq<u8>>, bytes: Seq<u8>, after: Option<Seq<u8>>) -> bool {
    before matches Some(waiting) ==> after matches Some(left) && waiting == bytes + left
}

/// Whether putting `bytes` onto a stream makes `after` of `before`, as far as
/// the bytes on the stream are known.
pub open spec fn puts(before: Option<Seq<u8>>, bytes: Seq<u8>, after: Option<Seq<u8>>) -> bool {
    before matches Some(waiting) ==> after == Some(waiting + bytes)
}

/// A reader of bytes.
pub trait AsyncBytesRead {
    /// What can go wrong.
    type Error;

    /// The bytes that wait to be read, where they are known.
    open spec fn incoming(&self) -> Option<Seq<u8>> {
        None
    }

    /// Whether one poll of a read that asks for `wanted` bytes may end in
    /// `outcome` and lead to `after`; any outcome may unless a reader promises
    /// more.
    open spec fn reads(
        &self,
        after: &Self,
        wanted: int,
        outcome: PollState<Result<(), Self::Error>>,
    ) -> bool {
        true
    }

    /// One poll of a read that fills all of `buf`, of which the first
    /// `filled` bytes are already there.
    fn poll_read_exact(&mut self, buf: &mut [u8], filled: &mut usize, waker: &Waker) -> (outcome:
        PollState<Result<(), Self::Error>>)
        requires
            *old(filled) <= old(buf)@.len(),
        ensures
            read_progress(
                old(buf)@,
                *old(filled) as int,
                final(buf)@,
                *final(filled) as int,
            ),
            takes(
                old(self).incoming(),
                final(buf)@.subrange(*old(filled) as int, *final(filled) as int),
                final(self).incoming(),
            ),
            old(self).reads(final(self), old(buf)@.len() - *old(filled), outcome),
            outcome matches PollState::Ready(Ok(_)) ==> *final(filled) == final(buf)@.len(),
            outcome matches PollState::Ready(Err(_)) ==> *final(filled) < final(buf)@.len(),
            outcome is Pending ==> *final(filled) < final(buf)@.len(),
    ;
}

/// A writer of bytes.
pub trait AsyncBytesWrite {
    /// What can go wrong.
    type Error;

    /// The bytes that were written and wait to be picked up, where they are
    /// known.
    open spec fn outgoing(&self) -> Option<Seq<u8>> {
        None
    }

    /// Whether one poll of a write may end in `outcome` and lead to `after`;
    /// any outcome may unless a writer promises more.
    open spec fn writes(
        &self,
        after: &Self,
        outcome: PollState<Result<(), Self::Error>>,
    ) -> bool {
        true
    }

    /// Whether one poll of a flush may end in `outcome` and lead to `after`;
    /// any outcome may unless a writer promises more.
    open spec fn flushes(
        &self,
        after: &Self,
        outcome: PollState<Result<(), Self::Error>>,
    ) -> bool {
        true
    }

    /// One poll of a write of all of `buf`, of which the first `written`
    /// bytes are already gone.
    fn poll_write_all(&mut self, buf: &[u8], written: &mut usize, waker: &Waker) -> (outcome:
        PollState<Result<(), Self::Error>>)
        requires
            *old(written) <= buf@.len(),
        ensures
            *old(written) <= *final(written) <= buf@.len(),
            puts(
                old(self).outgoing(),
                buf@.subrange(*old(written) as int, *final(written) as int),
                final(self).outgoing(),
            ),
            old(self).writes(final(self), outcome),
            outcome matches PollState::Ready(Ok(_)) ==> *final(written) == buf@.len(),
            outcome is Pending ==> *final(written) < buf@.len(),
    ;

    /// One poll of a flush of the bytes written so far.
    fn poll_flush(&mut self, waker: &Waker) -> (outcome: PollState<Result<(), Self::Error>>)
        ensures
            final(self).outgoing() == old(self).outgoing(),
            old(self).flushes(final(self), outcome),
    ;
}

/// Whether a poll of a read that led to `after` may have reported `outcome`
/// after it got some bytes, with `missing` bytes still to come.
pub open spec fn read_reported<R: AsyncBytesRead>(
    after: &R,
    missing: int,
    outcome: PollState<Result<(), R::Error>>,
) -> bool {
    exists|before: R, wanted: int, got: Seq<u8>|
        {
            &&& #[trigger] before.reads(after, wanted, outcome)
            &&& #[trigger] takes(before.incoming(), got, after.incoming())
            &&& wanted == got.len() + missing
        }
}

/// Whether a poll of a write that led to `after` may have reported `outcome`.
pub open spec fn write_reported<W: AsyncBytesWrite>(
    after: &W,
    outcome: PollState<Result<(), W::Error>>,
) -> bool {
    exists|before: W| #[trigger] before.writes(after, outcome)
}

/// Whether a poll of a flush that led to `after` may have reported `outcome`.
pub open spec fn flush_reported<W: AsyncBytesWrite>(
    after: &W,
    outcome: PollState<Result<(), W::Error>>,
) -> bool {
    exists|before: W| #[trigger] before.flushes(after, outcome)
}

/// A borrowed reader reads like the reader itself.
impl<T: AsyncBytesRead> AsyncBytesRead for &mut T {
    type Error = T::Error;

    open spec fn incoming(&self) -> Option<Seq<u8>> {
        (**self).incoming()
    }

    open spec fn reads(
        &self,
        after: &Self,
        wanted: int,
        outcome: PollState<Result<(), Self::Error>>,
    ) -> bool {
        (**self).reads(&**after, wanted, outcome)
    }

    fn poll_read_exact(&mut self, buf: &mut [u8], filled: &mut usize, waker: &Waker) -> (outcome:
        PollState<Result<(), Self::Error>>) {
        (**self).poll_read_exact(buf, filled, waker)
    }
}

/// A borrowed writer writes like the writer itself.
impl<T: AsyncBytesWrite> AsyncBytesWrite for &mut T {
    type Error = T::Error;

    open spec fn outgoing(&self) -> Option<Seq<u8>> {
        (**self).outgoing()
    }

    open spec fn writes(
        &self,
        after: &Self,
        outcome: PollState<Result<(), Self::Error>>,
    ) -> bool {
        (**self).writes(&**after, outcome)
    }

    open spec fn flushes(
        &self,
        after: &Self,
        outcome: PollState<Result<(), Self::Error>>,
    ) -> bool {
        (**self).flushes(&**after, outcome)
    }

    fn poll_write_all(&mut self, buf: &[u8], written: &mut usize, waker: &Waker) -> (outcome:
        PollState<Result<(), Self::Error>>) {
        (**self).poll_write_all(buf, written, waker)
    }

    fn poll_flush(&mut self, waker: &Waker) -> PollState<Result<(), Self::Error>> {
        (**self).poll_flush(waker)
    }
}

} // verus!
