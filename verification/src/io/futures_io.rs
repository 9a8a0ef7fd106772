//! Names for byte streams of the `futures` family, and the bookkeeping of
//! reads and writes that may take several polls.

use vstd::prelude::*;

verus! {

/// Marks a `futures` reader.
pub struct FuturesIoReader<R>(pub R);

impl<R> FuturesIoReader<R> {
    /// Wraps `inner`.
    pub fn new(inner: R) -> (reader: Self)
        ensures
            reader.0 == inner,
    {
        FuturesIoReader(inner)
    }

    /// The wrapped value.
    pub fn into_inner(self) -> (inner: R)
        ensures
            inner == self.0,
    {
        self.0
    }
}

/// Marks a `futures` writer.
pub struct FuturesIoWriter<W>(pub W);

impl<W> FuturesIoWriter<W> {
    /// Wraps `inner`.
    pub fn new(inner: W) -> (writer: Self)
        ensures
            writer.0 == inner,
    {
        FuturesIoWriter(inner)
    }

    /// The wrapped value.
    pub fn into_inner(self) -> (inner: W)
        ensures
            inner == self.0,
    {
        self.0
    }
}

/// What one poll of the underlying stream reported.
pub enum Polled<E> {
    /// This many bytes were transferred.
    Transferred(usize),
    /// The stream failed.
    Failed(E),
    /// The stream is not ready.
    NotReady,
}

/// What a transfer of a whole buffer does next.
pub enum TransferStep<E> {
    /// Poll the stream again, for the rest of the buffer.
    Again,
    /// The whole buffer has been transferred.
    Complete,
    /// The stream transferred nothing although there was more to transfer: a
    /// reader has reached the end, a writer accepts no more.
    Exhausted,
    /// The stream failed.
    Failed(E),
    /// Wait until the stream is ready.
    Wait,
}

/// Message of the error for a reader that ended early.
pub const READ_EXHAUSTED: &'static str = "read_exact: EOF";

/// Message of the error for a writer that accepts no more bytes.
pub const WRITE_EXHAUSTED: &'static str = "write_all: wrote zero";

/// Progress of the transfer of a whole buffer.
pub struct Transfer {
    done: usize,
    total: usize,
}

impl Transfer {
    /// Bytes transferred so far, and the length of the buffer.
    pub closed spec fn progress(&self) -> (int, int) {
        (self.done as int, self.total as int)
    }

    /// Validity: no more was transferred than there is.
    pub open spec fn wf(&self) -> bool {
        0 <= self.progress().0 <= self.progress().1 <= usize::MAX
    }

    /// A transfer of `total` bytes, none of them done.
    pub fn new(total: usize) -> (transfer: Self)
        ensures
            transfer.wf(),
            transfer.progress() == (0int, total as int),
    {
        Transfer { done: 0, total }
    }

    /// How many bytes have been transferred: where the rest begins.
    pub fn done(&self) -> (done: usize)
        ensures
            done == self.progress().0,
    {
        self.done
    }

    /// Whether nothing is left to transfer.
    pub fn is_complete(&self) -> (complete: bool)
        requires
            self.wf(),
        ensures
            complete == (self.progress().0 == self.progress().1),
    {
        self.done >= self.total
    }

    /// Takes in what a poll for the rest of the buffer reported.
    pub fn advance<E>(&mut self, polled: Polled<E>) -> (step: TransferStep<E>)
        requires
            old(self).wf(),
            old(self).progress().0 < old(self).progress().1,
            polled matches Polled::Transferred(n) ==> n <= old(self).progress().1 - old(self).progress().0,
        ensures
            final(self).wf(),
            match polled {
                Polled::Transferred(n) => {
                    &&& final(self).progress() == (
                        old(self).progress().0 + n,
                        old(self).progress().1,
                    )
                    &&& step == if n == 0 {
                        TransferStep::<E>::Exhausted
                    } else if old(self).progress().0 + n == old(self).progress().1 {
                        TransferStep::Complete
                    } else {
                        TransferStep::Again
                    }
                },
                Polled::Failed(e) => *final(self) == *old(self) && step == TransferStep::Failed(e),
                Polled::NotReady => *final(self) == *old(self) && step == TransferStep::<
                    E,
                >::Wait,
            },
    {
        match polled {
            Polled::Transferred(n) => {
                if n == 0 {
                    return TransferStep::Exhausted;
                }
                self.done = self.done + n;
                if self.done < self.total {
                    TransferStep::Again
                } else {
                    TransferStep::Complete
                }
            },
            Polled::Failed(e) => TransferStep::Failed(e),
            Polled::NotReady => TransferStep::Wait,
        }
    }
}

} // verus!
