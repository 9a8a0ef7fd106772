//! Names for byte streams of the tokio runtime.

use vstd::prelude::*;

verus! {

/// Marks a tokio reader.
pub struct TokioIoReader<R>(pub R);

impl<R> TokioIoReader<R> {
    /// Wraps `inner`.
    pub fn new(inner: R) -> (reader: Self)
        ensures
            reader.0 == inner,
    {
        TokioIoReader(inner)
    }

    /// The wrapped value.
    pub fn into_inner(self) -> (inner: R)
        ensures
            inner == self.0,
    {
        self.0
    }
}

/// Marks a tokio writer.
pub struct TokioIoWriter<W>(pub W);

impl<W> TokioIoWriter<W> {
    /// Wraps `inner`.
    pub fn new(inner: W) -> (writer: Self)
        ensures
            writer.0 == inner,
    {
        TokioIoWriter(inner)
    }

    /// The wrapped value.
    pub fn into_inner(self) -> (inner: W)
        ensures
            inner == self.0,
    {
        self.0
    }
}

} // verus!
