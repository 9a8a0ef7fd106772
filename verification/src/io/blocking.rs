//! Adapter for streams that never make the caller wait.

use vstd::prelude::*;

verus! {

/// Wraps a blocking reader or writer.
#[derive(Debug, Default, Clone, Copy)]
pub struct BlockingIo<T>(pub T);

impl<T> BlockingIo<T> {
    /// Wraps `inner`.
    pub fn new(inner: T) -> (io: Self)
        ensures
            io.0 == inner,
    {
        BlockingIo(inner)
    }

    /// The wrapped value, for modification in place.
    pub fn get_mut(&mut self) -> (inner: &mut T)
        ensures
            *inner == old(self).0,
            final(self).0 == *final(inner),
    {
        &mut self.0
    }

    /// The wrapped value.
    pub fn into_inner(self) -> (inner: T)
        ensures
            inner == self.0,
    {
        self.0
    }
}

} // verus!
