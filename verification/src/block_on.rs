//! Blocking executors for synchronous clients.

use vstd::prelude::*;

use core::future::Future;

verus! {

/// An executor that runs a future to completion on the calling thread.
pub trait BlockOn {
    /// Runs `fut` to completion and returns its output.
    fn block_on<F: Future>(&self, fut: F) -> (output: F::Output)
        ensures
            vstd::future::FutureAdditionalSpecFns::awaited(&fut),
            output == vstd::future::FutureAdditionalSpecFns::view(&fut),
    ;
}

impl<B: BlockOn> BlockOn for &B {
    fn block_on<F: Future>(&self, fut: F) -> (output: F::Output) {
        (**self).block_on(fut)
    }
}

} // verus!
