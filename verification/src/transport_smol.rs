//! Errors of the in-process transport over smol channels.

use vstd::prelude::*;

use crate::error::{CallError, ErrorText, TransportResult};

verus! {

/// Errors of the in-process transport.
#[derive(Debug)]
pub enum SmolLocalError {
    /// The other end is gone.
    ChannelClosed,
}

impl ErrorText for SmolLocalError {
    open spec fn text(&self) -> Seq<char> {
        "channel closed"@
    }

    fn to_text(&self) -> (text: String) {
        "channel closed".to_owned()
    }
}

impl SmolLocalError {
    /// What a channel operation means for the call that it belongs to: the
    /// only way to fail is that the other end is gone.
    pub fn from_channel<T, E>(result: Result<T, E>) -> (outcome: Result<T, Self>)
        ensures
            outcome == match result {
                Ok(value) => Ok::<T, SmolLocalError>(value),
                Err(_) => Err(SmolLocalError::ChannelClosed),
            },
    {
        match result {
            Ok(value) => Ok(value),
            Err(_) => Err(SmolLocalError::ChannelClosed),
        }
    }
}

impl<T> TransportResult<T> for SmolLocalError {
    type Output = Result<T, CallError<SmolLocalError>>;

    open spec fn output(result: Result<T, Self>) -> Self::Output {
        crate::error::call_result(result)
    }

    fn into_output(result: Result<T, Self>) -> (output: Self::Output) {
        crate::error::into_call_result(result)
    }
}

} // verus!
