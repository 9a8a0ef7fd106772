//! Errors of the in-process transport over tokio channels.

use vstd::prelude::*;

use crate::error::{CallError, ErrorText, TransportResult};

verus! {

/// Errors of the in-process transport.
#[derive(Debug)]
pub enum TokioLocalError {
    /// The other end is gone.
    ChannelClosed,
}

impl ErrorText for TokioLocalError {
    open spec fn text(&self) -> Seq<char> {
        "channel closed"@
    }

    fn to_text(&self) -> (text: String) {
        "channel closed".to_owned()
    }
}

impl TokioLocalError {
    /// What a channel operation means for the call that it belongs to: the
    /// only way to fail is that the other end is gone.
    pub fn from_channel<T, E>(result: Result<T, E>) -> (outcome: Result<T, Self>)
        ensures
            outcome == match result {
                Ok(value) => Ok::<T, TokioLocalError>(value),
                Err(_) => Err(TokioLocalError::ChannelClosed),
            },
    {
        match result {
            Ok(value) => Ok(value),
            Err(_) => Err(TokioLocalError::ChannelClosed),
        }
    }

    /// What a receipt means for the server: nothing more to receive means
    /// that all clients are gone.
    pub fn from_receipt<T>(received: Option<T>) -> (outcome: Result<T, Self>)
        ensures
            outcome == match received {
                Some(value) => Ok::<T, TokioLocalError>(value),
                None => Err(TokioLocalError::ChannelClosed),
            },
    {
        match received {
            Some(value) => Ok(value),
            None => Err(TokioLocalError::ChannelClosed),
        }
    }
}

impl<T> TransportResult<T> for TokioLocalError {
    type Output = Result<T, CallError<TokioLocalError>>;

    open spec fn output(result: Result<T, Self>) -> Self::Output {
        crate::error::call_result(result)
    }

    fn into_output(result: Result<T, Self>) -> (output: Self::Output) {
        crate::error::into_call_result(result)
    }
}

} // verus!
