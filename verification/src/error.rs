//! Errors of service calls, and how they read.

use vstd::prelude::*;

use core::convert::Infallible;

verus! {

/// An error with a one-line description.
pub trait ErrorText {
    /// The description.
    spec fn text(&self) -> Seq<char>;

    /// The description of the error.
    fn to_text(&self) -> (text: String)
        ensures
            text@ == self.text(),
    ;
}

/// A message describes itself.
impl ErrorText for String {
    open spec fn text(&self) -> Seq<char> {
        self@
    }

    fn to_text(&self) -> (text: String) {
        self.clone()
    }
}

/// Why a service call failed. `E` is the transport's own error.
#[derive(Debug)]
pub enum CallError<E> {
    /// The transport failed.
    Transport(E),
    /// The service dropped the request without an answer.
    Cancelled,
}

impl<E: ErrorText> ErrorText for CallError<E> {
    open spec fn text(&self) -> Seq<char> {
        match self {
            CallError::Transport(e) => "transport error: "@ + e.text(),
            CallError::Cancelled => "request cancelled by service"@,
        }
    }

    fn to_text(&self) -> (text: String) {
        match self {
            CallError::Transport(e) => text_with("transport error: ", e.to_text().as_str()),
            CallError::Cancelled => "request cancelled by service".to_owned(),
        }
    }
}

/// `prefix` followed by `detail`.
pub fn text_with(prefix: &str, detail: &str) -> (text: String)
    ensures
        text@ == prefix@ + detail@,
{
    let mut text = prefix.to_owned();
    text.append(detail);
    text
}

/// How the result of a transport reaches the caller of a client method.
///
/// A transport that cannot fail hands out the plain value; any other hands
/// out a `Result` with a [`CallError`].
pub trait TransportResult<T>: Sized {
    /// What the client method returns.
    type Output;

    /// What the client method returns for this transport result.
    spec fn output(result: Result<T, Self>) -> Self::Output;

    /// Converts a transport result.
    fn into_output(result: Result<T, Self>) -> (output: Self::Output)
        ensures
            output == Self::output(result),
    ;
}

impl<T> TransportResult<T> for Infallible {
    type Output = T;

    open spec fn output(result: Result<T, Self>) -> T {
        result->Ok_0
    }

    fn into_output(result: Result<T, Self>) -> (output: T) {
        let Ok(value) = result;
        value
    }
}

/// `result` as a client method of a transport that can fail returns it.
pub open spec fn call_result<T, E>(result: Result<T, E>) -> Result<T, CallError<E>> {
    match result {
        Ok(value) => Ok(value),
        Err(e) => Err(CallError::Transport(e)),
    }
}

/// Wraps a transport's error into a [`CallError`].
pub fn into_call_result<T, E>(result: Result<T, E>) -> (output: Result<T, CallError<E>>)
    ensures
        output == call_result(result),
{
    match result {
        Ok(value) => Ok(value),
        Err(e) => Err(CallError::Transport(e)),
    }
}

/// A call that succeeds hands out its value, and a call whose transport fails
/// hands out that error as one of the transport.
pub proof fn law_call_result_keeps_value_and_error<T, E>(result: Result<T, E>)
    ensures
        result matches Ok(value) ==> call_result(result) == Ok::<T, CallError<E>>(value),
        result matches Err(e) ==> call_result(result) == Err::<T, CallError<E>>(
            CallError::Transport(e),
        ),
{
}

} // verus!
