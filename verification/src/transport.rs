//! The two halves of a service transport.
//!
//! The client half sends a request and awaits the response; the server half
//! receives a request with a token and answers it through that token.

use vstd::prelude::*;

use core::future::Future;

verus! {

/// Client half of a service transport.
pub trait ClientTransport<Req, Resp> {
    /// What can go wrong in transit.
    type Error;

    /// The pending call.
    type Call<'a>: Future<Output = Result<Resp, Self::Error>> where Self: 'a;

    /// Whether `reply` may come back for `req`; anything may unless a
    /// transport promises more.
    open spec fn answers(&self, req: Req, reply: Result<Resp, Self::Error>) -> bool {
        true
    }

    /// Sends a request; the returned future yields the response.
    fn call<'a>(&'a self, req: Req) -> (pending: Self::Call<'a>)
        ensures
            self.answers(req, vstd::future::FutureAdditionalSpecFns::view(&pending)),
    ;
}

/// Server half of a service transport.
pub trait ServerTransport<Req, Resp> {
    /// What can go wrong in transit.
    type Error;

    /// Names the request that a response belongs to.
    type ReplyToken;

    /// The pending receipt of a request.
    type Recv<'a>: Future<Output = Result<(Req, Self::ReplyToken), Self::Error>> where Self: 'a;

    /// The pending transmission of a response.
    type Reply<'a>: Future<Output = Result<(), Self::Error>> where Self: 'a;

    /// Whether `received` may be what comes in next, and one receipt of it may
    /// lead to `after`; anything may unless a transport promises more.
    open spec fn receives(
        &self,
        after: &Self,
        received: Result<(Req, Self::ReplyToken), Self::Error>,
    ) -> bool {
        true
    }

    /// Receives the next request and the token to answer it with.
    fn recv<'a>(&'a mut self) -> (pending: Self::Recv<'a>)
        ensures
            old(self).receives(
                final(self),
                vstd::future::FutureAdditionalSpecFns::view(&pending),
            ),
    ;

    /// Whether `sent` may be the outcome of answering `token` with `resp`; any
    /// outcome may unless a transport promises more.
    open spec fn replies(
        &self,
        token: Self::ReplyToken,
        resp: Resp,
        sent: Result<(), Self::Error>,
    ) -> bool {
        true
    }

    /// Answers the request that `token` names. The answer is sent when the
    /// returned future is awaited.
    fn reply<'a>(&'a self, token: Self::ReplyToken, resp: Resp) -> (pending: Self::Reply<'a>)
        ensures
            vstd::future::FutureAdditionalSpecFns::awaited(&pending) ==> self.replies(
                token,
                resp,
                vstd::future::FutureAdditionalSpecFns::view(&pending),
            ),
    ;
}

/// What serving one request comes to: exactly one request is received, and it
/// is answered under its own token, whether or not the answer gets through. A
/// failed receipt ends the service with the error of the transport.
pub open spec fn serves_one<Req, Resp, T: ServerTransport<Req, Resp>>(
    before: &T,
    after: &T,
    answers: spec_fn(Req, Resp) -> bool,
    step: Result<(), T::Error>,
) -> bool {
    exists|received: Result<(Req, T::ReplyToken), T::Error>| #[trigger]
        before.receives(after, received) && match received {
            Ok((req, token)) => step is Ok && exists|resp: Resp, sent: Result<(), T::Error>|
                #![trigger after.replies(token, resp, sent)]
                after.replies(token, resp, sent) && answers(req, resp),
            Err(e) => step == Err::<(), T::Error>(e),
        }
}

} // verus!
