//! The greeter and the math service on one transport.

use vstd::prelude::*;

use crate::block_on::BlockOn;
use crate::error::TransportResult;
use crate::services::greeter::{
    greeter_dispatch, greeter_dispatch_sync, greeting_of, health_of, reset_of, GreeterRequest,
    GreeterResponse, GreeterService, GreeterServiceSync,
};
use crate::services::math::{
    math_dispatch, math_dispatch_sync, product_of, sum_of, MathRequest, MathResponse, MathService,
    MathServiceSync,
};
use crate::transport::{ClientTransport, ServerTransport};

verus! {

/// A request to either service.
#[derive(Debug)]
pub enum CombinedRequest {
    Greeter(GreeterRequest),
    Math(MathRequest),
}

/// The answer of either service.
#[derive(Debug)]
pub enum CombinedResponse {
    Greeter(GreeterResponse),
    Math(MathResponse),
}

/// Whether `resp` may answer `req`, given what the two services may answer.
pub open spec fn combined_answers(
    greeter: spec_fn(GreeterRequest, GreeterResponse) -> bool,
    math: spec_fn(MathRequest, MathResponse) -> bool,
    req: CombinedRequest,
    resp: CombinedResponse,
) -> bool {
    match req {
        CombinedRequest::Greeter(inner) => resp matches CombinedResponse::Greeter(r) && greeter(
            inner,
            r,
        ),
        CombinedRequest::Math(inner) => resp matches CombinedResponse::Math(r) && math(inner, r),
    }
}

/// Answers a request through the service that it is meant for. What takes
/// time is blocked on.
pub fn combined_dispatch<S: GreeterService + MathService, B: BlockOn>(
    svc: &S,
    req: CombinedRequest,
    block_on: &B,
) -> (resp: CombinedResponse)
    ensures
        combined_answers(
            |q: GreeterRequest, r: GreeterResponse|
                crate::services::greeter::greeter_answers(
                    |n: String, g: String| svc.greets(n, g),
                    |h: bool| svc.reports(h),
                    svc.has_reset(),
                    q,
                    r,
                ),
            |q: MathRequest, r: MathResponse|
                crate::services::math::math_answers(
                    |a: i32, b: i32, n: i64| svc.adds(a, b, n),
                    |a: i32, b: i32, n: i64| svc.multiplies(a, b, n),
                    q,
                    r,
                ),
            req,
            resp,
        ),
{
    match req {
        CombinedRequest::Greeter(inner) => CombinedResponse::Greeter(
            greeter_dispatch(svc, inner, block_on),
        ),
        CombinedRequest::Math(inner) => CombinedResponse::Math(math_dispatch(svc, inner, block_on)),
    }
}

/// Answers a request through the service that it is meant for.
pub fn combined_dispatch_sync<S: GreeterServiceSync + MathServiceSync>(
    svc: &S,
    req: CombinedRequest,
) -> (resp: CombinedResponse)
    ensures
        combined_answers(
            |q: GreeterRequest, r: GreeterResponse|
                crate::services::greeter::greeter_answers(
                    |n: String, g: String| svc.greets(n, g),
                    |h: bool| svc.reports(h),
                    svc.has_reset(),
                    q,
                    r,
                ),
            |q: MathRequest, r: MathResponse|
                crate::services::math::math_answers(
                    |a: i32, b: i32, n: i64| svc.adds(a, b, n),
                    |a: i32, b: i32, n: i64| svc.multiplies(a, b, n),
                    q,
                    r,
                ),
            req,
            resp,
        ),
{
    match req {
        CombinedRequest::Greeter(inner) => CombinedResponse::Greeter(
            greeter_dispatch_sync(svc, inner),
        ),
        CombinedRequest::Math(inner) => CombinedResponse::Math(math_dispatch_sync(svc, inner)),
    }
}

/// Serves one request: receives it, answers it and sends the answer. A failed
/// receipt ends the service; a failed reply does not. What takes time is
/// blocked on.
pub fn combined_serve_step<S, T, B>(svc: &S, transport: &mut T, block_on: &B) -> (step: Result<
    (),
    T::Error,
>) where S: GreeterService + MathService, T: ServerTransport<CombinedRequest, CombinedResponse>, B: BlockOn
    ensures
        crate::transport::serves_one(
            old(transport),
            final(transport),
            |q: CombinedRequest, r: CombinedResponse|
                combined_answers(
                    |gq: GreeterRequest, gr: GreeterResponse|
                        crate::services::greeter::greeter_answers(
                            |n: String, g: String| svc.greets(n, g),
                            |h: bool| svc.reports(h),
                            svc.has_reset(),
                            gq,
                            gr,
                        ),
                    |mq: MathRequest, mr: MathResponse|
                        crate::services::math::math_answers(
                            |a: i32, b: i32, n: i64| svc.adds(a, b, n),
                            |a: i32, b: i32, n: i64| svc.multiplies(a, b, n),
                            mq,
                            mr,
                        ),
                    q,
                    r,
                ),
            step,
        ),
{
    let received = block_on.block_on(transport.recv());
    match received {
        Ok((req, token)) => {
            let resp = combined_dispatch(svc, req, block_on);
            let sent = block_on.block_on(transport.reply(token, resp));
            assert(transport.replies(token, resp, sent));
            Ok(())
        },
        Err(e) => Err(e),
    }
}

/// Serves one request: receives it, answers it and sends the answer. A failed
/// receipt ends the service; a failed reply does not.
pub fn combined_serve_sync_step<S, T, B>(svc: &S, transport: &mut T, block_on: &B) -> (step: Result<
    (),
    T::Error,
>) where S: GreeterServiceSync + MathServiceSync, T: ServerTransport<CombinedRequest, CombinedResponse>, B: BlockOn
    ensures
        crate::transport::serves_one(
            old(transport),
            final(transport),
            |q: CombinedRequest, r: CombinedResponse|
                combined_answers(
                    |gq: GreeterRequest, gr: GreeterResponse|
                        crate::services::greeter::greeter_answers(
                            |n: String, g: String| svc.greets(n, g),
                            |h: bool| svc.reports(h),
                            svc.has_reset(),
                            gq,
                            gr,
                        ),
                    |mq: MathRequest, mr: MathResponse|
                        crate::services::math::math_answers(
                            |a: i32, b: i32, n: i64| svc.adds(a, b, n),
                            |a: i32, b: i32, n: i64| svc.multiplies(a, b, n),
                            mq,
                            mr,
                        ),
                    q,
                    r,
                ),
            step,
        ),
{
    let received = block_on.block_on(transport.recv());
    match received {
        Ok((req, token)) => {
            let resp = combined_dispatch_sync(svc, req);
            let sent = block_on.block_on(transport.reply(token, resp));
            assert(transport.replies(token, resp, sent));
            Ok(())
        },
        Err(e) => Err(e),
    }
}

/// Client of both services.
pub struct CombinedClient<T> {
    transport: T,
}

impl<T> CombinedClient<T> where T: ClientTransport<CombinedRequest, CombinedResponse> {
    /// The transport that the client calls through.
    pub closed spec fn link(&self) -> T {
        self.transport
    }

    /// A client that calls through `transport`.
    pub fn new(transport: T) -> (client: Self)
        ensures
            client.link() == transport,
    {
        CombinedClient { transport }
    }

    /// Calls the greeter; [`greeter_reply`] reads the reply.
    pub fn greeter<'a>(&'a self, req: GreeterRequest) -> (pending: T::Call<'a>)
        ensures
            self.link().answers(
                CombinedRequest::Greeter(req),
                vstd::future::FutureAdditionalSpecFns::view(&pending),
            ),
    {
        self.transport.call(CombinedRequest::Greeter(req))
    }

    /// Calls the calculator; [`math_reply`] reads the reply.
    pub fn math<'a>(&'a self, req: MathRequest) -> (pending: T::Call<'a>)
        ensures
            self.link().answers(
                CombinedRequest::Math(req),
                vstd::future::FutureAdditionalSpecFns::view(&pending),
            ),
    {
        self.transport.call(CombinedRequest::Math(req))
    }
}

/// The greeter's answer in a result, if it holds one.
pub open spec fn greeter_part<E>(result: Result<CombinedResponse, E>) -> Result<
    GreeterResponse,
    E,
> {
    match result {
        Ok(resp) => Ok(resp->Greeter_0),
        Err(e) => Err(e),
    }
}

/// The calculator's answer in a result, if it holds one.
pub open spec fn math_part<E>(result: Result<CombinedResponse, E>) -> Result<MathResponse, E> {
    match result {
        Ok(resp) => Ok(resp->Math_0),
        Err(e) => Err(e),
    }
}

/// What the greeter's client gets of a reply.
pub fn greeter_reply<E>(result: Result<CombinedResponse, E>) -> (reply: Result<GreeterResponse, E>)
    requires
        result matches Ok(resp) ==> resp is Greeter,
    ensures
        reply == greeter_part(result),
{
    match result {
        Ok(CombinedResponse::Greeter(inner)) => Ok(inner),
        Ok(_) => vstd::pervasive::unreached(),
        Err(e) => Err(e),
    }
}

/// What the calculator's client gets of a reply.
pub fn math_reply<E>(result: Result<CombinedResponse, E>) -> (reply: Result<MathResponse, E>)
    requires
        result matches Ok(resp) ==> resp is Math,
    ensures
        reply == math_part(result),
{
    match result {
        Ok(CombinedResponse::Math(inner)) => Ok(inner),
        Ok(_) => vstd::pervasive::unreached(),
        Err(e) => Err(e),
    }
}

/// Client of both services that blocks until the reply is there.
pub struct CombinedClientSync<T, B> {
    transport: T,
    block_on: B,
}

impl<T, B> CombinedClientSync<T, B> where
    T: ClientTransport<CombinedRequest, CombinedResponse>,
    B: BlockOn,
 {
    /// The transport that the client calls through.
    pub closed spec fn link(&self) -> T {
        self.transport
    }

    /// A client that blocks on `block_on`.
    pub fn new(client: CombinedClient<T>, block_on: B) -> (sync: Self)
        ensures
            sync.link() == client.link(),
    {
        CombinedClientSync { transport: client.transport, block_on }
    }

    /// The client's side of the greeter.
    pub fn greeter<'a>(&'a self) -> (part: CombinedGreeter<'a, T, B>)
        ensures
            part.link() == self.link(),
    {
        CombinedGreeter { transport: &self.transport, block_on: &self.block_on }
    }

    /// The client's side of the calculator.
    pub fn math<'a>(&'a self) -> (part: CombinedMath<'a, T, B>)
        ensures
            part.link() == self.link(),
    {
        CombinedMath { transport: &self.transport, block_on: &self.block_on }
    }
}

/// The greeter of a combined client.
pub struct CombinedGreeter<'a, T, B> {
    transport: &'a T,
    block_on: &'a B,
}

impl<'a, T, B> CombinedGreeter<'a, T, B> where
    T: ClientTransport<CombinedRequest, CombinedResponse>,
    B: BlockOn,
 {
    /// The transport that the client calls through.
    pub closed spec fn link(&self) -> T {
        *self.transport
    }

    /// Asks for a greeting.
    pub fn greet(&self, name: String) -> (output: <T::Error as TransportResult<String>>::Output) where
        T::Error: TransportResult<String>,

        requires
            forall|resp: CombinedResponse| #[trigger]
                self.link().answers(CombinedRequest::Greeter(GreeterRequest::Greet { name }), Ok(resp)) ==> (
                resp matches CombinedResponse::Greeter(inner) && inner is Greet),
        ensures
            exists|reply: Result<CombinedResponse, T::Error>| #[trigger]
                self.link().answers(CombinedRequest::Greeter(GreeterRequest::Greet { name }), reply) && output
                    == <T::Error as TransportResult<String>>::output(
                    crate::services::greeter::greet_result(greeter_part(reply)),
                ),
    {
        let reply = self.block_on.block_on(
            self.transport.call(CombinedRequest::Greeter(GreeterRequest::Greet { name })),
        );
        assert(self.link().answers(CombinedRequest::Greeter(GreeterRequest::Greet { name }), reply));
        <T::Error as TransportResult<String>>::into_output(greeting_of(greeter_reply(reply)))
    }

    /// Asks for the health.
    pub fn health(&self) -> (output: <T::Error as TransportResult<bool>>::Output) where
        T::Error: TransportResult<bool>,

        requires
            forall|resp: CombinedResponse| #[trigger]
                self.link().answers(CombinedRequest::Greeter(GreeterRequest::Health), Ok(resp)) ==> (
                resp matches CombinedResponse::Greeter(inner) && inner is Health),
        ensures
            exists|reply: Result<CombinedResponse, T::Error>| #[trigger]
                self.link().answers(CombinedRequest::Greeter(GreeterRequest::Health), reply) && output
                    == <T::Error as TransportResult<bool>>::output(
                    crate::services::greeter::health_result(greeter_part(reply)),
                ),
    {
        let reply = self.block_on.block_on(
            self.transport.call(CombinedRequest::Greeter(GreeterRequest::Health)),
        );
        assert(self.link().answers(CombinedRequest::Greeter(GreeterRequest::Health), reply));
        <T::Error as TransportResult<bool>>::into_output(health_of(greeter_reply(reply)))
    }

    /// Asks for a reset.
    pub fn reset(&self) -> (output: <T::Error as TransportResult<()>>::Output) where
        T::Error: TransportResult<()>,

        requires
            forall|resp: CombinedResponse| #[trigger]
                self.link().answers(CombinedRequest::Greeter(GreeterRequest::Reset), Ok(resp)) ==> (
                resp matches CombinedResponse::Greeter(inner) && inner is Reset),
        ensures
            exists|reply: Result<CombinedResponse, T::Error>| #[trigger]
                self.link().answers(CombinedRequest::Greeter(GreeterRequest::Reset), reply) && output
                    == <T::Error as TransportResult<()>>::output(
                    crate::services::greeter::reset_result(greeter_part(reply)),
                ),
    {
        let reply = self.block_on.block_on(
            self.transport.call(CombinedRequest::Greeter(GreeterRequest::Reset)),
        );
        assert(self.link().answers(CombinedRequest::Greeter(GreeterRequest::Reset), reply));
        <T::Error as TransportResult<()>>::into_output(reset_of(greeter_reply(reply)))
    }
}

/// The calculator of a combined client.
pub struct CombinedMath<'a, T, B> {
    transport: &'a T,
    block_on: &'a B,
}

impl<'a, T, B> CombinedMath<'a, T, B> where
    T: ClientTransport<CombinedRequest, CombinedResponse>,
    B: BlockOn,
 {
    /// The transport that the client calls through.
    pub closed spec fn link(&self) -> T {
        *self.transport
    }

    /// Asks for the sum of two numbers.
    pub fn add(&self, a: i32, b: i32) -> (output: <T::Error as TransportResult<i64>>::Output) where
        T::Error: TransportResult<i64>,

        requires
            forall|resp: CombinedResponse| #[trigger]
                self.link().answers(CombinedRequest::Math(MathRequest::Add { a, b }), Ok(resp)) ==> (
                resp matches CombinedResponse::Math(inner) && inner is Add),
        ensures
            exists|reply: Result<CombinedResponse, T::Error>| #[trigger]
                self.link().answers(CombinedRequest::Math(MathRequest::Add { a, b }), reply) && output
                    == <T::Error as TransportResult<i64>>::output(
                    crate::services::math::add_result(math_part(reply)),
                ),
    {
        let reply = self.block_on.block_on(
            self.transport.call(CombinedRequest::Math(MathRequest::Add { a, b })),
        );
        assert(self.link().answers(CombinedRequest::Math(MathRequest::Add { a, b }), reply));
        <T::Error as TransportResult<i64>>::into_output(sum_of(math_reply(reply)))
    }

    /// Asks for the product of two numbers.
    pub fn multiply(&self, a: i32, b: i32) -> (output: <T::Error as TransportResult<i64>>::Output) where
        T::Error: TransportResult<i64>,

        requires
            forall|resp: CombinedResponse| #[trigger]
                self.link().answers(CombinedRequest::Math(MathRequest::Multiply { a, b }), Ok(resp)) ==> (
                resp matches CombinedResponse::Math(inner) && inner is Multiply),
        ensures
            exists|reply: Result<CombinedResponse, T::Error>| #[trigger]
                self.link().answers(CombinedRequest::Math(MathRequest::Multiply { a, b }), reply) && output
                    == <T::Error as TransportResult<i64>>::output(
                    crate::services::math::multiply_result(math_part(reply)),
                ),
    {
        let reply = self.block_on.block_on(
            self.transport.call(CombinedRequest::Math(MathRequest::Multiply { a, b })),
        );
        assert(self.link().answers(CombinedRequest::Math(MathRequest::Multiply { a, b }), reply));
        <T::Error as TransportResult<i64>>::into_output(product_of(math_reply(reply)))
    }
}

/// The composition answers a request as the service does that the request is
/// meant for, and never through the other one.
pub proof fn law_composition_keeps_services_apart(
    greeter: spec_fn(GreeterRequest, GreeterResponse) -> bool,
    math: spec_fn(MathRequest, MathResponse) -> bool,
    req: CombinedRequest,
    resp: CombinedResponse,
)
    requires
        combined_answers(greeter, math, req, resp),
    ensures
        req is Greeter <==> resp is Greeter,
        req is Math <==> resp is Math,
        req is Greeter ==> greeter(req->Greeter_0, resp->Greeter_0),
        req is Math ==> math(req->Math_0, resp->Math_0),
{
}

} // verus!
