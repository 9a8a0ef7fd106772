//! The math service: requests, responses, clients and dispatch.

use vstd::prelude::*;

use crate::block_on::BlockOn;
use crate::error::TransportResult;
use crate::stream::mux::ServiceApiId;
use crate::transport::{ClientTransport, ServerTransport};
use core::future::Future;

verus! {

/// The id of the math service on the wire.
pub const MATH_API_ID: u16 = 0x0002;

/// Names the math service.
pub struct Math;

impl ServiceApiId for Math {
    const API_ID: u16 = MATH_API_ID;
}

/// A request to a calculator.
#[derive(Debug)]
pub enum MathRequest {
    Add { a: i32, b: i32 },
    Multiply { a: i32, b: i32 },
}

/// The answer of a calculator.
#[derive(Debug)]
pub enum MathResponse {
    Add(i64),
    Multiply(i64),
}

/// A calculator that may take its time.
pub trait MathService {
    /// The pending sum.
    type Add<'a>: Future<Output = i64> where Self: 'a;

    /// The pending product.
    type Multiply<'a>: Future<Output = i64> where Self: 'a;

    /// Whether `sum` may be given for the sum of `a` and `b`.
    open spec fn adds(&self, a: i32, b: i32, sum: i64) -> bool {
        true
    }

    /// Whether `product` may be given for the product of `a` and `b`.
    open spec fn multiplies(&self, a: i32, b: i32, product: i64) -> bool {
        true
    }

    /// The sum of two numbers.
    fn add<'a>(&'a self, a: i32, b: i32) -> (pending: Self::Add<'a>)
        ensures
            self.adds(a, b, vstd::future::FutureAdditionalSpecFns::view(&pending)),
    ;

    /// The product of two numbers.
    fn multiply<'a>(&'a self, a: i32, b: i32) -> (pending: Self::Multiply<'a>)
        ensures
            self.multiplies(a, b, vstd::future::FutureAdditionalSpecFns::view(&pending)),
    ;
}

/// A calculator that answers at once.
pub trait MathServiceSync {
    /// Whether `sum` may be given for the sum of `a` and `b`.
    open spec fn adds(&self, a: i32, b: i32, sum: i64) -> bool {
        true
    }

    /// Whether `product` may be given for the product of `a` and `b`.
    open spec fn multiplies(&self, a: i32, b: i32, product: i64) -> bool {
        true
    }

    /// The sum of two numbers.
    fn add(&self, a: i32, b: i32) -> (sum: i64)
        ensures
            self.adds(a, b, sum),
    ;

    /// The product of two numbers.
    fn multiply(&self, a: i32, b: i32) -> (product: i64)
        ensures
            self.multiplies(a, b, product),
    ;
}

/// Whether `resp` may answer `req`, given which sums and products the
/// calculator may give.
pub open spec fn math_answers(
    adds: spec_fn(i32, i32, i64) -> bool,
    multiplies: spec_fn(i32, i32, i64) -> bool,
    req: MathRequest,
    resp: MathResponse,
) -> bool {
    match req {
        MathRequest::Add { a, b } => resp matches MathResponse::Add(sum) && adds(a, b, sum),
        MathRequest::Multiply { a, b } => resp matches MathResponse::Multiply(product)
            && multiplies(a, b, product),
    }
}

/// An answer that is pending. `A` is the pending sum, `M` the pending product.
pub enum MathPending<A, M> {
    /// The sum is pending.
    Add(A),
    /// The product is pending.
    Multiply(M),
}

/// Begins to answer a request: every variant goes to its own function.
pub fn math_begin<'a, S: MathService>(svc: &'a S, req: MathRequest) -> (pending: MathPending<
    S::Add<'a>,
    S::Multiply<'a>,
>)
    ensures
        match req {
            MathRequest::Add { a, b } => pending matches MathPending::Add(sum) && svc.adds(
                a,
                b,
                vstd::future::FutureAdditionalSpecFns::view(&sum),
            ),
            MathRequest::Multiply { a, b } => pending matches MathPending::Multiply(product)
                && svc.multiplies(a, b, vstd::future::FutureAdditionalSpecFns::view(&product)),
        },
{
    match req {
        MathRequest::Add { a, b } => MathPending::Add(svc.add(a, b)),
        MathRequest::Multiply { a, b } => MathPending::Multiply(svc.multiply(a, b)),
    }
}

/// Answers a request: every variant goes to its own function, and the answer
/// is of the variant with the same name. What takes time is blocked on.
pub fn math_dispatch<S: MathService, B: BlockOn>(svc: &S, req: MathRequest, block_on: &B) -> (resp:
    MathResponse)
    ensures
        math_answers(
            |a: i32, b: i32, n: i64| svc.adds(a, b, n),
            |a: i32, b: i32, n: i64| svc.multiplies(a, b, n),
            req,
            resp,
        ),
{
    match math_begin(svc, req) {
        MathPending::Add(pending) => {
            let sum: i64 = block_on.block_on(pending);
            assert(svc.adds(req->Add_a, req->Add_b, sum));
            MathResponse::Add(sum)
        },
        MathPending::Multiply(pending) => {
            let product: i64 = block_on.block_on(pending);
            assert(svc.multiplies(req->Multiply_a, req->Multiply_b, product));
            MathResponse::Multiply(product)
        },
    }
}

/// Answers a request: every variant goes to its own function, and the answer
/// is of the variant with the same name.
pub fn math_dispatch_sync<S: MathServiceSync>(svc: &S, req: MathRequest) -> (resp: MathResponse)
    ensures
        math_answers(
            |a: i32, b: i32, n: i64| svc.adds(a, b, n),
            |a: i32, b: i32, n: i64| svc.multiplies(a, b, n),
            req,
            resp,
        ),
{
    match req {
        MathRequest::Add { a, b } => MathResponse::Add(svc.add(a, b)),
        MathRequest::Multiply { a, b } => MathResponse::Multiply(svc.multiply(a, b)),
    }
}

/// Serves one request: receives it, answers it and sends the answer. A failed
/// receipt ends the service; a failed reply does not. What takes time is
/// blocked on.
pub fn math_serve_step<S, T, B>(svc: &S, transport: &mut T, block_on: &B) -> (step: Result<
    (),
    T::Error,
>) where S: MathService, T: ServerTransport<MathRequest, MathResponse>, B: BlockOn
    ensures
        crate::transport::serves_one(
            old(transport),
            final(transport),
            |q: MathRequest, r: MathResponse|
                math_answers(
                    |a: i32, b: i32, n: i64| svc.adds(a, b, n),
                    |a: i32, b: i32, n: i64| svc.multiplies(a, b, n),
                    q,
                    r,
                ),
            step,
        ),
{
    let received = block_on.block_on(transport.recv());
    match received {
        Ok((req, token)) => {
            let resp = math_dispatch(svc, req, block_on);
            let sent = block_on.block_on(transport.reply(token, resp));
            assert(transport.replies(token, resp, sent));
            Ok(())
        },
        Err(e) => Err(e),
    }
}

/// Serves one request: receives it, answers it and sends the answer. A failed
/// receipt ends the service; a failed reply does not.
pub fn math_serve_sync_step<S, T, B>(svc: &S, transport: &mut T, block_on: &B) -> (step: Result<
    (),
    T::Error,
>) where S: MathServiceSync, T: ServerTransport<MathRequest, MathResponse>, B: BlockOn
    ensures
        crate::transport::serves_one(
            old(transport),
            final(transport),
            |q: MathRequest, r: MathResponse|
                math_answers(
                    |a: i32, b: i32, n: i64| svc.adds(a, b, n),
                    |a: i32, b: i32, n: i64| svc.multiplies(a, b, n),
                    q,
                    r,
                ),
            step,
        ),
{
    let received = block_on.block_on(transport.recv());
    match received {
        Ok((req, token)) => {
            let resp = math_dispatch_sync(svc, req);
            let sent = block_on.block_on(transport.reply(token, resp));
            assert(transport.replies(token, resp, sent));
            Ok(())
        },
        Err(e) => Err(e),
    }
}

/// The sum in a result, if it holds one.
pub open spec fn add_result<E>(result: Result<MathResponse, E>) -> Result<i64, E> {
    match result {
        Ok(resp) => Ok(resp->Add_0),
        Err(e) => Err(e),
    }
}

/// The product in a result, if it holds one.
pub open spec fn multiply_result<E>(result: Result<MathResponse, E>) -> Result<i64, E> {
    match result {
        Ok(resp) => Ok(resp->Multiply_0),
        Err(e) => Err(e),
    }
}

/// The sum in a result, if it holds one.
pub fn sum_of<E>(result: Result<MathResponse, E>) -> (value: Result<i64, E>)
    requires
        result matches Ok(resp) ==> resp is Add,
    ensures
        value == add_result(result),
{
    match result {
        Ok(MathResponse::Add(value)) => Ok(value),
        Ok(_) => vstd::pervasive::unreached(),
        Err(e) => Err(e),
    }
}

/// The product in a result, if it holds one.
pub fn product_of<E>(result: Result<MathResponse, E>) -> (value: Result<i64, E>)
    requires
        result matches Ok(resp) ==> resp is Multiply,
    ensures
        value == multiply_result(result),
{
    match result {
        Ok(MathResponse::Multiply(value)) => Ok(value),
        Ok(_) => vstd::pervasive::unreached(),
        Err(e) => Err(e),
    }
}

/// Client of a calculator.
pub struct MathClient<T> {
    transport: T,
}

impl<T> MathClient<T> where T: ClientTransport<MathRequest, MathResponse> {
    /// The transport that the client calls through.
    pub closed spec fn link(&self) -> T {
        self.transport
    }

    /// A client that calls through `transport`.
    pub fn new(transport: T) -> (client: Self)
        ensures
            client.link() == transport,
    {
        MathClient { transport }
    }

    /// Asks for a sum; [`MathClient::add_output`] reads the reply.
    pub fn add<'a>(&'a self, a: i32, b: i32) -> (pending: T::Call<'a>)
        ensures
            self.link().answers(
                MathRequest::Add { a, b },
                vstd::future::FutureAdditionalSpecFns::view(&pending),
            ),
    {
        self.transport.call(MathRequest::Add { a, b })
    }

    /// What the caller gets of a reply to [`MathClient::add`].
    pub fn add_output(result: Result<MathResponse, T::Error>) -> (output: <T::Error as
        TransportResult<i64>>::Output) where T::Error: TransportResult<i64>
        requires
            result matches Ok(resp) ==> resp is Add,
        ensures
            output == <T::Error as TransportResult<i64>>::output(add_result(result)),
    {
        <T::Error as TransportResult<i64>>::into_output(sum_of(result))
    }

    /// Asks for a product; [`MathClient::multiply_output`] reads the reply.
    pub fn multiply<'a>(&'a self, a: i32, b: i32) -> (pending: T::Call<'a>)
        ensures
            self.link().answers(
                MathRequest::Multiply { a, b },
                vstd::future::FutureAdditionalSpecFns::view(&pending),
            ),
    {
        self.transport.call(MathRequest::Multiply { a, b })
    }

    /// What the caller gets of a reply to [`MathClient::multiply`].
    pub fn multiply_output(result: Result<MathResponse, T::Error>) -> (output: <T::Error as
        TransportResult<i64>>::Output) where T::Error: TransportResult<i64>
        requires
            result matches Ok(resp) ==> resp is Multiply,
        ensures
            output == <T::Error as TransportResult<i64>>::output(multiply_result(result)),
    {
        <T::Error as TransportResult<i64>>::into_output(product_of(result))
    }
}

/// Client of a calculator that blocks until the reply is there.
pub struct MathClientSync<T, B> {
    inner: MathClient<T>,
    block_on: B,
}

impl<T, B> MathClientSync<T, B> where
    T: ClientTransport<MathRequest, MathResponse>,
    B: BlockOn,
 {
    /// The transport that the client calls through.
    pub closed spec fn link(&self) -> T {
        self.inner.link()
    }

    /// A client that blocks on `block_on`.
    pub fn new(inner: MathClient<T>, block_on: B) -> (client: Self)
        ensures
            client.link() == inner.link(),
    {
        MathClientSync { inner, block_on }
    }

    /// Asks for a sum.
    pub fn add(&self, a: i32, b: i32) -> (output: <T::Error as TransportResult<i64>>::Output) where
        T::Error: TransportResult<i64>,

        requires
            forall|resp: MathResponse| #[trigger]
                self.link().answers(MathRequest::Add { a, b }, Ok(resp)) ==> resp is Add,
        ensures
            exists|reply: Result<MathResponse, T::Error>| #[trigger]
                self.link().answers(MathRequest::Add { a, b }, reply) && output
                    == <T::Error as TransportResult<i64>>::output(add_result(reply)),
    {
        let reply = self.block_on.block_on(self.inner.add(a, b));
        assert(self.link().answers(MathRequest::Add { a, b }, reply));
        MathClient::<T>::add_output(reply)
    }

    /// Asks for a product.
    pub fn multiply(&self, a: i32, b: i32) -> (output: <T::Error as TransportResult<i64>>::Output) where
        T::Error: TransportResult<i64>,

        requires
            forall|resp: MathResponse| #[trigger]
                self.link().answers(MathRequest::Multiply { a, b }, Ok(resp)) ==> resp is Multiply,
        ensures
            exists|reply: Result<MathResponse, T::Error>| #[trigger]
                self.link().answers(MathRequest::Multiply { a, b }, reply) && output
                    == <T::Error as TransportResult<i64>>::output(multiply_result(reply)),
    {
        let reply = self.block_on.block_on(self.inner.multiply(a, b));
        assert(self.link().answers(MathRequest::Multiply { a, b }, reply));
        MathClient::<T>::multiply_output(reply)
    }
}

/// An answer is of the variant that its request asks for, so a client can
/// read every answer.
pub proof fn law_answers_match_requests(
    adds: spec_fn(i32, i32, i64) -> bool,
    multiplies: spec_fn(i32, i32, i64) -> bool,
    req: MathRequest,
    resp: MathResponse,
)
    requires
        math_answers(adds, multiplies, req, resp),
    ensures
        req is Add <==> resp is Add,
        req is Multiply <==> resp is Multiply,
{
}

/// A client hands out what the response to its request holds, and the error of
/// the transport as it is.
pub proof fn law_client_unwraps_the_response<E>(value: i64, error: E)
    ensures
        add_result(Ok::<_, E>(MathResponse::Add(value))) == Ok::<i64, E>(value),
        multiply_result(Ok::<_, E>(MathResponse::Multiply(value))) == Ok::<i64, E>(value),
        add_result(Err::<MathResponse, E>(error)) == Err::<i64, E>(error),
        multiply_result(Err::<MathResponse, E>(error)) == Err::<i64, E>(error),
{
}

/// The function of a request gets the operands in the order in which they were
/// sent, and what it returns is what the response holds.
pub proof fn law_function_gets_what_was_sent(
    adds: spec_fn(i32, i32, i64) -> bool,
    multiplies: spec_fn(i32, i32, i64) -> bool,
    a: i32,
    b: i32,
    resp: MathResponse,
)
    ensures
        math_answers(adds, multiplies, MathRequest::Add { a, b }, resp) ==> adds(a, b, resp->Add_0),
        math_answers(adds, multiplies, MathRequest::Multiply { a, b }, resp) ==> multiplies(
            a,
            b,
            resp->Multiply_0,
        ),
{
}

} // verus!
