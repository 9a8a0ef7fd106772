//! The greeter service: requests, responses, clients and dispatch.

use vstd::prelude::*;

use crate::block_on::BlockOn;
use crate::error::TransportResult;
use crate::stream::mux::ServiceApiId;
use crate::transport::{ClientTransport, ServerTransport};
use core::future::Future;

verus! {

/// The id of the greeter service on the wire.
pub const GREETER_API_ID: u16 = 0x0001;

/// Names the greeter service.
pub struct Greeter;

impl ServiceApiId for Greeter {
    const API_ID: u16 = GREETER_API_ID;
}

/// A request to a greeter.
#[derive(Debug)]
pub enum GreeterRequest {
    Greet { name: String },
    Health,
    Reset,
}

/// The answer of a greeter.
#[derive(Debug)]
pub enum GreeterResponse {
    Greet(String),
    Health(bool),
    Reset,
}

/// A greeter that may take its time to greet.
pub trait GreeterService {
    /// The pending greeting.
    type Greet<'a>: Future<Output = String> where Self: 'a;

    /// Whether `name` may be greeted with `greeting`.
    open spec fn greets(&self, name: String, greeting: String) -> bool {
        true
    }

    /// Whether the greeter may report `healthy`.
    open spec fn reports(&self, healthy: bool) -> bool {
        true
    }

    /// Greets `name`.
    fn greet<'a>(&'a self, name: String) -> (pending: Self::Greet<'a>)
        ensures
            self.greets(name, vstd::future::FutureAdditionalSpecFns::view(&pending)),
    ;

    /// Whether the greeter is well.
    fn health(&self) -> (healthy: bool)
        ensures
            self.reports(healthy),
    ;

    /// Whether the greeter has started over.
    open spec fn has_reset(&self) -> bool {
        true
    }

    /// Starts over.
    fn reset(&self)
        ensures
            self.has_reset(),
    ;
}

/// A greeter that answers at once.
pub trait GreeterServiceSync {
    /// Whether `name` may be greeted with `greeting`.
    open spec fn greets(&self, name: String, greeting: String) -> bool {
        true
    }

    /// Whether the greeter may report `healthy`.
    open spec fn reports(&self, healthy: bool) -> bool {
        true
    }

    /// Greets `name`.
    fn greet(&self, name: String) -> (greeting: String)
        ensures
            self.greets(name, greeting),
    ;

    /// Whether the greeter is well.
    fn health(&self) -> (healthy: bool)
        ensures
            self.reports(healthy),
    ;

    /// Whether the greeter has started over.
    open spec fn has_reset(&self) -> bool {
        true
    }

    /// Starts over.
    fn reset(&self)
        ensures
            self.has_reset(),
    ;
}

/// Whether `resp` may answer `req`, given which greetings and reports the
/// greeter may make and whether it has started over.
pub open spec fn greeter_answers(
    greets: spec_fn(String, String) -> bool,
    reports: spec_fn(bool) -> bool,
    has_reset: bool,
    req: GreeterRequest,
    resp: GreeterResponse,
) -> bool {
    match req {
        GreeterRequest::Greet { name } => resp matches GreeterResponse::Greet(greeting) && greets(
            name,
            greeting,
        ),
        GreeterRequest::Health => resp matches GreeterResponse::Health(healthy) && reports(healthy),
        GreeterRequest::Reset => resp is Reset && has_reset,
    }
}

/// An answer that may be pending. `G` is the pending greeting.
pub enum GreeterPending<G> {
    /// The greeting is pending.
    Greet(G),
    /// The answer is there.
    Done(GreeterResponse),
}

/// Begins to answer a request: every variant goes to its own function. A
/// greeting that is awaited answers a request for it.
pub fn greeter_begin<'a, S: GreeterService>(svc: &'a S, req: GreeterRequest) -> (pending:
    GreeterPending<S::Greet<'a>>)
    ensures
        match req {
            GreeterRequest::Greet { name } => pending matches GreeterPending::Greet(greeting)
                && svc.greets(name, vstd::future::FutureAdditionalSpecFns::view(&greeting)),
            _ => pending matches GreeterPending::Done(resp) && greeter_answers(
                |n: String, g: String| svc.greets(n, g),
                |h: bool| svc.reports(h),
                svc.has_reset(),
                req,
                resp,
            ),
        },
{
    match req {
        GreeterRequest::Greet { name } => GreeterPending::Greet(svc.greet(name)),
        GreeterRequest::Health => GreeterPending::Done(GreeterResponse::Health(svc.health())),
        GreeterRequest::Reset => {
            svc.reset();
            GreeterPending::Done(GreeterResponse::Reset)
        },
    }
}

/// Answers a request: every variant goes to its own function, and the answer
/// is of the variant with the same name. What takes time is blocked on.
pub fn greeter_dispatch<S: GreeterService, B: BlockOn>(
    svc: &S,
    req: GreeterRequest,
    block_on: &B,
) -> (resp: GreeterResponse)
    ensures
        greeter_answers(
            |n: String, g: String| svc.greets(n, g),
            |h: bool| svc.reports(h),
            svc.has_reset(),
            req,
            resp,
        ),
{
    match greeter_begin(svc, req) {
        GreeterPending::Greet(pending) => {
            let greeting = block_on.block_on(pending);
            assert(svc.greets(req->Greet_name, greeting));
            GreeterResponse::Greet(greeting)
        },
        GreeterPending::Done(resp) => resp,
    }
}

/// Answers a request: every variant goes to its own function, and the answer
/// is of the variant with the same name.
pub fn greeter_dispatch_sync<S: GreeterServiceSync>(svc: &S, req: GreeterRequest) -> (resp:
    GreeterResponse)
    ensures
        greeter_answers(
            |n: String, g: String| svc.greets(n, g),
            |h: bool| svc.reports(h),
            svc.has_reset(),
            req,
            resp,
        ),
{
    match req {
        GreeterRequest::Greet { name } => GreeterResponse::Greet(svc.greet(name)),
        GreeterRequest::Health => GreeterResponse::Health(svc.health()),
        GreeterRequest::Reset => {
            svc.reset();
            GreeterResponse::Reset
        },
    }
}

/// Serves one request: receives it, answers it and sends the answer. A failed
/// receipt ends the service; a failed reply does not. What takes time is
/// blocked on.
pub fn greeter_serve_step<S, T, B>(svc: &S, transport: &mut T, block_on: &B) -> (step: Result<
    (),
    T::Error,
>) where S: GreeterService, T: ServerTransport<GreeterRequest, GreeterResponse>, B: BlockOn
    ensures
        crate::transport::serves_one(
            old(transport),
            final(transport),
            |q: GreeterRequest, r: GreeterResponse|
                greeter_answers(
                    |n: String, g: String| svc.greets(n, g),
                    |h: bool| svc.reports(h),
                    svc.has_reset(),
                    q,
                    r,
                ),
            step,
        ),
{
    let received = block_on.block_on(transport.recv());
    match received {
        Ok((req, token)) => {
            let resp = greeter_dispatch(svc, req, block_on);
            let sent = block_on.block_on(transport.reply(token, resp));
            assert(transport.replies(token, resp, sent));
            Ok(())
        },
        Err(e) => Err(e),
    }
}

/// Serves one request: receives it, answers it and sends the answer. A failed
/// receipt ends the service; a failed reply does not.
pub fn greeter_serve_sync_step<S, T, B>(svc: &S, transport: &mut T, block_on: &B) -> (step: Result<
    (),
    T::Error,
>) where S: GreeterServiceSync, T: ServerTransport<GreeterRequest, GreeterResponse>, B: BlockOn
    ensures
        crate::transport::serves_one(
            old(transport),
            final(transport),
            |q: GreeterRequest, r: GreeterResponse|
                greeter_answers(
                    |n: String, g: String| svc.greets(n, g),
                    |h: bool| svc.reports(h),
                    svc.has_reset(),
                    q,
                    r,
                ),
            step,
        ),
{
    let received = block_on.block_on(transport.recv());
    match received {
        Ok((req, token)) => {
            let resp = greeter_dispatch_sync(svc, req);
            let sent = block_on.block_on(transport.reply(token, resp));
            assert(transport.replies(token, resp, sent));
            Ok(())
        },
        Err(e) => Err(e),
    }
}

/// The greeting in a result, if it holds one.
pub open spec fn greet_result<E>(result: Result<GreeterResponse, E>) -> Result<String, E> {
    match result {
        Ok(resp) => Ok(resp->Greet_0),
        Err(e) => Err(e),
    }
}

/// The health in a result, if it holds one.
pub open spec fn health_result<E>(result: Result<GreeterResponse, E>) -> Result<bool, E> {
    match result {
        Ok(resp) => Ok(resp->Health_0),
        Err(e) => Err(e),
    }
}

/// What a reset means to the caller.
pub open spec fn reset_result<E>(result: Result<GreeterResponse, E>) -> Result<(), E> {
    match result {
        Ok(_) => Ok(()),
        Err(e) => Err(e),
    }
}

/// The greeting in a result, if it holds one.
pub fn greeting_of<E>(result: Result<GreeterResponse, E>) -> (value: Result<String, E>)
    requires
        result matches Ok(resp) ==> resp is Greet,
    ensures
        value == greet_result(result),
{
    match result {
        Ok(GreeterResponse::Greet(value)) => Ok(value),
        Ok(_) => vstd::pervasive::unreached(),
        Err(e) => Err(e),
    }
}

/// The health in a result, if it holds one.
pub fn health_of<E>(result: Result<GreeterResponse, E>) -> (value: Result<bool, E>)
    requires
        result matches Ok(resp) ==> resp is Health,
    ensures
        value == health_result(result),
{
    match result {
        Ok(GreeterResponse::Health(value)) => Ok(value),
        Ok(_) => vstd::pervasive::unreached(),
        Err(e) => Err(e),
    }
}

/// What a reset means to the caller.
pub fn reset_of<E>(result: Result<GreeterResponse, E>) -> (value: Result<(), E>)
    requires
        result matches Ok(resp) ==> resp is Reset,
    ensures
        value == reset_result(result),
{
    match result {
        Ok(_) => Ok(()),
        Err(e) => Err(e),
    }
}

/// Client of a greeter.
pub struct GreeterClient<T> {
    transport: T,
}

impl<T> GreeterClient<T> where T: ClientTransport<GreeterRequest, GreeterResponse> {
    /// The transport that the client calls through.
    pub closed spec fn link(&self) -> T {
        self.transport
    }

    /// A client that calls through `transport`.
    pub fn new(transport: T) -> (client: Self)
        ensures
            client.link() == transport,
    {
        GreeterClient { transport }
    }

    /// Asks for a greeting; [`GreeterClient::greet_output`] reads the reply.
    pub fn greet<'a>(&'a self, name: String) -> (pending: T::Call<'a>)
        ensures
            self.link().answers(
                GreeterRequest::Greet { name },
                vstd::future::FutureAdditionalSpecFns::view(&pending),
            ),
    {
        self.transport.call(GreeterRequest::Greet { name })
    }

    /// What the caller gets of a reply to [`GreeterClient::greet`].
    pub fn greet_output(result: Result<GreeterResponse, T::Error>) -> (output: <T::Error as
        TransportResult<String>>::Output) where T::Error: TransportResult<String>
        requires
            result matches Ok(resp) ==> resp is Greet,
        ensures
            output == <T::Error as TransportResult<String>>::output(greet_result(result)),
    {
        <T::Error as TransportResult<String>>::into_output(greeting_of(result))
    }

    /// Asks for the health; [`GreeterClient::health_output`] reads the reply.
    pub fn health<'a>(&'a self) -> (pending: T::Call<'a>)
        ensures
            self.link().answers(
                GreeterRequest::Health,
                vstd::future::FutureAdditionalSpecFns::view(&pending),
            ),
    {
        self.transport.call(GreeterRequest::Health)
    }

    /// What the caller gets of a reply to [`GreeterClient::health`].
    pub fn health_output(result: Result<GreeterResponse, T::Error>) -> (output: <T::Error as
        TransportResult<bool>>::Output) where T::Error: TransportResult<bool>
        requires
            result matches Ok(resp) ==> resp is Health,
        ensures
            output == <T::Error as TransportResult<bool>>::output(health_result(result)),
    {
        <T::Error as TransportResult<bool>>::into_output(health_of(result))
    }

    /// Asks for a reset; [`GreeterClient::reset_output`] reads the reply.
    pub fn reset<'a>(&'a self) -> (pending: T::Call<'a>)
        ensures
            self.link().answers(
                GreeterRequest::Reset,
                vstd::future::FutureAdditionalSpecFns::view(&pending),
            ),
    {
        self.transport.call(GreeterRequest::Reset)
    }

    /// What the caller gets of a reply to [`GreeterClient::reset`].
    pub fn reset_output(result: Result<GreeterResponse, T::Error>) -> (output: <T::Error as
        TransportResult<()>>::Output) where T::Error: TransportResult<()>
        requires
            result matches Ok(resp) ==> resp is Reset,
        ensures
            output == <T::Error as TransportResult<()>>::output(reset_result(result)),
    {
        <T::Error as TransportResult<()>>::into_output(reset_of(result))
    }
}

/// Client of a greeter that blocks until the reply is there.
pub struct GreeterClientSync<T, B> {
    inner: GreeterClient<T>,
    block_on: B,
}

impl<T, B> GreeterClientSync<T, B> where
    T: ClientTransport<GreeterRequest, GreeterResponse>,
    B: BlockOn,
 {
    /// The transport that the client calls through.
    pub closed spec fn link(&self) -> T {
        self.inner.link()
    }

    /// A client that blocks on `block_on`.
    pub fn new(inner: GreeterClient<T>, block_on: B) -> (client: Self)
        ensures
            client.link() == inner.link(),
    {
        GreeterClientSync { inner, block_on }
    }

    /// Asks for a greeting.
    pub fn greet(&self, name: String) -> (output: <T::Error as TransportResult<
        String,
    >>::Output) where T::Error: TransportResult<String>
        requires
            forall|resp: GreeterResponse| #[trigger]
                self.link().answers(GreeterRequest::Greet { name }, Ok(resp)) ==> resp is Greet,
        ensures
            exists|reply: Result<GreeterResponse, T::Error>| #[trigger]
                self.link().answers(GreeterRequest::Greet { name }, reply) && output
                    == <T::Error as TransportResult<String>>::output(greet_result(reply)),
    {
        let reply = self.block_on.block_on(self.inner.greet(name));
        assert(self.link().answers(GreeterRequest::Greet { name }, reply));
        GreeterClient::<T>::greet_output(reply)
    }

    /// Asks for the health.
    pub fn health(&self) -> (output: <T::Error as TransportResult<bool>>::Output) where
        T::Error: TransportResult<bool>,

        requires
            forall|resp: GreeterResponse| #[trigger]
                self.link().answers(GreeterRequest::Health, Ok(resp)) ==> resp is Health,
        ensures
            exists|reply: Result<GreeterResponse, T::Error>| #[trigger]
                self.link().answers(GreeterRequest::Health, reply) && output
                    == <T::Error as TransportResult<bool>>::output(health_result(reply)),
    {
        let reply = self.block_on.block_on(self.inner.health());
        assert(self.link().answers(GreeterRequest::Health, reply));
        GreeterClient::<T>::health_output(reply)
    }

    /// Asks for a reset.
    pub fn reset(&self) -> (output: <T::Error as TransportResult<()>>::Output) where
        T::Error: TransportResult<()>,

        requires
            forall|resp: GreeterResponse| #[trigger]
                self.link().answers(GreeterRequest::Reset, Ok(resp)) ==> resp is Reset,
        ensures
            exists|reply: Result<GreeterResponse, T::Error>| #[trigger]
                self.link().answers(GreeterRequest::Reset, reply) && output
                    == <T::Error as TransportResult<()>>::output(reset_result(reply)),
    {
        let reply = self.block_on.block_on(self.inner.reset());
        assert(self.link().answers(GreeterRequest::Reset, reply));
        GreeterClient::<T>::reset_output(reply)
    }
}

/// An answer is of the variant that its request asks for, so a client can
/// read every answer.
pub proof fn law_answers_match_requests(
    greets: spec_fn(String, String) -> bool,
    reports: spec_fn(bool) -> bool,
    has_reset: bool,
    req: GreeterRequest,
    resp: GreeterResponse,
)
    requires
        greeter_answers(greets, reports, has_reset, req, resp),
    ensures
        req is Greet <==> resp is Greet,
        req is Health <==> resp is Health,
        req is Reset <==> resp is Reset,
{
}

/// A client hands out what the response to its request holds, and the error of
/// the transport as it is.
pub proof fn law_client_unwraps_the_response<E>(greeting: String, healthy: bool, error: E)
    ensures
        greet_result(Ok::<_, E>(GreeterResponse::Greet(greeting))) == Ok::<String, E>(greeting),
        health_result(Ok::<_, E>(GreeterResponse::Health(healthy))) == Ok::<bool, E>(healthy),
        reset_result(Ok::<_, E>(GreeterResponse::Reset)) == Ok::<(), E>(()),
        greet_result(Err::<GreeterResponse, E>(error)) == Err::<String, E>(error),
        health_result(Err::<GreeterResponse, E>(error)) == Err::<bool, E>(error),
        reset_result(Err::<GreeterResponse, E>(error)) == Err::<(), E>(error),
{
}

/// The function of a request gets what the request holds, and what it returns
/// is what the response holds.
pub proof fn law_function_gets_what_was_sent(
    greets: spec_fn(String, String) -> bool,
    reports: spec_fn(bool) -> bool,
    has_reset: bool,
    name: String,
    resp: GreeterResponse,
)
    ensures
        greeter_answers(greets, reports, has_reset, GreeterRequest::Greet { name }, resp)
            ==> greets(name, resp->Greet_0),
        greeter_answers(greets, reports, has_reset, GreeterRequest::Health, resp) ==> reports(
            resp->Health_0,
        ),
        greeter_answers(greets, reports, has_reset, GreeterRequest::Reset, resp) ==> has_reset,
{
}

} // verus!
