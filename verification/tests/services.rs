//! Services: dispatch, clients and serving.

use core::convert::Infallible;
use core::future::{ready, Future, Ready};
use myelin::block_on::BlockOn;
use myelin::error::{CallError, ErrorText};
use myelin::services::combined::{
    combined_dispatch, combined_dispatch_sync, combined_serve_step, combined_serve_sync_step,
    greeter_reply, math_reply, CombinedClient, CombinedClientSync, CombinedRequest,
    CombinedResponse,
};
use myelin::services::greeter::{
    greeter_begin, greeter_dispatch, greeter_dispatch_sync, greeter_serve_step,
    greeter_serve_sync_step, GreeterPending,
    Greeter, GreeterClient, GreeterClientSync, GreeterRequest, GreeterResponse, GreeterService,
    GreeterServiceSync, GREETER_API_ID,
};
use myelin::services::math::{
    math_begin, math_dispatch, math_dispatch_sync, math_serve_step, MathPending, math_serve_sync_step, Math, MathClient,
    MathClientSync, MathRequest, MathResponse, MathService, MathServiceSync, MATH_API_ID,
};
use myelin::services::salutation::Salutation;
use myelin::stream::mux::ServiceApiId;
use myelin::transport::{ClientTransport, ServerTransport};
use myelin::transport_tokio::TokioLocalError;
use std::cell::{Cell, RefCell};
use std::collections::VecDeque;

struct TokioBlockOn;

impl BlockOn for TokioBlockOn {
    fn block_on<F: Future>(&self, fut: F) -> F::Output {
        let rt = tokio::runtime::Builder::new_current_thread().build().unwrap();
        rt.block_on(fut)
    }
}

#[test]
fn generated_enums_exist() {
    let _ = GreeterRequest::Greet { name: String::from("world") };
    let _ = GreeterRequest::Health;
    let _ = GreeterRequest::Reset;

    let _ = GreeterResponse::Greet(String::from("hi"));
    let _ = GreeterResponse::Health(true);
    let _ = GreeterResponse::Reset;

    let _ = MathRequest::Add { a: 1, b: 2 };
    let _ = MathResponse::Add(3);
}

struct MyAsync;

impl GreeterService for MyAsync {
    type Greet<'a> = Ready<String>;

    fn greet<'a>(&'a self, name: String) -> Ready<String> {
        ready(name)
    }

    fn health(&self) -> bool {
        true
    }

    fn reset(&self) {}
}

impl MathService for MyAsync {
    type Add<'a> = Ready<i64>;
    type Multiply<'a> = Ready<i64>;

    fn add<'a>(&'a self, a: i32, b: i32) -> Ready<i64> {
        ready(a as i64 + b as i64)
    }

    fn multiply<'a>(&'a self, a: i32, b: i32) -> Ready<i64> {
        ready(a as i64 * b as i64)
    }
}

struct MySync {
    resets: Cell<u32>,
}

impl MySync {
    fn new() -> Self {
        MySync { resets: Cell::new(0) }
    }
}

impl GreeterServiceSync for MySync {
    fn greet(&self, name: String) -> String {
        name
    }

    fn health(&self) -> bool {
        true
    }

    fn reset(&self) {
        self.resets.set(self.resets.get() + 1);
    }
}

#[test]
fn traits_are_implementable() {
    fn assert_async<T: GreeterService>() {}
    fn assert_sync<T: GreeterServiceSync>() {}
    assert_async::<MyAsync>();
    assert_sync::<MySync>();
}

#[test]
fn dispatch_routes_each_variant() {
    let svc = MyAsync;

    match greeter_dispatch(&svc, GreeterRequest::Greet { name: "x".into() }, &TokioBlockOn) {
        GreeterResponse::Greet(s) => assert_eq!(s, "x"),
        _ => panic!("wrong variant"),
    }
    match greeter_dispatch(&svc, GreeterRequest::Health, &TokioBlockOn) {
        GreeterResponse::Health(b) => assert!(b),
        _ => panic!("wrong variant"),
    }
    match greeter_dispatch(&svc, GreeterRequest::Reset, &TokioBlockOn) {
        GreeterResponse::Reset => {}
        _ => panic!("wrong variant"),
    }
}

#[test]
fn dispatch_sync_routes_each_variant() {
    let svc = MySync::new();

    match greeter_dispatch_sync(&svc, GreeterRequest::Greet { name: "x".into() }) {
        GreeterResponse::Greet(s) => assert_eq!(s, "x"),
        _ => panic!("wrong variant"),
    }
    match greeter_dispatch_sync(&svc, GreeterRequest::Health) {
        GreeterResponse::Health(b) => assert!(b),
        _ => panic!("wrong variant"),
    }
    match greeter_dispatch_sync(&svc, GreeterRequest::Reset) {
        GreeterResponse::Reset => {}
        _ => panic!("wrong variant"),
    }
    assert_eq!(svc.resets.get(), 1);
}

/// Answers one call with a response that was set beforehand.
struct FakeClientTransport<Req, Resp> {
    next_response: RefCell<Option<Resp>>,
    seen: RefCell<Vec<Req>>,
}

impl<Req, Resp> FakeClientTransport<Req, Resp> {
    fn new(resp: Resp) -> Self {
        FakeClientTransport {
            next_response: RefCell::new(Some(resp)),
            seen: RefCell::new(Vec::new()),
        }
    }
}

impl<Req, Resp> ClientTransport<Req, Resp> for FakeClientTransport<Req, Resp> {
    type Error = Infallible;
    type Call<'a> = Ready<Result<Resp, Infallible>> where Self: 'a;

    fn call<'a>(&'a self, req: Req) -> Ready<Result<Resp, Infallible>> {
        self.seen.borrow_mut().push(req);
        ready(Ok(self.next_response.borrow_mut().take().unwrap()))
    }
}

impl<Req, Resp> ClientTransport<Req, Resp> for &FakeClientTransport<Req, Resp> {
    type Error = Infallible;
    type Call<'a> = Ready<Result<Resp, Infallible>> where Self: 'a;

    fn call<'a>(&'a self, req: Req) -> Ready<Result<Resp, Infallible>> {
        (**self).call(req)
    }
}

/// Refuses every call.
struct DeadTransport;

impl<Req, Resp> ClientTransport<Req, Resp> for DeadTransport {
    type Error = TokioLocalError;
    type Call<'a> = Ready<Result<Resp, TokioLocalError>> where Self: 'a;

    fn call<'a>(&'a self, _req: Req) -> Ready<Result<Resp, TokioLocalError>> {
        ready(Err(TokioLocalError::ChannelClosed))
    }
}

#[test]
fn client_round_trip_with_value_return() {
    let t = FakeClientTransport::new(GreeterResponse::Greet("hi".into()));
    let client = GreeterClient::new(&t);
    let reply = TokioBlockOn.block_on(client.greet("ignored".into()));
    let s: String = GreeterClient::<&FakeClientTransport<_, _>>::greet_output(reply);
    assert_eq!(s, "hi");
    match &t.seen.borrow()[0] {
        GreeterRequest::Greet { name } => assert_eq!(name, "ignored"),
        _ => panic!("wrong variant"),
    };
}

#[test]
fn client_round_trip_with_unit_return() {
    let t = FakeClientTransport::new(GreeterResponse::Reset);
    let client = GreeterClient::new(&t);
    let reply = TokioBlockOn.block_on(client.reset());
    let (): () = GreeterClient::<&FakeClientTransport<_, _>>::reset_output(reply);
    assert!(matches!(t.seen.borrow()[0], GreeterRequest::Reset));
}

#[test]
fn client_sync_calls_through_block_on() {
    let t = FakeClientTransport::new(GreeterResponse::Health(true));
    let client = GreeterClient::new(t);
    let sync_client = GreeterClientSync::new(client, TokioBlockOn);
    let b: bool = sync_client.health();
    assert!(b);
}

#[test]
fn sync_client_greets_and_resets() {
    let t = FakeClientTransport::new(GreeterResponse::Greet("hello".into()));
    let client = GreeterClientSync::new(GreeterClient::new(&t), &TokioBlockOn);
    assert_eq!(client.greet("you".into()), "hello");

    let t = FakeClientTransport::new(GreeterResponse::Reset);
    let client = GreeterClientSync::new(GreeterClient::new(&t), &TokioBlockOn);
    client.reset();
    assert!(matches!(t.seen.borrow()[0], GreeterRequest::Reset));
}

#[test]
fn math_client_sends_both_operands() {
    let t = FakeClientTransport::new(MathResponse::Add(5));
    let client = MathClientSync::new(MathClient::new(&t), &TokioBlockOn);
    assert_eq!(client.add(2, 3), 5);
    assert!(matches!(t.seen.borrow()[0], MathRequest::Add { a: 2, b: 3 }));

    let t = FakeClientTransport::new(MathResponse::Multiply(20));
    let client = MathClientSync::new(MathClient::new(&t), &TokioBlockOn);
    assert_eq!(client.multiply(4, 5), 20);
    assert!(matches!(t.seen.borrow()[0], MathRequest::Multiply { a: 4, b: 5 }));
}

#[test]
fn failing_transport_reaches_the_caller() {
    let client = GreeterClientSync::new(GreeterClient::new(DeadTransport), TokioBlockOn);
    match client.greet("you".into()) {
        Err(e) => {
            assert!(matches!(e, CallError::Transport(TokioLocalError::ChannelClosed)));
            assert_eq!(e.to_text(), "transport error: channel closed");
        }
        Ok(_) => panic!("the call cannot succeed"),
    }
    assert!(client.health().is_err());
    assert!(client.reset().is_err());
    let client = MathClientSync::new(MathClient::new(DeadTransport), TokioBlockOn);
    assert!(client.add(1, 2).is_err());
}

#[test]
fn combined_client_reaches_the_right_service() {
    let t = FakeClientTransport::new(CombinedResponse::Greeter(GreeterResponse::Health(true)));
    let client = CombinedClient::new(&t);
    let reply = TokioBlockOn.block_on(client.greeter(GreeterRequest::Health));
    assert!(matches!(greeter_reply(reply), Ok(GreeterResponse::Health(true))));
    assert!(matches!(t.seen.borrow()[0], CombinedRequest::Greeter(GreeterRequest::Health)));

    let t = FakeClientTransport::new(CombinedResponse::Math(MathResponse::Add(3)));
    let client = CombinedClient::new(&t);
    let reply = TokioBlockOn.block_on(client.math(MathRequest::Add { a: 1, b: 2 }));
    assert!(matches!(math_reply(reply), Ok(MathResponse::Add(3))));
    assert!(matches!(
        t.seen.borrow()[0],
        CombinedRequest::Math(MathRequest::Add { a: 1, b: 2 })
    ));
    assert!(matches!(greeter_reply::<u8>(Err(7)), Err(7)));
    assert!(matches!(math_reply::<u8>(Err(9)), Err(9)));
}

#[test]
fn combined_sync_client_reads_the_answers() {
    fn sync<'a>(
        t: &'a FakeClientTransport<CombinedRequest, CombinedResponse>,
    ) -> CombinedClientSync<&'a FakeClientTransport<CombinedRequest, CombinedResponse>, TokioBlockOn>
    {
        CombinedClientSync::new(CombinedClient::new(t), TokioBlockOn)
    }

    let t = FakeClientTransport::new(CombinedResponse::Greeter(GreeterResponse::Greet(
        "hi".into(),
    )));
    assert_eq!(sync(&t).greeter().greet("stdio".into()), "hi");
    assert!(matches!(
        &t.seen.borrow()[0],
        CombinedRequest::Greeter(GreeterRequest::Greet { name }) if name == "stdio"
    ));

    let t = FakeClientTransport::new(CombinedResponse::Greeter(GreeterResponse::Health(false)));
    assert!(!sync(&t).greeter().health());

    let t = FakeClientTransport::new(CombinedResponse::Greeter(GreeterResponse::Reset));
    sync(&t).greeter().reset();
    assert!(matches!(t.seen.borrow()[0], CombinedRequest::Greeter(GreeterRequest::Reset)));

    let t = FakeClientTransport::new(CombinedResponse::Math(MathResponse::Add(30)));
    assert_eq!(sync(&t).math().add(10, 20), 30);
    assert!(matches!(
        t.seen.borrow()[0],
        CombinedRequest::Math(MathRequest::Add { a: 10, b: 20 })
    ));

    let t = FakeClientTransport::new(CombinedResponse::Math(MathResponse::Multiply(42)));
    assert_eq!(sync(&t).math().multiply(6, 7), 42);

    let dead = CombinedClientSync::new(CombinedClient::new(DeadTransport), TokioBlockOn);
    assert!(dead.greeter().health().is_err());
    assert!(dead.math().add(1, 1).is_err());
}

/// Hands out scripted requests and keeps the answers.
struct ScriptedServer<Req, Resp> {
    requests: VecDeque<Req>,
    next_token: u32,
    answers: RefCell<Vec<(u32, Resp)>>,
    fail_replies: bool,
}

impl<Req, Resp> ScriptedServer<Req, Resp> {
    fn new(requests: Vec<Req>, fail_replies: bool) -> Self {
        ScriptedServer {
            requests: requests.into_iter().collect(),
            next_token: 0,
            answers: RefCell::new(Vec::new()),
            fail_replies,
        }
    }
}

impl<Req, Resp> ServerTransport<Req, Resp> for ScriptedServer<Req, Resp> {
    type Error = &'static str;
    type ReplyToken = u32;
    type Recv<'a> = Ready<Result<(Req, u32), &'static str>> where Self: 'a;
    type Reply<'a> = Ready<Result<(), &'static str>> where Self: 'a;

    fn recv<'a>(&'a mut self) -> Ready<Result<(Req, u32), &'static str>> {
        match self.requests.pop_front() {
            Some(req) => {
                self.next_token += 1;
                ready(Ok((req, self.next_token)))
            }
            None => ready(Err("done")),
        }
    }

    fn reply<'a>(&'a self, token: u32, resp: Resp) -> Ready<Result<(), &'static str>> {
        self.answers.borrow_mut().push((token, resp));
        if self.fail_replies {
            ready(Err("lost"))
        } else {
            ready(Ok(()))
        }
    }
}

#[test]
fn serving_answers_under_the_token_of_the_request() {
    let svc = Salutation::new("Hello over stdio, ", "!");
    let requests = vec![
        GreeterRequest::Greet { name: "world".into() },
        GreeterRequest::Health,
        GreeterRequest::Reset,
    ];
    let mut server = ScriptedServer::new(requests, false);
    assert_eq!(greeter_serve_sync_step(&svc, &mut server, &TokioBlockOn), Ok(()));
    assert_eq!(greeter_serve_sync_step(&svc, &mut server, &TokioBlockOn), Ok(()));
    assert_eq!(greeter_serve_sync_step(&svc, &mut server, &TokioBlockOn), Ok(()));
    assert_eq!(greeter_serve_sync_step(&svc, &mut server, &TokioBlockOn), Err("done"));
    let answers = server.answers.borrow();
    assert_eq!(answers.len(), 3);
    assert!(matches!(&answers[0], (1, GreeterResponse::Greet(s)) if s == "Hello over stdio, world!"));
    assert!(matches!(&answers[1], (2, GreeterResponse::Health(true))));
    assert!(matches!(&answers[2], (3, GreeterResponse::Reset)));
}

#[test]
fn failed_reply_does_not_end_the_service() {
    let requests = vec![GreeterRequest::Health, GreeterRequest::Health];
    let mut server = ScriptedServer::new(requests, true);
    assert_eq!(greeter_serve_step(&MyAsync, &mut server, &TokioBlockOn), Ok(()));
    assert_eq!(greeter_serve_step(&MyAsync, &mut server, &TokioBlockOn), Ok(()));
    assert_eq!(greeter_serve_step(&MyAsync, &mut server, &TokioBlockOn), Err("done"));
    assert_eq!(server.answers.borrow().len(), 2);
}

#[test]
fn math_is_served() {
    let mut server = ScriptedServer::new(vec![MathRequest::Add { a: 10, b: 20 }], false);
    assert_eq!(math_serve_step(&MyAsync, &mut server, &TokioBlockOn), Ok(()));
    assert!(matches!(server.answers.borrow()[0], (1, MathResponse::Add(30))));

    let svc = Salutation::new("", "");
    let mut server = ScriptedServer::new(vec![MathRequest::Multiply { a: 6, b: 7 }], false);
    assert_eq!(math_serve_sync_step(&svc, &mut server, &TokioBlockOn), Ok(()));
    assert!(matches!(server.answers.borrow()[0], (1, MathResponse::Multiply(42))));
}

#[test]
fn combined_is_served() {
    let svc = Salutation::new("Combined stdio, ", "!");
    let requests = vec![
        CombinedRequest::Greeter(GreeterRequest::Greet { name: "stdio".into() }),
        CombinedRequest::Math(MathRequest::Add { a: 10, b: 20 }),
    ];
    let mut server = ScriptedServer::new(requests, false);
    assert_eq!(combined_serve_sync_step(&svc, &mut server, &TokioBlockOn), Ok(()));
    assert_eq!(combined_serve_sync_step(&svc, &mut server, &TokioBlockOn), Ok(()));
    assert_eq!(combined_serve_sync_step(&svc, &mut server, &TokioBlockOn), Err("done"));
    let answers = server.answers.borrow();
    assert!(matches!(
        &answers[0],
        (1, CombinedResponse::Greeter(GreeterResponse::Greet(s))) if s == "Combined stdio, stdio!"
    ));
    assert!(matches!(&answers[1], (2, CombinedResponse::Math(MathResponse::Add(30)))));

    let mut server =
        ScriptedServer::new(vec![CombinedRequest::Greeter(GreeterRequest::Health)], false);
    assert_eq!(combined_serve_step(&MyAsync, &mut server, &TokioBlockOn), Ok(()));
    assert!(matches!(
        server.answers.borrow()[0],
        (1, CombinedResponse::Greeter(GreeterResponse::Health(true)))
    ));
}

#[test]
fn arithmetic_does_not_wrap() {
    let svc = Salutation::new("", "");
    assert_eq!(svc.add(2, 3), 5);
    assert_eq!(svc.multiply(4, 5), 20);
    assert_eq!(svc.add(i32::MAX, 1), 2_147_483_648);
    assert_eq!(svc.add(i32::MIN, i32::MIN), -4_294_967_296);
    assert_eq!(svc.multiply(i32::MIN, i32::MIN), 4_611_686_018_427_387_904);
    assert_eq!(svc.multiply(i32::MIN, i32::MAX), -4_611_686_016_279_904_256);
}

#[test]
fn salutation_surrounds_the_name() {
    assert_eq!(Salutation::new("Hello, ", "!").greet("mama".into()), "Hello, mama!");
    assert_eq!(
        Salutation::new("Hi from combined, ", "!").greet("world".into()),
        "Hi from combined, world!"
    );
    assert_eq!(Salutation::casual(1).greet("c1-0".into()), "Yo, c1-0! (server 1)");
    assert_eq!(Salutation::casual(255).greet("x".into()), "Yo, x! (server 255)");
    assert_eq!(
        Salutation::formal().greet("client 1".into()),
        "Good day, client 1. How do you do?"
    );
    let svc = Salutation::new("", "");
    assert_eq!(GreeterServiceSync::greet(&svc, "papa".into()), "papa");
    assert!(GreeterServiceSync::health(&svc));
}

#[test]
fn dispatch_keeps_the_services_apart() {
    let svc = Salutation::new("<", ">");
    match combined_dispatch_sync(&svc, CombinedRequest::Math(MathRequest::Add { a: 2, b: 3 })) {
        CombinedResponse::Math(MathResponse::Add(n)) => assert_eq!(n, 5),
        _ => panic!("wrong variant"),
    }
    match combined_dispatch_sync(
        &svc,
        CombinedRequest::Greeter(GreeterRequest::Greet { name: "a".into() }),
    ) {
        CombinedResponse::Greeter(GreeterResponse::Greet(s)) => assert_eq!(s, "<a>"),
        _ => panic!("wrong variant"),
    }
    match combined_dispatch(
        &MyAsync,
        CombinedRequest::Math(MathRequest::Multiply { a: -2, b: 3 }),
        &TokioBlockOn,
    ) {
        CombinedResponse::Math(MathResponse::Multiply(n)) => assert_eq!(n, -6),
        _ => panic!("wrong variant"),
    }
    match math_dispatch(&MyAsync, MathRequest::Add { a: 1, b: 1 }, &TokioBlockOn) {
        MathResponse::Add(n) => assert_eq!(n, 2),
        _ => panic!("wrong variant"),
    }
    match math_dispatch_sync(&svc, MathRequest::Multiply { a: 3, b: 3 }) {
        MathResponse::Multiply(n) => assert_eq!(n, 9),
        _ => panic!("wrong variant"),
    }
}

#[test]
fn services_have_their_ids() {
    assert_eq!(GREETER_API_ID, 0x0001);
    assert_eq!(MATH_API_ID, 0x0002);
    assert_eq!(Greeter::API_ID, 0x0001);
    assert_eq!(Math::API_ID, 0x0002);
}

#[test]
fn bounded_greeting_leaves_out_what_does_not_fit() {
    let casual = Salutation::new("Yo, ", "!");
    assert_eq!(casual.greet_bounded("mama").to_text(), "Yo, mama!");
    let fits = "n".repeat(59);
    assert_eq!(casual.greet_bounded(&fits).to_text(), format!("Yo, {fits}!"));
    let full = "n".repeat(60);
    assert_eq!(casual.greet_bounded(&full).to_text(), format!("Yo, {full}"));
    let long = "n".repeat(61);
    assert_eq!(casual.greet_bounded(&long).to_text(), "Yo, !");
    let wide = "\u{e9}".repeat(30);
    assert_eq!(casual.greet_bounded(&wide).to_text(), format!("Yo, {wide}"));
}

#[test]
fn answers_that_take_time_are_pending() {
    let GreeterPending::Greet(greeting) =
        greeter_begin(&MyAsync, GreeterRequest::Greet { name: "x".into() })
    else {
        panic!("a greeting takes time")
    };
    assert_eq!(TokioBlockOn.block_on(greeting), "x");
    assert!(matches!(
        greeter_begin(&MyAsync, GreeterRequest::Health),
        GreeterPending::Done(GreeterResponse::Health(true))
    ));
    assert!(matches!(
        greeter_begin(&MyAsync, GreeterRequest::Reset),
        GreeterPending::Done(GreeterResponse::Reset)
    ));
    let MathPending::Add(sum) = math_begin(&MyAsync, MathRequest::Add { a: 2, b: 3 }) else {
        panic!("a sum was asked for")
    };
    assert_eq!(TokioBlockOn.block_on(sum), 5);
    let MathPending::Multiply(product) =
        math_begin(&MyAsync, MathRequest::Multiply { a: 4, b: 5 })
    else {
        panic!("a product was asked for")
    };
    assert_eq!(TokioBlockOn.block_on(product), 20);
}

#[test]
fn one_step_takes_one_request() {
    let requests = vec![GreeterRequest::Health, GreeterRequest::Health];
    let mut server = ScriptedServer::new(requests, false);
    assert_eq!(greeter_serve_sync_step(&MySync::new(), &mut server, &TokioBlockOn), Ok(()));
    assert_eq!(server.requests.len(), 1);
    assert_eq!(server.answers.borrow().len(), 1);
}
