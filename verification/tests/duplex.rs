//! Calls in both directions over one stream.

use core::convert::Infallible;
use core::task::Waker;
use myelin::error::ErrorText;
use myelin::io::mem_pipe::{duplex, Duplex, Side};
use myelin::io::{AsyncBytesRead, AsyncBytesWrite};
use myelin::stream::call::{CallAction, CallEvent, DuplexCall};
use myelin::stream::codec::PostcardCodec;
use myelin::stream::duplex::{
    encode_duplex_frame, parse_duplex_frame, DuplexClientHalf, DuplexFrameError, DuplexPumpError,
    DuplexServerError, DuplexServerHalf, DuplexShared, DuplexStreamClosed, DuplexStreamTransport,
    ServerInbox, DUPLEX_HEADER_LEN, KIND_REQUEST, KIND_RESPONSE,
};
use myelin::stream::framing::{FrameReading, FrameWriting, LengthPrefixed};
use myelin::stream::reply::{DuplexReply, ReplyAction, ReplyEvent};
use myelin::stream::routing::{MuxedReplyToken, RouterSlotHandle};
use myelin::stream::transport::StreamTransportError;
use myelin::wake::PollState;
use std::sync::atomic::{AtomicUsize, Ordering};
use std::sync::Arc;
use std::task::Wake;

struct Counter(AtomicUsize);

impl Wake for Counter {
    fn wake(self: Arc<Self>) {
        self.0.fetch_add(1, Ordering::SeqCst);
    }
}

fn counting() -> (Arc<Counter>, Waker) {
    let counter = Arc::new(Counter(AtomicUsize::new(0)));
    (counter.clone(), Waker::from(counter))
}

fn idle() -> Waker {
    counting().1
}

fn write_frame<W: AsyncBytesWrite>(writer: &mut W, data: &[u8]) {
    let mut writing = FrameWriting::new(&LengthPrefixed, data);
    assert!(matches!(writing.poll(writer, &idle()), PollState::Ready(Ok(()))));
}

fn read_frame<R: AsyncBytesRead>(reader: &mut R) -> Option<Vec<u8>> {
    match FrameReading::new(&LengthPrefixed).poll(&LengthPrefixed, reader, &idle()) {
        (_, PollState::Ready(Ok(message))) => Some(message),
        _ => None,
    }
}

type Transport = DuplexStreamTransport<Side, Side, LengthPrefixed, PostcardCodec, 4, 256>;
type Shared = DuplexShared<Side, LengthPrefixed, PostcardCodec, 4, 256>;
type Action = CallAction<Infallible, Side, String, String>;

const PING_API: u16 = 0x0001;
const ECHO_API: u16 = 0x0002;

#[test]
fn duplex_header_round_trip() {
    let f = encode_duplex_frame(KIND_REQUEST, 0xBEEF, 7, b"hi");
    let (hdr, payload) = parse_duplex_frame(&f).unwrap();
    assert_eq!(hdr.kind, KIND_REQUEST);
    assert_eq!(hdr.api_id, 0xBEEF);
    assert_eq!(hdr.slot_id, 7);
    assert_eq!(payload, b"hi");
}

#[test]
fn header_layout_is_fixed() {
    assert_eq!(DUPLEX_HEADER_LEN, 4);
    assert_eq!(
        encode_duplex_frame(KIND_RESPONSE, 0xBEEF, 7, b"hi"),
        vec![1, 0xEF, 0xBE, 7, b'h', b'i']
    );
    assert_eq!(encode_duplex_frame(KIND_REQUEST, 1, 0, b""), vec![0, 1, 0, 0]);
}

#[test]
fn malformed_frames_are_refused() {
    let e = parse_duplex_frame(&[0, 1, 0]).unwrap_err();
    assert!(matches!(e, DuplexFrameError::TooShort));
    assert_eq!(e.to_text(), "duplex frame too short for header");
    assert!(matches!(parse_duplex_frame(&[]).unwrap_err(), DuplexFrameError::TooShort));
    let e = parse_duplex_frame(&[2, 1, 0, 0]).unwrap_err();
    assert!(matches!(e, DuplexFrameError::UnknownKind(2)));
    let (_, payload) = parse_duplex_frame(&[1, 1, 0, 0]).unwrap();
    assert!(payload.is_empty());
}

/// Starts a call: sends its request over the pipes.
fn start<Req, Resp>(
    half: &DuplexClientHalf<Req, Resp>,
    shared: &mut Shared,
    pipes: &mut Duplex,
    request: Vec<u8>,
    waker: &Waker,
) -> DuplexCall<4, 256> {
    let (call, action): (_, Action) =
        DuplexCall::new().advance(half, shared, CallEvent::Poll, waker);
    assert!(matches!(action, CallAction::Encode));
    let (call, action): (_, Action) =
        call.advance(half, shared, CallEvent::Encoded(Ok(request)), waker);
    let CallAction::Write(guard, frame) = action else { panic!("nobody writes") };
    write_frame(pipes.writer(*guard.get()), &frame);
    let (call, action): (_, Action) =
        call.advance(half, shared, CallEvent::Written(guard, Ok(())), waker);
    assert!(matches!(action, CallAction::Wait));
    call
}

fn finish<Req, Resp>(
    call: DuplexCall<4, 256>,
    half: &DuplexClientHalf<Req, Resp>,
    shared: &mut Shared,
) -> Vec<u8> {
    let (_, action): (_, Action) = call.advance(half, shared, CallEvent::Poll, &idle());
    match action {
        CallAction::Finish(Ok(reply)) => reply,
        _ => panic!("the reply has been pumped"),
    }
}

fn pump(shared: &mut Shared, pipes: &mut Duplex, side: Side) {
    let frame = read_frame(pipes.reader(side)).unwrap();
    assert!(shared.pump::<String>(Ok(frame)).is_ok());
}

/// Answers one request of an API.
fn serve<Req, Resp>(
    half: &DuplexServerHalf<Req, Resp>,
    shared: &mut Shared,
    pipes: &mut Duplex,
    answer: fn(&[u8]) -> Vec<u8>,
) {
    let PollState::Ready(request) = shared.poll_request(half.api_id(), &idle()) else {
        panic!("the request has been pumped")
    };
    let (payload, token) = half.receive::<String, String>(request).unwrap();
    let frame = half.reply_frame(&token, &answer(&payload));
    let PollState::Ready(guard) = shared.poll_writer(&idle()) else { panic!("nobody writes") };
    write_frame(pipes.writer(*guard.get()), &frame);
    shared.return_writer(guard);
}

#[test]
fn duplex_end_to_end_two_apis_both_directions() {
    let mut pipes = duplex();
    let mut dx_a: Transport = Transport::new(Side::A, Side::A);
    let mut dx_b: Transport = Transport::new(Side::B, Side::B);

    let ping_server_a = dx_a.server_half::<u32, u32>(PING_API);
    let echo_client_a = dx_a.client_half::<String, String>(ECHO_API);
    let echo_server_b = dx_b.server_half::<String, String>(ECHO_API);
    let ping_client_b = dx_b.client_half::<u32, u32>(PING_API);

    let (_, mut a) = dx_a.split();
    let (_, mut b) = dx_b.split();

    let (echo_counter, echo_waker) = counting();
    let echo = postcard::to_allocvec("hello").unwrap();
    let client_a = start(&echo_client_a, &mut a, &mut pipes, echo, &echo_waker);
    let ping = postcard::to_allocvec(&41u32).unwrap();
    let client_b = start(&ping_client_b, &mut b, &mut pipes, ping, &idle());

    pump(&mut a, &mut pipes, Side::A);
    pump(&mut b, &mut pipes, Side::B);
    serve(&ping_server_a, &mut a, &mut pipes, |payload| {
        let req: u32 = postcard::from_bytes(payload).unwrap();
        postcard::to_allocvec(&(req + 1)).unwrap()
    });
    serve(&echo_server_b, &mut b, &mut pipes, |payload| {
        let req: String = postcard::from_bytes(payload).unwrap();
        postcard::to_allocvec(&format!("echo: {req}")).unwrap()
    });
    assert_eq!(echo_counter.0.load(Ordering::SeqCst), 0);
    pump(&mut a, &mut pipes, Side::A);
    assert_eq!(echo_counter.0.load(Ordering::SeqCst), 1);
    pump(&mut b, &mut pipes, Side::B);

    let echo_resp: String =
        postcard::from_bytes(&finish(client_a, &echo_client_a, &mut a)).unwrap();
    let ping_resp: u32 = postcard::from_bytes(&finish(client_b, &ping_client_b, &mut b)).unwrap();
    assert_eq!(echo_resp, "echo: hello");
    assert_eq!(ping_resp, 42);
}

#[test]
fn several_calls_are_answered_out_of_order() {
    let mut pipes = duplex();
    let dx: Transport = DuplexStreamTransport::with_layers(
        Side::A,
        Side::A,
        LengthPrefixed,
        PostcardCodec,
    );
    let half = dx.client_half::<u32, u32>(PING_API);
    let (reader, mut shared) = dx.split();
    assert!(matches!(reader, Side::A));
    let _: &LengthPrefixed = shared.framer();
    let _: &PostcardCodec = shared.codec();
    let first = start(&half, &mut shared, &mut pipes, vec![1], &idle());
    let second = start(&half, &mut shared, &mut pipes, vec![2], &idle());
    let third = start(&half, &mut shared, &mut pipes, vec![3], &idle());
    assert_eq!(read_frame(pipes.reader(Side::B)).unwrap(), vec![0, 1, 0, 0, 1]);
    assert_eq!(read_frame(pipes.reader(Side::B)).unwrap(), vec![0, 1, 0, 1, 2]);
    assert_eq!(read_frame(pipes.reader(Side::B)).unwrap(), vec![0, 1, 0, 2, 3]);
    for (slot, reply) in [(2u8, 103u8), (0, 101), (1, 102)] {
        let frame = encode_duplex_frame(KIND_RESPONSE, PING_API, slot, &[reply]);
        assert!(shared.pump::<String>(Ok(frame)).is_ok());
    }
    assert_eq!(finish(first, &half, &mut shared), vec![101]);
    assert_eq!(finish(second, &half, &mut shared), vec![102]);
    assert_eq!(finish(third, &half, &mut shared), vec![103]);
}

#[test]
fn cancelled_duplex_call_frees_its_slot() {
    let mut pipes = duplex();
    let dx: Transport = Transport::new(Side::A, Side::A);
    let half = dx.client_half::<u32, u32>(PING_API);
    let (_, mut shared) = dx.split();
    let call = start(&half, &mut shared, &mut pipes, vec![1], &idle());
    call.cancel(&half, &mut shared);
    let PollState::Ready(slot) = shared.poll_slot(&idle()) else { panic!("all slots are free") };
    assert_eq!(slot.slot_id(), 0);

    // The late reply is not taken for that of the next call.
    shared.end_call(slot);
    let late = encode_duplex_frame(KIND_RESPONSE, PING_API, 0, &[9]);
    assert!(shared.route_frame(&late).is_ok());
    let PollState::Ready(slot) = shared.poll_slot(&idle()) else { panic!("all slots are free") };
    assert!(matches!(shared.poll_reply(&slot, &idle()), PollState::Pending));
}

#[test]
fn failed_duplex_calls_are_reported() {
    let dx: Transport = Transport::new(Side::A, Side::A);
    let half = dx.client_half::<u32, u32>(PING_API);
    let (_, mut shared) = dx.split();
    let waker = idle();
    let (call, _): (_, Action) =
        DuplexCall::new().advance(&half, &mut shared, CallEvent::Poll, &waker);
    let (_, action): (_, Action) =
        call.advance(&half, &mut shared, CallEvent::Encoded(Err("odd".to_string())), &waker);
    assert!(matches!(
        action,
        CallAction::Finish(Err(StreamTransportError::Codec(e))) if e == "odd"
    ));

    let (call, _): (_, Action) =
        DuplexCall::new().advance(&half, &mut shared, CallEvent::Poll, &waker);
    let PollState::Ready(other) = shared.poll_writer(&waker) else { panic!("nobody writes") };
    let (call, action): (_, Action) =
        call.advance(&half, &mut shared, CallEvent::Encoded(Ok(vec![5])), &waker);
    assert!(matches!(action, CallAction::Wait));
    shared.return_writer(other);
    let (call, action): (_, Action) =
        call.advance(&half, &mut shared, CallEvent::Poll, &waker);
    let CallAction::Write(guard, frame) = action else { panic!("nobody writes") };
    assert_eq!(frame, vec![0, 1, 0, 0, 5]);
    let (_, action): (_, Action) = call.advance(
        &half,
        &mut shared,
        CallEvent::Written(guard, Err("gone".to_string())),
        &waker,
    );
    assert!(matches!(
        action,
        CallAction::Finish(Err(StreamTransportError::Framing(e))) if e == "gone"
    ));
    let PollState::Ready(slot) = shared.poll_slot(&waker) else { panic!("all slots are free") };
    assert_eq!(slot.slot_id(), 0);
}

#[test]
fn requests_queue_up_in_order() {
    let mut dx: Transport = Transport::new(Side::A, Side::A);
    let half = dx.server_half::<u32, u32>(PING_API);
    let (_, mut shared) = dx.split();
    let (counter, waker) = counting();
    assert!(matches!(shared.poll_request(PING_API, &waker), PollState::Pending));
    for n in [1u8, 2, 3] {
        let frame = encode_duplex_frame(KIND_REQUEST, PING_API, n, &[10 * n]);
        assert!(shared.pump::<String>(Ok(frame)).is_ok());
    }
    assert_eq!(counter.0.load(Ordering::SeqCst), 1);

    // Registering again keeps what has come in.
    let _: DuplexServerHalf<u32, u32> = shared.server_half(PING_API);
    for n in [1u8, 2, 3] {
        let PollState::Ready(request) = shared.poll_request(PING_API, &waker) else {
            panic!("the request has been pumped")
        };
        let (payload, token) = half.receive::<String, String>(request).unwrap();
        assert_eq!(payload, vec![10 * n]);
        assert_eq!(token.slot_id(), n);
    }
    assert!(matches!(shared.poll_request(PING_API, &waker), PollState::Pending));
}

#[test]
fn request_for_unknown_api_is_dropped() {
    let mut dx: Transport = Transport::new(Side::A, Side::A);
    let _ = dx.server_half::<u32, u32>(PING_API);
    let (_, mut shared) = dx.split();
    let frame = encode_duplex_frame(KIND_REQUEST, ECHO_API, 0, &[1]);
    assert!(shared.pump::<String>(Ok(frame)).is_ok());
    assert!(matches!(shared.poll_request(PING_API, &idle()), PollState::Pending));
}

#[test]
fn end_of_the_pump_closes_the_inboxes() {
    let mut dx: Transport = Transport::new(Side::A, Side::A);
    let ping = dx.server_half::<u32, u32>(PING_API);
    let echo = dx.server_half::<String, String>(ECHO_API);
    let (_, mut shared) = dx.split();
    let (counter, waker) = counting();
    assert!(matches!(shared.poll_request(ECHO_API, &waker), PollState::Pending));
    let frame = encode_duplex_frame(KIND_REQUEST, PING_API, 0, &[1]);
    assert!(shared.pump::<String>(Ok(frame)).is_ok());
    let e = shared.pump(Err("cut".to_string())).unwrap_err();
    assert!(matches!(&e, DuplexPumpError::Framing(f) if f == "cut"));
    assert_eq!(e.to_text(), "cut");
    assert_eq!(counter.0.load(Ordering::SeqCst), 1);

    // What came in before is still served.
    let PollState::Ready(request) = shared.poll_request(PING_API, &waker) else {
        panic!("the request is still there")
    };
    assert!(ping.receive::<String, String>(request).is_ok());
    let PollState::Ready(request) = shared.poll_request(PING_API, &waker) else {
        panic!("the inbox is closed")
    };
    let e = ping.receive::<String, String>(request).unwrap_err();
    assert!(matches!(&e, DuplexServerError::Closed));
    assert_eq!(e.to_text(), "duplex stream closed");
    let PollState::Ready(request) = shared.poll_request(ECHO_API, &waker) else {
        panic!("the inbox is closed")
    };
    assert!(echo.receive::<String, String>(request).is_err());
}

#[test]
fn bad_frame_ends_the_pump() {
    let mut dx: Transport = Transport::new(Side::A, Side::A);
    let _ = dx.server_half::<u32, u32>(PING_API);
    let (_, mut shared) = dx.split();
    let e = shared.pump::<String>(Ok(vec![0, 1])).unwrap_err();
    assert!(matches!(&e, DuplexPumpError::BadFrame(DuplexFrameError::TooShort)));
    assert_eq!(e.to_text(), "duplex frame too short for header");
    assert!(matches!(shared.poll_request(PING_API, &idle()), PollState::Ready(None)));
    assert!(matches!(
        shared.pump::<String>(Ok(vec![9, 1, 0, 0])),
        Err(DuplexPumpError::BadFrame(DuplexFrameError::UnknownKind(9)))
    ));
}

#[test]
fn inbox_wakes_its_server() {
    let mut inbox = ServerInbox::new();
    let (counter, waker) = counting();
    assert!(matches!(inbox.recv(&waker), PollState::Pending));
    inbox.push(vec![1, 2], 5);
    assert_eq!(counter.0.load(Ordering::SeqCst), 1);
    assert!(matches!(
        inbox.recv(&waker),
        PollState::Ready(Some((payload, 5))) if payload == vec![1, 2]
    ));
    inbox.push(vec![3], 6);
    inbox.close();
    assert!(matches!(inbox.recv(&waker), PollState::Ready(Some((_, 6)))));
    assert!(matches!(inbox.recv(&waker), PollState::Ready(None)));
}

#[test]
fn duplex_errors_read_well() {
    type E = DuplexServerError<String, String>;
    assert_eq!(E::Framing("cut".to_string()).to_text(), "cut");
    assert_eq!(E::Codec("odd".to_string()).to_text(), "codec error: odd");
    assert_eq!(DuplexStreamClosed.to_text(), "duplex stream closed");
    assert_eq!(
        DuplexFrameError::UnknownKind(7).to_text(),
        "unknown duplex frame kind: 7"
    );
}

#[test]
fn late_duplex_response_is_discarded() {
    let mut pipes = duplex();
    let dx: Transport = Transport::new(Side::A, Side::A);
    let half = dx.client_half::<u32, u32>(PING_API);
    let (_, mut shared) = dx.split();
    start(&half, &mut shared, &mut pipes, vec![1], &idle()).cancel(&half, &mut shared);
    let second = start(&half, &mut shared, &mut pipes, vec![2], &idle());

    let late = encode_duplex_frame(KIND_RESPONSE, PING_API, 0, &[11]);
    assert!(shared.pump::<String>(Ok(late)).is_ok());
    let (second, action): (_, Action) =
        second.advance(&half, &mut shared, CallEvent::Poll, &idle());
    assert!(matches!(action, CallAction::Wait));
    let own = encode_duplex_frame(KIND_RESPONSE, PING_API, 0, &[22]);
    assert!(shared.pump::<String>(Ok(own)).is_ok());
    assert_eq!(finish(second, &half, &mut shared), vec![22]);
}

type Answer = ReplyAction<Side, DuplexServerError<String, String>>;

#[test]
fn duplex_replies_write_one_frame_or_none() {
    let mut dx: Transport = Transport::new(Side::A, Side::A);
    let half = dx.server_half::<u32, u32>(ECHO_API);
    let (_, mut shared) = dx.split();
    let token = MuxedReplyToken::new(7);
    let waker = idle();

    assert_eq!(half.reply::<String, String>(&token, Ok(vec![5])).unwrap(), vec![1, 2, 0, 7, 5]);
    assert!(matches!(
        half.reply::<String, String>(&token, Err("odd".to_string())),
        Err(DuplexServerError::Codec(e)) if e == "odd"
    ));

    let (_, action): (_, Answer) = DuplexReply::new(token).advance(
        &half,
        &mut shared,
        ReplyEvent::Encoded(Err("odd".to_string())),
        &waker,
    );
    assert!(matches!(
        action,
        ReplyAction::Finish(Err(DuplexServerError::Codec(e))) if e == "odd"
    ));

    let PollState::Ready(other) = shared.poll_writer(&waker) else { panic!("nobody writes") };
    let (counter, waiting) = counting();
    let (reply, action): (_, Answer) = DuplexReply::new(token).advance(
        &half,
        &mut shared,
        ReplyEvent::Encoded(Ok(vec![5])),
        &waiting,
    );
    assert!(matches!(action, ReplyAction::Wait));
    shared.return_writer(other);
    assert_eq!(counter.0.load(Ordering::SeqCst), 1);
    let (reply, action): (_, Answer) =
        reply.advance(&half, &mut shared, ReplyEvent::Poll, &waiting);
    let ReplyAction::Write(guard, frame) = action else { panic!("nobody writes") };
    assert_eq!(frame, vec![1, 2, 0, 7, 5]);
    let (_, action): (_, Answer) = reply.advance(
        &half,
        &mut shared,
        ReplyEvent::Written(guard, Err("gone".to_string())),
        &waiting,
    );
    assert!(matches!(
        action,
        ReplyAction::Finish(Err(DuplexServerError::Framing(e))) if e == "gone"
    ));

    let (reply, action): (_, Answer) = DuplexReply::new(token).advance(
        &half,
        &mut shared,
        ReplyEvent::Encoded(Ok(vec![6])),
        &waker,
    );
    let ReplyAction::Write(guard, _) = action else { panic!("nobody writes") };
    let (_, action): (_, Answer) =
        reply.advance(&half, &mut shared, ReplyEvent::Written(guard, Ok(())), &waker);
    assert!(matches!(action, ReplyAction::Finish(Ok(()))));
}

#[test]
fn inbox_keeps_its_order_when_it_is_closed() {
    for (before, after) in [(false, false), (true, false), (false, true)] {
        let mut inbox = ServerInbox::new();
        if before {
            inbox.close();
        }
        for n in 0..3u8 {
            inbox.push(vec![n], 10 + n);
        }
        if after {
            inbox.close();
        }
        for n in 0..3u8 {
            assert!(matches!(
                inbox.recv(&idle()),
                PollState::Ready(Some((payload, slot))) if payload == vec![n] && slot == 10 + n
            ));
        }
        match inbox.recv(&idle()) {
            PollState::Ready(None) => assert!(before || after),
            PollState::Pending => assert!(!before && !after),
            PollState::Ready(Some(_)) => panic!("the inbox is empty"),
        }
    }
}

/// A call of one API is cancelled, and a call of another takes its slot.
fn take_over(
    pipes: &mut Duplex,
) -> (Shared, DuplexClientHalf<u32, u32>, DuplexCall<4, 256>) {
    let dx: Transport = Transport::new(Side::A, Side::A);
    let ping = dx.client_half::<u32, u32>(PING_API);
    let echo = dx.client_half::<u32, u32>(ECHO_API);
    assert_eq!(echo.api_id(), ECHO_API);
    let (_, mut shared) = dx.split();
    start(&ping, &mut shared, pipes, vec![1], &idle()).cancel(&ping, &mut shared);
    let call = start(&echo, &mut shared, pipes, vec![2], &idle());
    (shared, echo, call)
}

#[test]
fn responses_of_different_apis_are_told_apart() {
    let late = || encode_duplex_frame(KIND_RESPONSE, PING_API, 0, &[11]);
    let own = || encode_duplex_frame(KIND_RESPONSE, ECHO_API, 0, &[22]);

    let (mut shared, echo, call) = take_over(&mut duplex());
    assert!(shared.pump::<String>(Ok(late())).is_ok());
    let (call, action): (_, Action) = call.advance(&echo, &mut shared, CallEvent::Poll, &idle());
    assert!(matches!(action, CallAction::Wait));
    assert!(shared.pump::<String>(Ok(own())).is_ok());
    assert_eq!(finish(call, &echo, &mut shared), vec![22]);

    let (mut shared, echo, call) = take_over(&mut duplex());
    assert!(shared.pump::<String>(Ok(own())).is_ok());
    assert!(shared.pump::<String>(Ok(late())).is_ok());
    assert_eq!(finish(call, &echo, &mut shared), vec![22]);

    // The cancelled call is never answered.
    let (mut shared, echo, call) = take_over(&mut duplex());
    assert!(shared.pump::<String>(Ok(own())).is_ok());
    assert_eq!(finish(call, &echo, &mut shared), vec![22]);
}
