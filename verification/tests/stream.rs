//! Stream transports, call by call.

use core::task::Waker;
use myelin::error::{CallError, ErrorText, TransportResult};
use myelin::io::cursor::{cursor_read, cursor_write, CursorRead, CursorWrite};
use myelin::io::mem_pipe::{duplex, Duplex, Side};
use myelin::io::{AsyncBytesRead, AsyncBytesWrite, BlockingIo};
use myelin::stream::call::{CallAction, CallEvent, MuxedCall, SequentialCall};
use myelin::stream::codec::{CborCodec, PostcardCodec};
use myelin::stream::framing::{FrameReading, FrameWriting, FramingError, LengthPrefixed};
use myelin::stream::reply::{ReplyAction, ReplyEvent, StreamReply};
use myelin::stream::routing::{MuxedReplyToken, MuxedSlots, RouterSlotHandle, Sequential};
use myelin::stream::transport::{
    open_request, reply_frame, split_frame, tag_frame, StreamReplyToken, StreamTransport,
    StreamTransportError, Turn,
};
use myelin::transport_postcard::{
    new_postcard_stream, PostcardReplyToken, PostcardStream, PostcardStreamError,
};
use myelin::wake::PollState;
use std::sync::atomic::{AtomicUsize, Ordering};
use std::sync::Arc;
use std::task::Wake;

struct Counter(AtomicUsize);

impl Wake for Counter {
    fn wake(self: Arc<Self>) {
        self.0.fetch_add(1, Ordering::SeqCst);
    }
}

fn counting() -> (Arc<Counter>, Waker) {
    let counter = Arc::new(Counter(AtomicUsize::new(0)));
    (counter.clone(), Waker::from(counter))
}

fn idle() -> Waker {
    counting().1
}

fn write_frame<W: AsyncBytesWrite>(writer: &mut W, data: &[u8]) {
    let mut writing = FrameWriting::new(&LengthPrefixed, data);
    assert!(matches!(writing.poll(writer, &idle()), PollState::Ready(Ok(()))));
}

fn read_frame<R: AsyncBytesRead>(reader: &mut R) -> Option<Vec<u8>> {
    match FrameReading::new(&LengthPrefixed).poll(&LengthPrefixed, reader, &idle()) {
        (_, PollState::Ready(Ok(message))) => Some(message),
        _ => None,
    }
}

fn encode(value: &u32) -> Vec<u8> {
    postcard::to_allocvec(value).unwrap()
}

fn decode(bytes: &[u8]) -> u32 {
    postcard::from_bytes(bytes).unwrap()
}

#[test]
fn sequential_round_trip_via_cursors() {
    type T = StreamTransport<
        CursorRead,
        CursorWrite,
        LengthPrefixed,
        PostcardCodec,
        Sequential,
        u32,
        u32,
    >;

    // The client writes the request into its buffer.
    let mut client = T::new(cursor_read(Vec::new()), cursor_write());
    let PollState::Ready(mut w) = client.poll_writer(&idle()) else { panic!("nobody writes") };
    write_frame(w.get_mut(), &encode(&42));
    let c2s = w.get().0.clone();
    client.return_writer(w);

    // The server receives it and replies.
    let mut server = T::new(cursor_read(c2s), cursor_write());
    let PollState::Ready(mut r) = server.poll_reader(&idle()) else { panic!("nobody reads") };
    let req = decode(&read_frame(r.get_mut()).unwrap());
    server.return_reader(r);
    assert_eq!(req, 42u32);
    let _token: StreamReplyToken<Sequential> = StreamReplyToken::new();
    let PollState::Ready(mut w) = server.poll_writer(&idle()) else { panic!("nobody writes") };
    write_frame(w.get_mut(), &encode(&100));
    let s2c = w.get().0.clone();
    server.return_writer(w);

    // The client reads the reply.
    let PollState::Ready(mut r) = client.poll_reader(&idle()) else { panic!("nobody reads") };
    *r.get_mut() = cursor_read(s2c);
    let reply = decode(&read_frame(r.get_mut()).unwrap());
    client.return_reader(r);
    assert_eq!(reply, 100);
}

#[test]
fn muxed_server_round_trip() {
    type T = StreamTransport<
        CursorRead,
        CursorWrite,
        LengthPrefixed,
        PostcardCodec,
        MuxedSlots<4, 128>,
        u32,
        u32,
    >;

    let slot_id: u8 = 3;
    let mut frame = vec![slot_id];
    frame.extend_from_slice(&encode(&42));
    let mut c2s_writer = cursor_write();
    write_frame(&mut c2s_writer, &frame);
    let c2s_bytes = c2s_writer.0;

    let mut server = T::new(cursor_read(c2s_bytes), cursor_write());
    let PollState::Ready(mut r) = server.poll_reader(&idle()) else { panic!("nobody reads") };
    let frame = read_frame(r.get_mut()).unwrap();
    server.return_reader(r);
    let (token, payload) = open_request::<4, 128>(&frame);
    assert_eq!(decode(payload), 42u32);
    assert_eq!(token.slot_id(), 3);

    let reply = reply_frame(&token, &encode(&100));
    let PollState::Ready(mut w) = server.poll_writer(&idle()) else { panic!("nobody writes") };
    write_frame(w.get_mut(), &reply);
    let s2c_bytes = w.get().0.clone();
    server.return_writer(w);

    let mut s2c_reader = cursor_read(s2c_bytes);
    let reply_frame = read_frame(&mut s2c_reader).unwrap();
    assert_eq!(reply_frame[0], 3u8);
    assert_eq!(decode(&reply_frame[1..]), 100u32);
}

type PipeTransport<Codec, const N: usize, const BUF: usize> =
    StreamTransport<Side, Side, LengthPrefixed, Codec, MuxedSlots<N, BUF>, (), ()>;

type Action = CallAction<Side, Side, String, String>;

/// What a call came to when it could go no further by itself.
enum Stop<const N: usize, const BUF: usize> {
    Waits(MuxedCall<N, BUF>),
    Done(Result<Vec<u8>, StreamTransportError<String, String>>),
}

/// Drives a call until it waits or is over.
fn drive<Codec, const N: usize, const BUF: usize>(
    call: MuxedCall<N, BUF>,
    transport: &mut PipeTransport<Codec, N, BUF>,
    pipes: &mut Duplex,
    request: &[u8],
    waker: &Waker,
) -> Stop<N, BUF> {
    let (mut call, mut action): (MuxedCall<N, BUF>, Action) =
        call.advance(transport, CallEvent::Poll, waker);
    loop {
        let event = match action {
            CallAction::Wait => return Stop::Waits(call),
            CallAction::Finish(result) => return Stop::Done(result),
            CallAction::Encode => CallEvent::Encoded(Ok(request.to_vec())),
            CallAction::Write(guard, frame) => {
                write_frame(pipes.writer(*guard.get()), &frame);
                CallEvent::Written(guard, Ok(()))
            }
            CallAction::Read(guard) => match read_frame(pipes.reader(*guard.get())) {
                Some(frame) => CallEvent::Read(guard, Ok(frame)),
                None => CallEvent::Read(guard, Err("no frame".to_string())),
            },
        };
        let (next, wanted) = call.advance(transport, event, waker);
        call = next;
        action = wanted;
    }
}

/// Drives a call up to its turn to read, which it is left in.
fn start<Codec, const N: usize, const BUF: usize>(
    transport: &mut PipeTransport<Codec, N, BUF>,
    pipes: &mut Duplex,
    request: &[u8],
) -> (MuxedCall<N, BUF>, Action) {
    let waker = idle();
    let (call, action): (_, Action) = MuxedCall::new().advance(transport, CallEvent::Poll, &waker);
    assert!(matches!(action, CallAction::Encode));
    let (call, action): (_, Action) =
        call.advance(transport, CallEvent::Encoded(Ok(request.to_vec())), &waker);
    let CallAction::Write(guard, frame) = action else { panic!("nobody writes") };
    write_frame(pipes.writer(*guard.get()), &frame);
    call.advance(transport, CallEvent::Written(guard, Ok(())), &waker)
}

fn serve_one(pipes: &mut Duplex, answer: fn(&[u8]) -> Vec<u8>) {
    let frame = read_frame(pipes.reader(Side::B)).unwrap();
    let (token, payload) = open_request::<4, 128>(&frame);
    let reply = reply_frame(&token, &answer(payload));
    write_frame(pipes.writer(Side::B), &reply);
}

fn double(payload: &[u8]) -> Vec<u8> {
    encode(&(decode(payload) * 2))
}

#[test]
fn muxed_client_call_end_to_end_over_mem_pipe() {
    let mut pipes = duplex();
    let mut client: PipeTransport<PostcardCodec, 4, 128> = PipeTransport::new(Side::A, Side::A);

    let (call, action) = start(&mut client, &mut pipes, &encode(&21));
    let CallAction::Read(guard) = action else { panic!("nobody reads") };
    serve_one(&mut pipes, double);
    let frame = read_frame(pipes.reader(*guard.get())).unwrap();
    let (_, action): (_, Action) =
        call.advance(&mut client, CallEvent::Read(guard, Ok(frame)), &idle());
    let CallAction::Finish(Ok(reply)) = action else { panic!("the reply is there") };
    assert_eq!(decode(&reply), 42);
    assert!(client.router().is_idle());
}

/// The operation and its operand.
type Req = (String, i32);

/// Whether it went well, and the result.
type Resp = (bool, i32);

fn answer_cbor(payload: &[u8]) -> Vec<u8> {
    let req: Req = minicbor_serde::from_slice(payload).unwrap();
    let (op, value) = req;
    assert_eq!(op, "double");
    assert_eq!(value, 21);
    let resp: Resp = (true, value * 2);
    minicbor_serde::to_vec(resp).unwrap()
}

#[test]
fn cbor_codec_round_trips_over_stream_transport() {
    let mut pipes = duplex();
    let mut client: PipeTransport<CborCodec, 4, 128> = PipeTransport::new(Side::A, Side::A);

    let req: Req = ("double".into(), 21);
    let request = minicbor_serde::to_vec(req).unwrap();
    let (call, action) = start(&mut client, &mut pipes, &request);
    let CallAction::Read(guard) = action else { panic!("nobody reads") };
    serve_one(&mut pipes, answer_cbor);
    let frame = read_frame(pipes.reader(*guard.get())).unwrap();
    let (_, action): (_, Action) =
        call.advance(&mut client, CallEvent::Read(guard, Ok(frame)), &idle());
    let CallAction::Finish(Ok(reply)) = action else { panic!("the reply is there") };
    let resp: Resp = minicbor_serde::from_slice(&reply).unwrap();
    assert_eq!(resp, (true, 42));
}

#[test]
fn callers_read_for_each_other() {
    let mut pipes = duplex();
    let mut client: PipeTransport<PostcardCodec, 4, 128> = PipeTransport::new(Side::A, Side::A);

    let (first, action) = start(&mut client, &mut pipes, &encode(&1));
    let CallAction::Read(guard) = action else { panic!("nobody reads") };
    let (second, action) = start(&mut client, &mut pipes, &encode(&2));
    assert!(matches!(action, CallAction::Wait));

    // The replies come in the opposite order.
    write_frame(pipes.writer(Side::B), &[1, 22]);
    write_frame(pipes.writer(Side::B), &[0, 11]);

    let (counter, waker) = counting();
    let (second, action): (_, Action) = second.advance(&mut client, CallEvent::Poll, &waker);
    assert!(matches!(action, CallAction::Wait));

    let frame = read_frame(pipes.reader(*guard.get())).unwrap();
    let (first, action): (_, Action) =
        first.advance(&mut client, CallEvent::Read(guard, Ok(frame)), &idle());
    assert_eq!(counter.0.load(Ordering::SeqCst), 1);
    let CallAction::Read(guard) = action else { panic!("its own reply is still to come") };

    let (_, action): (_, Action) = second.advance(&mut client, CallEvent::Poll, &waker);
    let CallAction::Finish(Ok(reply)) = action else { panic!("the reply is in its slot") };
    assert_eq!(reply, vec![22]);

    let frame = read_frame(pipes.reader(*guard.get())).unwrap();
    let (_, action): (_, Action) =
        first.advance(&mut client, CallEvent::Read(guard, Ok(frame)), &idle());
    let CallAction::Finish(Ok(reply)) = action else { panic!("the reply is there") };
    assert_eq!(reply, vec![11]);
    assert!(client.router().is_idle());
}

#[test]
fn call_waits_for_a_free_slot() {
    let mut pipes = duplex();
    let mut client: PipeTransport<PostcardCodec, 1, 16> = PipeTransport::new(Side::A, Side::A);
    let (holder, _) = start(&mut client, &mut pipes, b"a");
    let (counter, waker) = counting();
    let Stop::Waits(waiting) = drive(MuxedCall::new(), &mut client, &mut pipes, b"b", &waker)
    else {
        panic!("there is no slot")
    };
    assert_eq!(counter.0.load(Ordering::SeqCst), 0);
    holder.cancel(&mut client);
    assert_eq!(counter.0.load(Ordering::SeqCst), 1);
    let Stop::Waits(waiting) = drive(waiting, &mut client, &mut pipes, b"b", &waker) else {
        panic!("the reader is still out")
    };
    waiting.cancel(&mut client);
    assert!(client.router().is_idle());
}

#[test]
fn cancelled_call_frees_its_slot_in_every_phase() {
    let mut pipes = duplex();
    let mut client: PipeTransport<PostcardCodec, 2, 16> = PipeTransport::new(Side::A, Side::A);
    let waker = idle();

    MuxedCall::<2, 16>::new().cancel(&mut client);
    assert!(client.router().is_idle());

    let (call, _): (_, Action) = MuxedCall::new().advance(&mut client, CallEvent::Poll, &waker);
    assert!(!client.router().is_idle());
    call.cancel(&mut client);
    assert!(client.router().is_idle());

    let (call, _): (_, Action) = MuxedCall::new().advance(&mut client, CallEvent::Poll, &waker);
    let (call, action): (_, Action) =
        call.advance(&mut client, CallEvent::Encoded(Ok(vec![1])), &waker);
    let CallAction::Write(guard, frame) = action else { panic!("nobody writes") };
    assert_eq!(frame, vec![0, 1]);
    call.cancel(&mut client);
    client.return_writer(guard);
    assert!(client.router().is_idle());

    let (call, action) = start(&mut client, &mut pipes, &[1]);
    let CallAction::Read(guard) = action else { panic!("nobody reads") };
    call.cancel(&mut client);
    client.return_reader(guard);
    assert!(client.router().is_idle());
}

#[test]
fn call_waits_for_the_writer() {
    let mut client: PipeTransport<PostcardCodec, 2, 16> = PipeTransport::new(Side::A, Side::A);
    let PollState::Ready(guard) = client.poll_writer(&idle()) else { panic!("nobody writes") };
    let (counter, waker) = counting();
    let (call, _): (_, Action) = MuxedCall::new().advance(&mut client, CallEvent::Poll, &waker);
    let (call, action): (_, Action) =
        call.advance(&mut client, CallEvent::Encoded(Ok(vec![7])), &waker);
    assert!(matches!(action, CallAction::Wait));
    client.return_writer(guard);
    assert_eq!(counter.0.load(Ordering::SeqCst), 1);
    let (_, action): (_, Action) = call.advance(&mut client, CallEvent::Poll, &waker);
    let CallAction::Write(_, frame) = action else { panic!("nobody writes") };
    assert_eq!(frame, vec![0, 7]);
}

#[test]
fn failures_end_the_call_and_free_its_slot() {
    let mut pipes = duplex();
    let mut client: PipeTransport<PostcardCodec, 2, 16> = PipeTransport::new(Side::A, Side::A);
    let waker = idle();

    let (call, _): (_, Action) = MuxedCall::new().advance(&mut client, CallEvent::Poll, &waker);
    let (_, action): (_, Action) =
        call.advance(&mut client, CallEvent::Encoded(Err("too big".to_string())), &waker);
    let CallAction::Finish(Err(e)) = action else { panic!("the request has no encoding") };
    assert!(matches!(&e, StreamTransportError::Codec(_)));
    assert_eq!(e.to_text(), "codec error: too big");
    assert!(client.router().is_idle());

    let (call, _): (_, Action) = MuxedCall::new().advance(&mut client, CallEvent::Poll, &waker);
    let (call, action): (_, Action) =
        call.advance(&mut client, CallEvent::Encoded(Ok(vec![1])), &waker);
    let CallAction::Write(guard, _) = action else { panic!("nobody writes") };
    let (_, action): (_, Action) =
        call.advance(&mut client, CallEvent::Written(guard, Err("gone".to_string())), &waker);
    let CallAction::Finish(Err(e)) = action else { panic!("the write failed") };
    assert!(matches!(&e, StreamTransportError::Framing(_)));
    assert_eq!(e.to_text(), "gone");
    assert!(client.router().is_idle());
    assert!(matches!(client.poll_writer(&waker), PollState::Ready(_)));

    let mut client: PipeTransport<PostcardCodec, 2, 16> = PipeTransport::new(Side::A, Side::A);
    let Stop::Done(Err(e)) = drive(MuxedCall::new(), &mut client, &mut pipes, b"x", &waker) else {
        panic!("there is no reply to read")
    };
    assert_eq!(e.to_text(), "no frame");
    assert!(client.router().is_idle());
    assert!(matches!(client.poll_reader(&waker), PollState::Ready(_)));
}

#[test]
fn boxed_router_round_trip() {
    type Router = MuxedSlots<1, 1_048_576>;
    type T = StreamTransport<Side, Side, LengthPrefixed, PostcardCodec, Router, u32, u32, Box<Router>>;
    let mut pipes = duplex();
    let mut client: T = StreamTransport::with_boxed_router(
        Side::A,
        Side::A,
        LengthPrefixed,
        PostcardCodec,
        MuxedSlots::new_boxed(),
    );
    let PollState::Ready(slot) = client.poll_slot(&idle()) else { panic!("the slot is free") };
    assert_eq!(slot.slot_id(), 0);
    let frame = client.request_frame(&slot, &encode(&21));
    write_frame(pipes.writer(Side::A), &frame);
    serve_one(&mut pipes, double);
    let Turn::Read(guard) = client.poll_turn(&slot, &idle()) else { panic!("nobody reads") };
    let frame = read_frame(pipes.reader(*guard.get())).unwrap();
    let reply = client.take_frame(&slot, guard, &frame).unwrap();
    assert_eq!(decode(&reply), 42);
    client.end_call(slot);
    assert!(client.router().is_idle());
}

type SequentialTransport =
    StreamTransport<Side, Side, LengthPrefixed, PostcardCodec, Sequential, u32, u32>;

#[test]
fn sequential_call_reads_the_next_frame() {
    let mut pipes = duplex();
    let mut client: SequentialTransport = StreamTransport::new(Side::A, Side::A);
    let waker = idle();
    let (call, action): (_, Action) =
        SequentialCall::new().advance(&mut client, CallEvent::Encoded(Ok(encode(&21))), &waker);
    let CallAction::Write(guard, frame) = action else { panic!("nobody writes") };
    assert_eq!(frame, encode(&21));
    write_frame(pipes.writer(*guard.get()), &frame);
    let (call, action): (_, Action) =
        call.advance(&mut client, CallEvent::Written(guard, Ok(())), &waker);
    let CallAction::Read(guard) = action else { panic!("nobody reads") };
    let request = read_frame(pipes.reader(Side::B)).unwrap();
    write_frame(pipes.writer(Side::B), &double(&request));
    let frame = read_frame(pipes.reader(*guard.get())).unwrap();
    let (_, action): (_, Action) =
        call.advance(&mut client, CallEvent::Read(guard, Ok(frame)), &waker);
    let CallAction::Finish(Ok(reply)) = action else { panic!("the reply is there") };
    assert_eq!(decode(&reply), 42);
}

#[test]
fn sequential_call_waits_and_fails() {
    let mut client: SequentialTransport = StreamTransport::new(Side::A, Side::A);
    let waker = idle();
    let (_, action): (_, Action) = SequentialCall::new().advance(
        &mut client,
        CallEvent::Encoded(Err("odd".to_string())),
        &waker,
    );
    assert!(matches!(
        action,
        CallAction::Finish(Err(StreamTransportError::Codec(e))) if e == "odd"
    ));

    let PollState::Ready(writer) = client.poll_writer(&waker) else { panic!("nobody writes") };
    let PollState::Ready(reader) = client.poll_reader(&waker) else { panic!("nobody reads") };
    let (call, action): (_, Action) =
        SequentialCall::new().advance(&mut client, CallEvent::Encoded(Ok(vec![5])), &waker);
    assert!(matches!(action, CallAction::Wait));
    client.return_writer(writer);
    let (call, action): (_, Action) = call.advance(&mut client, CallEvent::Poll, &waker);
    let CallAction::Write(guard, frame) = action else { panic!("nobody writes") };
    assert_eq!(frame, vec![5]);
    let (call, action): (_, Action) =
        call.advance(&mut client, CallEvent::Written(guard, Ok(())), &waker);
    assert!(matches!(action, CallAction::Wait));
    client.return_reader(reader);
    let (call, action): (_, Action) = call.advance(&mut client, CallEvent::Poll, &waker);
    let CallAction::Read(guard) = action else { panic!("nobody reads") };
    let (_, action): (_, Action) =
        call.advance(&mut client, CallEvent::Read(guard, Err("cut".to_string())), &waker);
    assert!(matches!(
        action,
        CallAction::Finish(Err(StreamTransportError::Framing(e))) if e == "cut"
    ));

    let (call, action): (_, Action) =
        SequentialCall::new().advance(&mut client, CallEvent::Encoded(Ok(vec![5])), &waker);
    let CallAction::Write(guard, _) = action else { panic!("nobody writes") };
    let (_, action): (_, Action) =
        call.advance(&mut client, CallEvent::Written(guard, Err("full".to_string())), &waker);
    assert!(matches!(
        action,
        CallAction::Finish(Err(StreamTransportError::Framing(e))) if e == "full"
    ));
    assert!(matches!(client.poll_writer(&waker), PollState::Ready(_)));
}

#[test]
fn frames_carry_their_slot() {
    let mut client: PipeTransport<PostcardCodec, 4, 128> = PipeTransport::new(Side::A, Side::A);
    let PollState::Ready(first) = client.poll_slot(&idle()) else { panic!("all slots are free") };
    let PollState::Ready(second) = client.poll_slot(&idle()) else { panic!("three are free") };
    assert_eq!(tag_frame::<MuxedSlots<4, 128>>(&first, b"ab"), vec![0, b'a', b'b']);
    assert_eq!(tag_frame::<MuxedSlots<4, 128>>(&second, b""), vec![1]);
    let frame = [2, 9, 8];
    let (id, payload) = split_frame::<MuxedSlots<4, 128>>(&frame);
    assert_eq!(id, 2);
    assert_eq!(payload, &[9, 8]);
    let (id, payload) = split_frame::<Sequential>(&frame);
    assert_eq!(id, 0);
    assert_eq!(payload, &[2, 9, 8]);
}

#[test]
fn transport_shows_its_layers() {
    let client: PipeTransport<CborCodec, 4, 128> = StreamTransport::with_layers(
        Side::A,
        Side::B,
        LengthPrefixed,
        CborCodec,
        MuxedSlots::new(),
    );
    let _: &LengthPrefixed = client.framer();
    let _: &CborCodec = client.codec();
    assert!(client.router().is_idle());
}

#[test]
fn transport_errors_reach_the_caller() {
    type E = StreamTransportError<String, String>;
    let output = <E as TransportResult<u8>>::into_output(Err(E::Codec("odd".to_string())));
    match output {
        Err(e) => {
            assert!(matches!(&e, CallError::Transport(E::Codec(_))));
            assert_eq!(e.to_text(), "transport error: codec error: odd");
        }
        Ok(_) => panic!("there is no value"),
    }
    assert!(matches!(<E as TransportResult<u8>>::into_output(Ok(4)), Ok(4)));
}

#[test]
fn postcard_stream_is_sequential() {
    let mut stream: PostcardStream<_, _, u32, u32> =
        new_postcard_stream(std::io::Cursor::new(vec![1u8]), Vec::<u8>::new());
    let PollState::Ready(BlockingGuard(reader)) = wrap(stream.poll_reader(&idle())) else {
        panic!("nobody reads")
    };
    assert_eq!(reader, vec![1]);
    let _: PostcardReplyToken = StreamReplyToken::new();
}

struct BlockingGuard(Vec<u8>);

fn wrap(
    polled: PollState<myelin::io::local_lock::LocalLockGuard<BlockingIo<std::io::Cursor<Vec<u8>>>>>,
) -> PollState<BlockingGuard> {
    match polled {
        PollState::Ready(guard) => PollState::Ready(BlockingGuard(guard.get().0.get_ref().clone())),
        PollState::Pending => PollState::Pending,
    }
}

#[test]
fn postcard_stream_errors_read_well() {
    type E = PostcardStreamError<String, String>;
    assert_eq!(E::Io("cut".to_string()).to_text(), "I/O error: cut");
    assert_eq!(E::Postcard("odd".to_string()).to_text(), "postcard error: odd");
    assert_eq!(E::Closed.to_text(), "stream closed");
    assert!(matches!(E::from_framing(FramingError::Closed), E::Closed));
    assert!(matches!(E::from_framing(FramingError::Io("x".to_string())), E::Io(e) if e == "x"));
    assert!(matches!(
        <E as TransportResult<u8>>::into_output(Err(E::Closed)),
        Err(CallError::Transport(E::Closed))
    ));
}

#[test]
fn reply_to_a_cancelled_call_is_discarded() {
    let mut pipes = duplex();
    let mut client: PipeTransport<PostcardCodec, 1, 128> = PipeTransport::new(Side::A, Side::A);

    let (first, action) = start(&mut client, &mut pipes, &encode(&1));
    let CallAction::Read(guard) = action else { panic!("nobody reads") };
    first.cancel(&mut client);
    client.return_reader(guard);

    let (second, action) = start(&mut client, &mut pipes, &encode(&2));
    let CallAction::Read(guard) = action else { panic!("nobody reads") };
    serve_one(&mut pipes, double);
    serve_one(&mut pipes, double);

    let frame = read_frame(pipes.reader(*guard.get())).unwrap();
    assert_eq!(frame, [vec![0], encode(&2)].concat());
    let (second, action): (_, Action) =
        second.advance(&mut client, CallEvent::Read(guard, Ok(frame)), &idle());
    let CallAction::Read(guard) = action else { panic!("its own reply is still to come") };
    let frame = read_frame(pipes.reader(*guard.get())).unwrap();
    let (_, action): (_, Action) =
        second.advance(&mut client, CallEvent::Read(guard, Ok(frame)), &idle());
    let CallAction::Finish(Ok(reply)) = action else { panic!("the reply is there") };
    assert_eq!(decode(&reply), 4);
}

#[test]
fn late_reply_read_by_another_call_is_discarded() {
    let mut pipes = duplex();
    let mut client: PipeTransport<PostcardCodec, 2, 128> = PipeTransport::new(Side::A, Side::A);
    let (first, action) = start(&mut client, &mut pipes, b"a");
    let CallAction::Read(guard) = action else { panic!("nobody reads") };
    let (reading, action) = start(&mut client, &mut pipes, b"b");
    assert!(matches!(action, CallAction::Wait));
    first.cancel(&mut client);
    client.return_reader(guard);
    let (reading, action): (_, Action) = reading.advance(&mut client, CallEvent::Poll, &idle());
    let CallAction::Read(guard) = action else { panic!("nobody reads") };
    let (waiting, action) = start(&mut client, &mut pipes, b"c");
    assert!(matches!(action, CallAction::Wait));

    // Slot 0 first answers the cancelled call, then the one that waits now.
    let (reading, action): (_, Action) =
        reading.advance(&mut client, CallEvent::Read(guard, Ok(vec![0, 1])), &idle());
    let CallAction::Read(guard) = action else { panic!("its own reply is still to come") };
    let (waiting, action): (_, Action) = waiting.advance(&mut client, CallEvent::Poll, &idle());
    assert!(matches!(action, CallAction::Wait));
    let (_, action): (_, Action) =
        reading.advance(&mut client, CallEvent::Read(guard, Ok(vec![0, 3])), &idle());
    assert!(matches!(action, CallAction::Read(_)));
    let (_, action): (_, Action) = waiting.advance(&mut client, CallEvent::Poll, &idle());
    assert!(matches!(action, CallAction::Finish(Ok(reply)) if reply == vec![3]));
}

#[test]
fn call_that_was_not_sent_owes_no_reply() {
    let mut pipes = duplex();
    let mut client: PipeTransport<PostcardCodec, 1, 128> = PipeTransport::new(Side::A, Side::A);
    let waker = idle();
    let (call, _): (_, Action) = MuxedCall::new().advance(&mut client, CallEvent::Poll, &waker);
    call.cancel(&mut client);

    let (call, action) = start(&mut client, &mut pipes, &encode(&3));
    let CallAction::Read(guard) = action else { panic!("nobody reads") };
    serve_one(&mut pipes, double);
    let frame = read_frame(pipes.reader(*guard.get())).unwrap();
    let (_, action): (_, Action) =
        call.advance(&mut client, CallEvent::Read(guard, Ok(frame)), &waker);
    let CallAction::Finish(Ok(reply)) = action else { panic!("the reply is there") };
    assert_eq!(decode(&reply), 6);
}

#[test]
fn reply_to_a_cancelled_sequential_call_is_discarded() {
    let mut client: SequentialTransport = StreamTransport::new(Side::A, Side::A);
    let waker = idle();
    let begin = |client: &mut SequentialTransport| {
        let (call, action): (_, Action) =
            SequentialCall::new().advance(client, CallEvent::Encoded(Ok(vec![1])), &waker);
        let CallAction::Write(guard, _) = action else { panic!("nobody writes") };
        let (call, action): (_, Action) =
            call.advance(client, CallEvent::Written(guard, Ok(())), &waker);
        let CallAction::Read(guard) = action else { panic!("nobody reads") };
        (call, guard)
    };
    let (first, guard) = begin(&mut client);
    first.cancel(&mut client);
    client.return_reader(guard);
    let (second, guard) = begin(&mut client);
    let (second, action): (_, Action) =
        second.advance(&mut client, CallEvent::Read(guard, Ok(vec![11])), &waker);
    let CallAction::Read(guard) = action else { panic!("its own reply is still to come") };
    let (_, action): (_, Action) =
        second.advance(&mut client, CallEvent::Read(guard, Ok(vec![22])), &waker);
    let CallAction::Finish(Ok(reply)) = action else { panic!("the reply is there") };
    assert_eq!(reply, vec![22]);

    SequentialCall::new().cancel(&mut client);
    let (third, guard) = begin(&mut client);
    let (_, action): (_, Action) =
        third.advance(&mut client, CallEvent::Read(guard, Ok(vec![33])), &waker);
    assert!(matches!(action, CallAction::Finish(Ok(reply)) if reply == vec![33]));
}

type Answer = ReplyAction<Side, StreamTransportError<String, String>>;

#[test]
fn stream_replies_write_one_frame_or_none() {
    let mut server: PipeTransport<PostcardCodec, 2, 16> = PipeTransport::new(Side::B, Side::B);
    let waker = idle();
    let (_, action): (_, Answer) = StreamReply::muxed(MuxedReplyToken::new(3)).advance(
        &mut server,
        ReplyEvent::Encoded(Err("odd".to_string())),
        &waker,
    );
    assert!(matches!(
        action,
        ReplyAction::Finish(Err(StreamTransportError::Codec(e))) if e == "odd"
    ));

    let PollState::Ready(other) = server.poll_writer(&waker) else { panic!("nobody writes") };
    let (reply, action): (_, Answer) = StreamReply::muxed(MuxedReplyToken::new(3)).advance(
        &mut server,
        ReplyEvent::Encoded(Ok(vec![7])),
        &waker,
    );
    assert!(matches!(action, ReplyAction::Wait));
    server.return_writer(other);
    let (reply, action): (_, Answer) = reply.advance(&mut server, ReplyEvent::Poll, &waker);
    let ReplyAction::Write(guard, frame) = action else { panic!("nobody writes") };
    assert_eq!(frame, vec![3, 7]);
    let (_, action): (_, Answer) =
        reply.advance(&mut server, ReplyEvent::Written(guard, Err("gone".to_string())), &waker);
    assert!(matches!(
        action,
        ReplyAction::Finish(Err(StreamTransportError::Framing(e))) if e == "gone"
    ));

    let mut server: SequentialTransport = StreamTransport::new(Side::B, Side::B);
    let (reply, action): (_, Answer) =
        StreamReply::sequential().advance(&mut server, ReplyEvent::Encoded(Ok(vec![9])), &waker);
    let ReplyAction::Write(guard, frame) = action else { panic!("nobody writes") };
    assert_eq!(frame, vec![9]);
    let (_, action): (_, Answer) =
        reply.advance(&mut server, ReplyEvent::Written(guard, Ok(())), &waker);
    assert!(matches!(action, ReplyAction::Finish(Ok(()))));
    assert!(matches!(server.poll_writer(&waker), PollState::Ready(_)));
}

/// Sends a sequential request and leaves the call waiting for the reader, or
/// reading.
fn send_sequential(client: &mut SequentialTransport, n: u8) -> (SequentialCall, Action) {
    let waker = idle();
    let (call, action): (_, Action) =
        SequentialCall::new().advance(client, CallEvent::Encoded(Ok(vec![n])), &waker);
    let CallAction::Write(guard, _) = action else { panic!("nobody writes") };
    call.advance(client, CallEvent::Written(guard, Ok(())), &waker)
}

#[test]
fn later_cancel_leaves_an_earlier_sequential_call() {
    let mut client: SequentialTransport = StreamTransport::new(Side::A, Side::A);
    let waker = idle();
    let (first, action) = send_sequential(&mut client, 1);
    let CallAction::Read(guard) = action else { panic!("nobody reads") };
    let (second, action) = send_sequential(&mut client, 2);
    assert!(matches!(action, CallAction::Wait));
    second.cancel(&mut client);

    let (_, action): (_, Action) =
        first.advance(&mut client, CallEvent::Read(guard, Ok(vec![11])), &waker);
    assert!(matches!(action, CallAction::Finish(Ok(reply)) if reply == vec![11]));

    // The reply to the cancelled call is discarded when it comes.
    let (third, action) = send_sequential(&mut client, 3);
    let CallAction::Read(guard) = action else { panic!("nobody reads") };
    let (third, action): (_, Action) =
        third.advance(&mut client, CallEvent::Read(guard, Ok(vec![22])), &waker);
    let CallAction::Read(guard) = action else { panic!("its own reply is still to come") };
    let (_, action): (_, Action) =
        third.advance(&mut client, CallEvent::Read(guard, Ok(vec![33])), &waker);
    assert!(matches!(action, CallAction::Finish(Ok(reply)) if reply == vec![33]));
}

#[test]
fn failed_sequential_call_leaves_nothing_to_discard() {
    let mut client: SequentialTransport = StreamTransport::new(Side::A, Side::A);
    let waker = idle();
    let (call, action) = send_sequential(&mut client, 1);
    let CallAction::Read(guard) = action else { panic!("nobody reads") };
    let (call, action): (_, Action) =
        call.advance(&mut client, CallEvent::Read(guard, Err("cut".to_string())), &waker);
    assert!(matches!(action, CallAction::Finish(Err(_))));
    call.cancel(&mut client);

    let (call, action): (_, Action) =
        SequentialCall::new().advance(&mut client, CallEvent::Encoded(Ok(vec![2])), &waker);
    let CallAction::Write(guard, _) = action else { panic!("nobody writes") };
    let (call, _): (_, Action) =
        call.advance(&mut client, CallEvent::Written(guard, Err("full".to_string())), &waker);
    call.cancel(&mut client);

    let (call, action) = send_sequential(&mut client, 3);
    let CallAction::Read(guard) = action else { panic!("nobody reads") };
    let (_, action): (_, Action) =
        call.advance(&mut client, CallEvent::Read(guard, Ok(vec![33])), &waker);
    assert!(matches!(action, CallAction::Finish(Ok(reply)) if reply == vec![33]));
}

#[test]
fn overlapping_sequential_calls_change_places() {
    let mut client: SequentialTransport = StreamTransport::new(Side::A, Side::A);
    let waker = idle();
    let (first, action) = send_sequential(&mut client, 1);
    let CallAction::Read(guard) = action else { panic!("nobody reads") };
    client.return_reader(guard);
    let (second, action) = send_sequential(&mut client, 2);
    let CallAction::Read(guard) = action else { panic!("nobody reads") };
    let (_, action): (_, Action) =
        second.advance(&mut client, CallEvent::Read(guard, Ok(vec![11])), &waker);
    assert!(matches!(action, CallAction::Finish(Ok(reply)) if reply == vec![11]));

    // The first call is left with the second reply, which it gives up.
    first.cancel(&mut client);
    let (third, action) = send_sequential(&mut client, 3);
    let CallAction::Read(guard) = action else { panic!("nobody reads") };
    let (third, action): (_, Action) =
        third.advance(&mut client, CallEvent::Read(guard, Ok(vec![22])), &waker);
    let CallAction::Read(guard) = action else { panic!("its own reply is still to come") };
    let (_, action): (_, Action) =
        third.advance(&mut client, CallEvent::Read(guard, Ok(vec![33])), &waker);
    assert!(matches!(action, CallAction::Finish(Ok(reply)) if reply == vec![33]));
}
