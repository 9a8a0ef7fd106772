//! A transport composed from a framer, a codec and a reply router over a
//! byte stream.
//!
//! A call runs in steps: take a routing slot, tag the encoded request with
//! it, write the frame, then take turns with the other callers at reading
//! frames until the reply has arrived. Whoever reads a frame that belongs to
//! another caller puts it into that caller's slot.

use vstd::prelude::*;

use crate::error::{text_with, CallError, ErrorText, TransportResult};
use crate::io::local_lock::LocalLockGuard;
use crate::io::LocalLock;
use crate::stream::routing::{
    MuxedReplyToken, MuxedSlotGuard, MuxedSlots, ReplyRouter, RouterSlotHandle, Sequential,
    SlotState, UNTAGGED,
};
use crate::wake::PollState;
use core::marker::PhantomData;
use core::task::Waker;

verus! {

/// Where a transport keeps its router: in place or on the heap.
pub trait RouterStorage {
    /// The router itself.
    type Router: ReplyRouter;

    /// The stored router.
    spec fn stored(&self) -> Self::Router;

    /// The stored router.
    fn router(&self) -> (router: &Self::Router)
        ensures
            *router == self.stored(),
    ;

    /// The stored router, for modification in place.
    fn router_mut(&mut self) -> (router: &mut Self::Router)
        ensures
            *router == old(self).stored(),
            final(self).stored() == *final(router),
    ;
}

impl RouterStorage for Sequential {
    type Router = Sequential;

    open spec fn stored(&self) -> Sequential {
        *self
    }

    fn router(&self) -> (router: &Sequential) {
        self
    }

    fn router_mut(&mut self) -> (router: &mut Sequential) {
        self
    }
}

impl RouterStorage for Box<Sequential> {
    type Router = Sequential;

    open spec fn stored(&self) -> Sequential {
        **self
    }

    fn router(&self) -> (router: &Sequential) {
        &**self
    }

    fn router_mut(&mut self) -> (router: &mut Sequential) {
        &mut **self
    }
}

impl<const N: usize, const BUF: usize> RouterStorage for MuxedSlots<N, BUF> {
    type Router = MuxedSlots<N, BUF>;

    open spec fn stored(&self) -> MuxedSlots<N, BUF> {
        *self
    }

    fn router(&self) -> (router: &MuxedSlots<N, BUF>) {
        self
    }

    fn router_mut(&mut self) -> (router: &mut MuxedSlots<N, BUF>) {
        self
    }
}

impl<const N: usize, const BUF: usize> RouterStorage for Box<MuxedSlots<N, BUF>> {
    type Router = MuxedSlots<N, BUF>;

    open spec fn stored(&self) -> MuxedSlots<N, BUF> {
        **self
    }

    fn router(&self) -> (router: &MuxedSlots<N, BUF>) {
        &**self
    }

    fn router_mut(&mut self) -> (router: &mut MuxedSlots<N, BUF>) {
        &mut **self
    }
}

/// Errors of a [`StreamTransport`].
#[derive(Debug)]
pub enum StreamTransportError<F, C> {
    /// The framing layer failed.
    Framing(F),
    /// The codec failed.
    Codec(C),
}

impl<F: ErrorText, C: ErrorText> ErrorText for StreamTransportError<F, C> {
    open spec fn text(&self) -> Seq<char> {
        match self {
            StreamTransportError::Framing(e) => e.text(),
            StreamTransportError::Codec(e) => "codec error: "@ + e.text(),
        }
    }

    fn to_text(&self) -> (text: String) {
        match self {
            StreamTransportError::Framing(e) => e.to_text(),
            StreamTransportError::Codec(e) => text_with("codec error: ", e.to_text().as_str()),
        }
    }
}

impl<T, F, C> TransportResult<T> for StreamTransportError<F, C> {
    type Output = Result<T, CallError<StreamTransportError<F, C>>>;

    open spec fn output(result: Result<T, Self>) -> Self::Output {
        crate::error::call_result(result)
    }

    fn into_output(result: Result<T, Self>) -> (output: Self::Output) {
        crate::error::into_call_result(result)
    }
}

/// Answers a request of a sequential stream: the reply is the next frame.
pub struct StreamReplyToken<Router> {
    _phantom: PhantomData<Router>,
}

impl<Router> StreamReplyToken<Router> {
    /// The token, which carries nothing.
    pub closed spec fn marker() -> Self {
        StreamReplyToken { _phantom: PhantomData }
    }

    /// A token.
    pub fn new() -> (token: Self)
        ensures
            token == Self::marker(),
    {
        StreamReplyToken { _phantom: PhantomData }
    }
}

/// A sequential request that is not answered.
#[derive(Clone, Copy, PartialEq, Eq, Structural, Debug)]
pub struct Outstanding {
    /// Its number.
    pub number: u64,
    /// Whether the call that sent it was given up.
    pub given_up: bool,
}

/// The sequential requests of a transport, which are answered in their order.
#[verifier::ext_equal]
pub struct Backlog {
    /// How many requests were handed over for writing; they are numbered from
    /// zero. The highest count stays as it is.
    pub requests: u64,
    /// The requests that are not answered, oldest first.
    pub queue: Seq<Outstanding>,
}

/// No request was sent.
pub open spec fn no_backlog() -> Backlog {
    Backlog { requests: 0, queue: Seq::empty() }
}

/// The backlog after one more request was handed over.
pub open spec fn queued(backlog: Backlog) -> Backlog {
    Backlog {
        requests: crate::stream::routing::one_more(backlog.requests),
        queue: backlog.queue.push(Outstanding { number: backlog.requests, given_up: false }),
    }
}

/// `i` is the first place of the request `number` in `queue`.
pub open spec fn is_place(queue: Seq<Outstanding>, number: u64, i: int) -> bool {
    &&& 0 <= i < queue.len()
    &&& queue[i].number == number
    &&& forall|j: int| 0 <= j < i ==> (#[trigger] queue[j]).number != number
}

/// The first place of the request `number` in `queue`, if it is there.
pub open spec fn place_of(queue: Seq<Outstanding>, number: u64) -> Option<int> {
    if exists|i: int| is_place(queue, number, i) {
        Some(choose|i: int| is_place(queue, number, i))
    } else {
        None
    }
}

/// There is only one first place.
pub proof fn lemma_place(queue: Seq<Outstanding>, number: u64, i: int)
    requires
        is_place(queue, number, i),
    ensures
        place_of(queue, number) == Some(i),
{
    let k = choose|k: int| is_place(queue, number, k);
    assert(is_place(queue, number, k));
    if k < i {
        assert(queue[k].number != number);
    } else if i < k {
        assert(queue[i].number != number);
    }
}

/// The backlog after the call that sent the request `number` was given up.
pub open spec fn left(backlog: Backlog, number: u64) -> Backlog {
    match place_of(backlog.queue, number) {
        Some(i) => Backlog {
            queue: backlog.queue.update(
                i,
                Outstanding { given_up: true, ..backlog.queue[i] },
            ),
            ..backlog
        },
        None => backlog,
    }
}

/// The backlog after the request `number` failed.
pub open spec fn withdrawn(backlog: Backlog, number: u64) -> Backlog {
    match place_of(backlog.queue, number) {
        Some(i) => Backlog { queue: backlog.queue.remove(i), ..backlog },
        None => backlog,
    }
}

/// Whether the next frame answers a request whose call was given up.
pub open spec fn answers_given_up(backlog: Backlog) -> bool {
    backlog.queue.len() > 0 && backlog.queue[0].given_up
}

/// The backlog after the call that sent the request `number` read a frame. The
/// frame answers the oldest request. If that request is another call's, which
/// has not been given up, the two calls change places: the other one is left
/// with the reply to `number`.
pub open spec fn claimed(backlog: Backlog, number: u64) -> Backlog {
    if backlog.queue.len() == 0 {
        backlog
    } else {
        let oldest = backlog.queue[0];
        let rest = backlog.queue.skip(1);
        if oldest.given_up || oldest.number == number {
            Backlog { queue: rest, ..backlog }
        } else {
            match place_of(rest, number) {
                Some(i) => Backlog {
                    queue: rest.update(i, Outstanding { number: oldest.number, ..rest[i] }),
                    ..backlog
                },
                None => Backlog { queue: rest, ..backlog },
            }
        }
    }
}

/// A transport over a reader `R` and a writer `W`. `S` stores the router.
#[verifier::reject_recursive_types(Router)]
#[verifier::reject_recursive_types(S)]
pub struct StreamTransport<R, W, Framer, Codec, Router, Req, Resp, S = Router> where
    S: RouterStorage<Router = Router>,
 {
    reader: LocalLock<R>,
    writer: LocalLock<W>,
    framer: Framer,
    codec: Codec,
    router: S,
    requests: u64,
    queue: Vec<Outstanding>,
    _phantom: PhantomData<(Router, Req, Resp)>,
}

impl<R, W, Framer, Codec, Router, Req, Resp, S> StreamTransport<
    R,
    W,
    Framer,
    Codec,
    Router,
    Req,
    Resp,
    S,
> where Router: ReplyRouter, S: RouterStorage<Router = Router> {
    /// The reader while nobody reads.
    pub closed spec fn idle_reader(&self) -> Option<R> {
        self.reader@
    }

    /// The writer while nobody writes.
    pub closed spec fn idle_writer(&self) -> Option<W> {
        self.writer@
    }

    /// Whether a task is parked until nobody reads.
    pub closed spec fn reader_waiting(&self) -> bool {
        self.reader.waiting()
    }

    /// Whether a task is parked until nobody writes.
    pub closed spec fn writer_waiting(&self) -> bool {
        self.writer.waiting()
    }

    /// The sequential requests that were sent, and those of them that are not
    /// answered.
    pub closed spec fn backlog(&self) -> Backlog {
        Backlog { requests: self.requests, queue: self.queue@ }
    }

    /// The framing and the codec.
    pub closed spec fn layers(&self) -> (Framer, Codec) {
        (self.framer, self.codec)
    }

    /// The streams, the tasks that wait for them, and the layers are as in
    /// `other`.
    pub open spec fn same_streams(&self, other: &Self) -> bool {
        &&& self.idle_reader() == other.idle_reader()
        &&& self.idle_writer() == other.idle_writer()
        &&& self.reader_waiting() == other.reader_waiting()
        &&& self.writer_waiting() == other.writer_waiting()
        &&& self.layers() == other.layers()
    }

    /// The router.
    pub closed spec fn stored_router(&self) -> Router {
        self.router.stored()
    }

    fn from_parts(reader: R, writer: W, framer: Framer, codec: Codec, router: S) -> (transport:
        Self)
        ensures
            transport.idle_reader() == Some(reader),
            transport.idle_writer() == Some(writer),
            transport.layers() == (framer, codec),
            transport.stored_router() == router.stored(),
            !transport.reader_waiting(),
            !transport.writer_waiting(),
            transport.backlog() == no_backlog(),
    {
        StreamTransport {
            reader: LocalLock::new(reader),
            writer: LocalLock::new(writer),
            framer,
            codec,
            router,
            requests: 0,
            queue: Vec::new(),
            _phantom: PhantomData,
        }
    }

    /// The framing layer.
    pub fn framer(&self) -> (framer: &Framer)
        ensures
            *framer == self.layers().0,
    {
        &self.framer
    }

    /// The codec.
    pub fn codec(&self) -> (codec: &Codec)
        ensures
            *codec == self.layers().1,
    {
        &self.codec
    }

    /// The router.
    pub fn router(&self) -> (router: &Router)
        ensures
            *router == self.stored_router(),
    {
        self.router.router()
    }

    /// One poll for the right to read.
    pub fn poll_reader(&mut self, waker: &Waker) -> (reader: PollState<LocalLockGuard<R>>)
        ensures
            final(self).idle_reader() is None,
            final(self).idle_writer() == old(self).idle_writer(),
            final(self).writer_waiting() == old(self).writer_waiting(),
            final(self).layers() == old(self).layers(),
            final(self).stored_router() == old(self).stored_router(),
            final(self).backlog() == old(self).backlog(),
            match old(self).idle_reader() {
                Some(r) => {
                    &&& reader matches PollState::Ready(g) && g.inner() == r
                    &&& final(self).reader_waiting() == old(self).reader_waiting()
                },
                None => reader is Pending && final(self).reader_waiting(),
            },
    {
        self.reader.poll_lock(waker)
    }

    /// Ends the right to read and wakes the next reader.
    pub fn return_reader(&mut self, reader: LocalLockGuard<R>)
        requires
            old(self).idle_reader() is None,
        ensures
            final(self).idle_reader() == Some(reader.inner()),
            !final(self).reader_waiting(),
            final(self).idle_writer() == old(self).idle_writer(),
            final(self).writer_waiting() == old(self).writer_waiting(),
            final(self).layers() == old(self).layers(),
            final(self).stored_router() == old(self).stored_router(),
            final(self).backlog() == old(self).backlog(),
    {
        self.reader.unlock(reader)
    }

    /// One poll for the right to write.
    pub fn poll_writer(&mut self, waker: &Waker) -> (writer: PollState<LocalLockGuard<W>>)
        ensures
            final(self).idle_writer() is None,
            final(self).idle_reader() == old(self).idle_reader(),
            final(self).reader_waiting() == old(self).reader_waiting(),
            final(self).layers() == old(self).layers(),
            final(self).stored_router() == old(self).stored_router(),
            final(self).backlog() == old(self).backlog(),
            match old(self).idle_writer() {
                Some(w) => {
                    &&& writer matches PollState::Ready(g) && g.inner() == w
                    &&& final(self).writer_waiting() == old(self).writer_waiting()
                },
                None => writer is Pending && final(self).writer_waiting(),
            },
    {
        self.writer.poll_lock(waker)
    }

    /// Ends the right to write and wakes the next writer.
    pub fn return_writer(&mut self, writer: LocalLockGuard<W>)
        requires
            old(self).idle_writer() is None,
        ensures
            final(self).idle_writer() == Some(writer.inner()),
            !final(self).writer_waiting(),
            final(self).idle_reader() == old(self).idle_reader(),
            final(self).reader_waiting() == old(self).reader_waiting(),
            final(self).layers() == old(self).layers(),
            final(self).stored_router() == old(self).stored_router(),
            final(self).backlog() == old(self).backlog(),
    {
        self.writer.unlock(writer)
    }

    /// Queues a sequential request that is handed over for writing and returns
    /// its number.
    pub fn queue_request(&mut self) -> (number: u64)
        ensures
            final(self).same_streams(old(self)),
            final(self).stored_router() == old(self).stored_router(),
            number == old(self).backlog().requests,
            final(self).backlog() == queued(old(self).backlog()),
    {
        let number: u64 = self.requests;
        if self.requests < u64::MAX {
            self.requests = self.requests + 1;
        }
        self.queue.push(Outstanding { number, given_up: false });
        number
    }

    /// The place of the sequential request with this number in the queue.
    fn find_request(&self, number: u64) -> (place: Option<usize>)
        ensures
            match place_of(self.backlog().queue, number) {
                Some(i) => (place matches Some(p) && p == i) && 0 <= i < self.backlog().queue.len(),
                None => place is None,
            },
    {
        let mut i: usize = 0;
        while i < self.queue.len()
            invariant
                i <= self.queue@.len(),
                forall|j: int| 0 <= j < i ==> (#[trigger] self.queue@[j]).number != number,
            decreases self.queue.len() - i,
        {
            if self.queue[i].number == number {
                proof {
                    lemma_place(self.queue@, number, i as int);
                }
                return Some(i);
            }
            i = i + 1;
        }
        proof {
            if place_of(self.queue@, number) is Some {
                let k = choose|k: int| is_place(self.queue@, number, k);
                assert(is_place(self.queue@, number, k));
            }
        }
        None
    }

    /// Notes that the sequential request with this number was given up: the
    /// frame that answers it is to be discarded.
    pub fn leave_request(&mut self, number: u64)
        ensures
            final(self).same_streams(old(self)),
            final(self).stored_router() == old(self).stored_router(),
            final(self).backlog() == left(old(self).backlog(), number),
    {
        match self.find_request(number) {
            Some(i) => {
                let entry = Outstanding { number: self.queue[i].number, given_up: true };
                self.queue.set(i, entry);
                assert(self.backlog() =~= left(old(self).backlog(), number));
            },
            None => {},
        }
    }

    /// Takes the sequential request with this number out of the queue: it
    /// failed, and no frame will answer it.
    pub fn withdraw_request(&mut self, number: u64)
        ensures
            final(self).same_streams(old(self)),
            final(self).stored_router() == old(self).stored_router(),
            final(self).backlog() == withdrawn(old(self).backlog(), number),
    {
        match self.find_request(number) {
            Some(i) => {
                self.queue.remove(i);
            },
            None => {},
        }
    }

    /// Takes note of a frame that the sequential call with this number has
    /// read: whether it answers a request that was given up, and so is to be
    /// discarded.
    pub fn claim_frame(&mut self, number: u64) -> (discard: bool)
        ensures
            final(self).same_streams(old(self)),
            final(self).stored_router() == old(self).stored_router(),
            discard == answers_given_up(old(self).backlog()),
            final(self).backlog() == claimed(old(self).backlog(), number),
    {
        if self.queue.len() == 0 {
            return false;
        }
        let oldest: Outstanding = self.queue.remove(0);
        assert(self.queue@ =~= old(self).backlog().queue.skip(1));
        if oldest.given_up {
            return true;
        }
        if oldest.number != number {
            match self.find_request(number) {
                Some(i) => {
                    let entry = Outstanding {
                        number: oldest.number,
                        given_up: self.queue[i].given_up,
                    };
                    self.queue.set(i, entry);
                },
                None => {},
            }
        }
        false
    }
}

impl<R, W, Framer, Codec, Router, Req, Resp> StreamTransport<
    R,
    W,
    Framer,
    Codec,
    Router,
    Req,
    Resp,
> where Router: ReplyRouter + RouterStorage<Router = Router> {
    /// A transport with the given layers and the router in place.
    pub fn with_layers(
        reader: R,
        writer: W,
        framer: Framer,
        codec: Codec,
        router: Router,
    ) -> (transport: Self)
        ensures
            transport.idle_reader() == Some(reader),
            transport.idle_writer() == Some(writer),
            transport.layers() == (framer, codec),
            transport.stored_router() == router.stored(),
            !transport.reader_waiting(),
            !transport.writer_waiting(),
            transport.backlog() == no_backlog(),
    {
        Self::from_parts(reader, writer, framer, codec, router)
    }

    /// A transport with default layers.
    pub fn new(reader: R, writer: W) -> (transport: Self) where
        Framer: Default,
        Codec: Default,
        Router: Default,

        ensures
            transport.idle_reader() == Some(reader),
            transport.idle_writer() == Some(writer),
            call_ensures(Framer::default, (), transport.layers().0),
            call_ensures(Codec::default, (), transport.layers().1),
            exists|router: Router| #[trigger]
                call_ensures(Router::default, (), router) && transport.stored_router()
                    == router.stored(),
            !transport.reader_waiting(),
            !transport.writer_waiting(),
            transport.backlog() == no_backlog(),
    {
        Self::with_layers(reader, writer, Framer::default(), Codec::default(), Router::default())
    }
}

impl<R, W, Framer, Codec, Router, Req, Resp> StreamTransport<
    R,
    W,
    Framer,
    Codec,
    Router,
    Req,
    Resp,
    Box<Router>,
> where Router: ReplyRouter, Box<Router>: RouterStorage<Router = Router> {
    /// A transport with the given layers and the router on the heap.
    pub fn with_boxed_router(
        reader: R,
        writer: W,
        framer: Framer,
        codec: Codec,
        router: Box<Router>,
    ) -> (transport: Self)
        ensures
            transport.idle_reader() == Some(reader),
            transport.idle_writer() == Some(writer),
            transport.layers() == (framer, codec),
            transport.stored_router() == router.stored(),
            !transport.reader_waiting(),
            !transport.writer_waiting(),
            transport.backlog() == no_backlog(),
    {
        Self::from_parts(reader, writer, framer, codec, router)
    }
}

/// The routing bytes of `slot` followed by `payload`.
pub fn tag_frame<Router: ReplyRouter>(slot: &Router::SlotHandle, payload: &[u8]) -> (frame: Vec<u8>)
    ensures
        frame@ == Router::header(slot.id()) + payload@,
{
    proof {
        Router::lemma_header_len(slot.id());
    }
    let mut frame: Vec<u8> = vec![0u8; Router::HEADER_LEN];
    frame.extend_from_slice(payload);
    assert(frame@.skip(Router::header_len()) =~= payload@);
    Router::write_header(slot, frame.as_mut_slice());
    frame
}

/// The slot that `frame` belongs to, and the payload behind the routing bytes.
pub fn split_frame<Router: ReplyRouter>(frame: &[u8]) -> (parts: (u8, &[u8]))
    requires
        frame@.len() >= Router::header_len(),
    ensures
        parts.0 == Router::addressee(frame@),
        parts.1@ == frame@.skip(Router::header_len()),
{
    proof {
        Router::lemma_header_len(0);
    }
    let payload = vstd::slice::slice_subrange(frame, Router::HEADER_LEN, frame.len());
    assert(payload@ =~= frame@.skip(Router::header_len()));
    (Router::parse_header(frame), payload)
}

/// The reply frame for the request that `token` names.
pub fn reply_frame(token: &MuxedReplyToken, payload: &[u8]) -> (frame: Vec<u8>)
    ensures
        frame@ == seq![token.id()] + payload@,
{
    let mut frame: Vec<u8> = Vec::new();
    frame.push(token.slot_id());
    frame.extend_from_slice(payload);
    assert(frame@ =~= seq![token.id()] + payload@);
    frame
}

/// The request payload of a multiplexed frame, and the token to answer it.
pub fn open_request<const N: usize, const BUF: usize>(frame: &[u8]) -> (request: (
    MuxedReplyToken,
    &[u8],
))
    requires
        frame@.len() >= 1,
    ensures
        request.0.id() == frame@[0],
        request.1@ == frame@.skip(1),
{
    let (slot_id, payload) = split_frame::<MuxedSlots<N, BUF>>(frame);
    (MuxedReplyToken::new(slot_id), payload)
}

/// What a caller that waits for its reply does next.
pub enum Turn<R> {
    /// The reply is here.
    Reply(Vec<u8>),
    /// It is the caller's turn to read a frame.
    Read(LocalLockGuard<R>),
    /// Another caller reads; wait until it is done.
    Wait,
}

impl<R, W, Framer, Codec, const N: usize, const BUF: usize, Req, Resp, S> StreamTransport<
    R,
    W,
    Framer,
    Codec,
    MuxedSlots<N, BUF>,
    Req,
    Resp,
    S,
> where S: RouterStorage<Router = MuxedSlots<N, BUF>> {
    /// Validity: the router is valid.
    pub open spec fn wf(&self) -> bool {
        self.stored_router().wf()
    }

    /// The slots of the router.
    pub open spec fn slots(&self) -> Seq<SlotState> {
        self.stored_router()@
    }

    /// Whether a task is parked until a slot becomes free.
    pub open spec fn slot_waiting(&self) -> bool {
        self.stored_router().acquire_waiting()
    }

    /// Starts a call: one poll for a free slot.
    pub fn poll_slot(&mut self, waker: &Waker) -> (slot: PollState<MuxedSlotGuard<N, BUF>>)
        requires
            old(self).wf(),
        ensures
            final(self).wf(),
            final(self).same_streams(old(self)),
            final(self).backlog() == old(self).backlog(),
            final(self).slot_waiting() == (slot is Pending || old(self).slot_waiting()),
            match crate::stream::routing::first_free(old(self).slots()) {
                Some(i) => {
                    &&& slot matches PollState::Ready(s) && s.id() == i as u8
                    &&& final(self).slots() == crate::stream::routing::acquired(
                        old(self).slots(),
                        i as u8 as int,
                    )
                },
                None => slot is Pending && final(self).slots() == old(self).slots(),
            },
    {
        match self.router.router_mut().poll_acquire(waker) {
            PollState::Ready(acquired) => {
                let Ok(slot) = acquired;
                PollState::Ready(slot)
            },
            PollState::Pending => PollState::Pending,
        }
    }

    /// The request frame of a call: the slot's id, then the encoded request.
    pub fn request_frame(&self, slot: &MuxedSlotGuard<N, BUF>, payload: &[u8]) -> (frame: Vec<u8>)
        ensures
            frame@ == seq![slot.id()] + payload@,
    {
        tag_frame::<MuxedSlots<N, BUF>>(slot, payload)
    }

    /// One poll of a caller that waits for its reply. A reply that another
    /// caller put into the slot comes first; else the caller reads a frame
    /// itself, or waits while somebody else does.
    pub fn poll_turn(&mut self, slot: &MuxedSlotGuard<N, BUF>, waker: &Waker) -> (turn: Turn<R>)
        requires
            old(self).wf(),
        ensures
            final(self).wf(),
            final(self).stored_router() == old(self).stored_router(),
            final(self).backlog() == old(self).backlog(),
            final(self).idle_writer() == old(self).idle_writer(),
            final(self).writer_waiting() == old(self).writer_waiting(),
            final(self).layers() == old(self).layers(),
            match crate::stream::routing::pending_reply(old(self).slots(), slot.id() as int) {
                Some(bytes) => {
                    &&& turn matches Turn::Reply(reply) && reply@ == bytes
                    &&& final(self).idle_reader() == old(self).idle_reader()
                    &&& final(self).reader_waiting() == old(self).reader_waiting()
                },
                None => {
                    &&& final(self).idle_reader() is None
                    &&& match old(self).idle_reader() {
                        Some(r) => {
                            &&& turn matches Turn::Read(guard) && guard.inner() == r
                            &&& final(self).reader_waiting() == old(self).reader_waiting()
                        },
                        None => turn is Wait && final(self).reader_waiting(),
                    }
                },
            },
    {
        match self.router.router().try_recv_slot(slot.slot_id()) {
            Some(bytes) => {
                let mut reply: Vec<u8> = Vec::new();
                reply.extend_from_slice(bytes);
                assert(reply@ =~= bytes@);
                return Turn::Reply(reply);
            },
            None => {},
        }
        match self.poll_reader(waker) {
            PollState::Ready(guard) => Turn::Read(guard),
            PollState::Pending => Turn::Wait,
        }
    }

    /// Ends a turn with the frame that was read. The caller's own reply is
    /// returned; a frame for another slot is delivered there, and the late
    /// reply to a call that was given up is discarded.
    pub fn take_frame(
        &mut self,
        slot: &MuxedSlotGuard<N, BUF>,
        reader: LocalLockGuard<R>,
        frame: &[u8],
    ) -> (reply: Option<Vec<u8>>)
        requires
            old(self).wf(),
            old(self).idle_reader() is None,
            frame@.len() >= 1,
        ensures
            final(self).wf(),
            final(self).idle_reader() == Some(reader.inner()),
            !final(self).reader_waiting(),
            final(self).idle_writer() == old(self).idle_writer(),
            final(self).writer_waiting() == old(self).writer_waiting(),
            final(self).slot_waiting() == old(self).slot_waiting(),
            final(self).backlog() == old(self).backlog(),
            final(self).layers() == old(self).layers(),
            if frame@[0] == slot.id() && !crate::stream::routing::owes(
                old(self).slots(),
                slot.id() as int,
                crate::stream::routing::UNTAGGED,
            ) {
                &&& reply matches Some(r) && r@ == frame@.skip(1)
                &&& final(self).slots() == old(self).slots()
            } else {
                &&& reply is None
                &&& final(self).slots() == crate::stream::routing::delivered(
                    old(self).slots(),
                    frame@[0] as int,
                    crate::stream::routing::UNTAGGED,
                    frame@.skip(1),
                    BUF as int,
                )
            },
    {
        self.return_reader(reader);
        let (slot_id, payload) = split_frame::<MuxedSlots<N, BUF>>(frame);
        if slot_id == slot.slot_id() {
            if self.router.router_mut().settle(slot_id, UNTAGGED) {
                return None;
            }
            let mut reply: Vec<u8> = Vec::new();
            reply.extend_from_slice(payload);
            assert(reply@ =~= payload@);
            return Some(reply);
        }
        self.router.router_mut().deliver(slot_id, payload);
        None
    }

    /// Ends a call that is finished, or given up before its request was on its
    /// way: the slot becomes free.
    pub fn end_call(&mut self, slot: MuxedSlotGuard<N, BUF>)
        requires
            old(self).wf(),
        ensures
            final(self).wf(),
            final(self).same_streams(old(self)),
            final(self).backlog() == old(self).backlog(),
            !final(self).slot_waiting(),
            final(self).slots() == crate::stream::routing::freed(
                old(self).slots(),
                slot.id() as int,
            ),
    {
        self.router.router_mut().release(slot);
    }

    /// Gives up a call whose request is on its way: the slot becomes free, and
    /// a reply that comes late will be discarded.
    pub fn abandon_call(&mut self, slot: MuxedSlotGuard<N, BUF>)
        requires
            old(self).wf(),
        ensures
            final(self).wf(),
            final(self).same_streams(old(self)),
            final(self).backlog() == old(self).backlog(),
            !final(self).slot_waiting(),
            final(self).slots() == crate::stream::routing::abandoned(
                old(self).slots(),
                slot.id() as int,
                crate::stream::routing::UNTAGGED,
            ),
    {
        self.router.router_mut().abandon(slot, UNTAGGED);
    }
}

/// The reply to a request goes to the slot that the request came from.
pub proof fn law_reply_goes_to_caller(id: u8, request: Seq<u8>, reply: Seq<u8>)
    ensures
        ({
            let request_frame = seq![id] + request;
            let reply_frame = seq![request_frame[0]] + reply;
            &&& request_frame.skip(1) == request
            &&& reply_frame[0] == id
            &&& reply_frame.skip(1) == reply
        }),
{
    assert((seq![id] + request).skip(1) =~= request);
    assert((seq![id] + reply).skip(1) =~= reply);
}

/// A frame that one caller reads for another is what the other caller finds
/// in its slot, if it fits the slot's buffer, is not empty and no late reply
/// is owed to that slot.
pub proof fn law_callers_read_for_each_other(
    slots: Seq<SlotState>,
    owner: u8,
    reply: Seq<u8>,
    limit: int,
)
    requires
        owner < slots.len(),
        slots[owner as int].in_use,
        !crate::stream::routing::owes(slots, owner as int, crate::stream::routing::UNTAGGED),
        0 < reply.len() <= limit,
    ensures
        ({
            let frame = seq![owner] + reply;
            let after = crate::stream::routing::delivered(
                slots,
                frame[0] as int,
                crate::stream::routing::UNTAGGED,
                frame.skip(1),
                limit,
            );
            crate::stream::routing::pending_reply(after, owner as int) == Some(reply)
        }),
{
    assert((seq![owner] + reply).skip(1) =~= reply);
    crate::stream::routing::law_received_is_delivered(
        slots,
        owner as int,
        UNTAGGED,
        reply,
        limit,
    );
}

/// A request that is sent stands last among those that wait for their answers,
/// under a number of its own, and is not given up.
pub proof fn law_sent_request_waits_last(backlog: Backlog)
    ensures
        queued(backlog).queue.len() == backlog.queue.len() + 1,
        queued(backlog).queue.take(backlog.queue.len() as int) == backlog.queue,
        queued(backlog).queue.last().number == backlog.requests,
        !queued(backlog).queue.last().given_up,
        backlog.requests < u64::MAX ==> queued(backlog).requests == backlog.requests + 1,
{
    assert(queued(backlog).queue.take(backlog.queue.len() as int) =~= backlog.queue);
}

/// A call that is given up is marked in its place; every other request, and the
/// order of all, stays.
pub proof fn law_given_up_request_keeps_its_place(backlog: Backlog, number: u64, i: int)
    requires
        is_place(backlog.queue, number, i),
    ensures
        left(backlog, number).queue.len() == backlog.queue.len(),
        left(backlog, number).queue[i].given_up,
        left(backlog, number).queue[i].number == number,
        forall|j: int|
            0 <= j < backlog.queue.len() && j != i ==> #[trigger] left(backlog, number).queue[j]
                == backlog.queue[j],
        left(backlog, number).requests == backlog.requests,
{
    lemma_place(backlog.queue, number, i);
}

/// A request that is withdrawn is no longer waited for; every other one, and
/// their order, stays.
pub proof fn law_withdrawn_request_leaves_the_others(backlog: Backlog, number: u64, i: int)
    requires
        is_place(backlog.queue, number, i),
    ensures
        withdrawn(backlog, number).queue == backlog.queue.take(i) + backlog.queue.skip(i + 1),
        withdrawn(backlog, number).requests == backlog.requests,
{
    lemma_place(backlog.queue, number, i);
    assert(withdrawn(backlog, number).queue =~= backlog.queue.take(i) + backlog.queue.skip(i + 1));
}

/// A frame answers the oldest request that waits: exactly one request fewer
/// waits behind it. It is discarded exactly if that request was given up.
pub proof fn law_frame_answers_the_oldest_request(backlog: Backlog, number: u64)
    requires
        backlog.queue.len() > 0,
    ensures
        claimed(backlog, number).queue.len() == backlog.queue.len() - 1,
        claimed(backlog, number).requests == backlog.requests,
        answers_given_up(backlog) == backlog.queue[0].given_up,
        backlog.queue[0].given_up || backlog.queue[0].number == number ==> claimed(
            backlog,
            number,
        ).queue == backlog.queue.skip(1),
        forall|j: int|
            0 <= j < backlog.queue.len() - 1 ==> (#[trigger] claimed(
                backlog,
                number,
            ).queue[j]).given_up == backlog.queue[j + 1].given_up,
{
    let rest = backlog.queue.skip(1);
    if place_of(rest, number) is Some {
        let i = choose|i: int| is_place(rest, number, i);
        assert(is_place(rest, number, i));
    }
}

} // verus!
