//! Replies over a stream, step by step.
//!
//! A reply takes in what happened and says what to do next; whoever drives it
//! encodes and writes on its behalf. Nothing is written if the response cannot
//! be encoded; else exactly one frame is.

use vstd::prelude::*;

use crate::io::local_lock::LocalLockGuard;
use crate::stream::duplex::{
    DuplexHeader, DuplexServerError, DuplexServerHalf, DuplexShared, KIND_RESPONSE,
};
use crate::stream::routing::{MuxedReplyToken, ReplyRouter};
use crate::stream::transport::{RouterStorage, StreamTransport, StreamTransportError};
use crate::wake::PollState;
use core::task::Waker;

verus! {

/// What happened to a reply.
pub enum ReplyEvent<W, F, C> {
    /// The reply was polled.
    Poll,
    /// The response was encoded, or could not be.
    Encoded(Result<Vec<u8>, C>),
    /// The frame was written, or could not be; the writer is given back.
    Written(LocalLockGuard<W>, Result<(), F>),
}

/// What a reply needs next. `E` is the error that it may end in.
pub enum ReplyAction<W, E> {
    /// Wait until the reply is woken, then poll it.
    Wait,
    /// Write this frame.
    Write(LocalLockGuard<W>, Vec<u8>),
    /// The reply is over.
    Finish(Result<(), E>),
}

/// Where a reply stands.
pub enum ReplyPhase {
    /// Its response is being encoded.
    Encode,
    /// It waits for the right to write its frame.
    AwaitWriter(Seq<u8>),
    /// Its frame is being written.
    Write,
    /// It is over.
    Done,
}

enum ReplyStage {
    Encode,
    AwaitWriter(Vec<u8>),
    Write,
    Done,
}

impl View for ReplyStage {
    type V = ReplyPhase;

    closed spec fn view(&self) -> ReplyPhase {
        match *self {
            ReplyStage::Encode => ReplyPhase::Encode,
            ReplyStage::AwaitWriter(frame) => ReplyPhase::AwaitWriter(frame@),
            ReplyStage::Write => ReplyPhase::Write,
            ReplyStage::Done => ReplyPhase::Done,
        }
    }
}

/// Whether `event` can happen to a reply in this phase.
pub open spec fn reply_expected<W, F, C>(phase: ReplyPhase, event: ReplyEvent<W, F, C>) -> bool {
    match event {
        ReplyEvent::Poll => phase is AwaitWriter,
        ReplyEvent::Encoded(_) => phase is Encode,
        ReplyEvent::Written(_, _) => phase is Write,
    }
}

/// The writer while nobody writes, and whether a task is parked until then.
pub struct WriterState<W> {
    /// The writer while nobody writes.
    pub idle: Option<W>,
    /// Whether a task is parked until nobody writes.
    pub waiting: bool,
}

/// A reply that has a frame to send writes it as soon as nobody else writes.
pub open spec fn reply_sends<W, E>(
    writer: WriterState<W>,
    frame: Seq<u8>,
    after: WriterState<W>,
    phase: ReplyPhase,
    action: ReplyAction<W, E>,
) -> bool {
    &&& after.idle is None
    &&& match writer.idle {
        Some(w) => {
            &&& phase == ReplyPhase::Write
            &&& action matches ReplyAction::Write(g, f) && g.inner() == w && f@ == frame
            &&& after.waiting == writer.waiting
        },
        None => {
            &&& phase == ReplyPhase::AwaitWriter(frame)
            &&& action is Wait
            &&& after.waiting
        },
    }
}

/// What a reply does. `frame` is the frame of an encoded response, `codec` and
/// `framing` are the errors that failures become.
pub open spec fn reply_advances<W, F, C, E>(
    writer: WriterState<W>,
    before: ReplyPhase,
    event: ReplyEvent<W, F, C>,
    frame: spec_fn(Seq<u8>) -> Seq<u8>,
    codec: spec_fn(C) -> E,
    framing: spec_fn(F) -> E,
    after: WriterState<W>,
    phase: ReplyPhase,
    action: ReplyAction<W, E>,
) -> bool {
    match (before, event) {
        (ReplyPhase::Encode, ReplyEvent::Encoded(Ok(payload))) => reply_sends(
            writer,
            frame(payload@),
            after,
            phase,
            action,
        ),
        (ReplyPhase::Encode, ReplyEvent::Encoded(Err(e))) => {
            &&& after == writer
            &&& phase == ReplyPhase::Done
            &&& action == ReplyAction::<W, E>::Finish(Err(codec(e)))
        },
        (ReplyPhase::AwaitWriter(ready), ReplyEvent::Poll) => reply_sends(
            writer,
            ready,
            after,
            phase,
            action,
        ),
        (ReplyPhase::Write, ReplyEvent::Written(guard, written)) => {
            &&& after == (WriterState { idle: Some(guard.inner()), waiting: false })
            &&& phase == ReplyPhase::Done
            &&& action == match written {
                Ok(_) => ReplyAction::<W, E>::Finish(Ok(())),
                Err(e) => ReplyAction::<W, E>::Finish(Err(framing(e))),
            }
        },
        _ => false,
    }
}

/// A reply of a duplex endpoint in progress.
pub struct DuplexReply {
    token: MuxedReplyToken,
    stage: ReplyStage,
}

impl View for DuplexReply {
    type V = ReplyPhase;

    closed spec fn view(&self) -> ReplyPhase {
        self.stage@
    }
}

impl DuplexReply {
    /// The slot of the caller that is answered.
    pub closed spec fn slot(&self) -> u8 {
        self.token.id()
    }

    /// A reply to the request that `token` names, whose response is to be
    /// encoded.
    pub fn new(token: MuxedReplyToken) -> (reply: Self)
        ensures
            reply@ == ReplyPhase::Encode,
            reply.slot() == token.id(),
    {
        DuplexReply { token, stage: ReplyStage::Encode }
    }

    /// Takes in what happened and says what is needed next.
    pub fn advance<W, Framer, Codec, Req, Resp, F, C, const N: usize, const BUF: usize>(
        self,
        half: &DuplexServerHalf<Req, Resp>,
        shared: &mut DuplexShared<W, Framer, Codec, N, BUF>,
        event: ReplyEvent<W, F, C>,
        waker: &Waker,
    ) -> (next: (Self, ReplyAction<W, DuplexServerError<F, C>>))
        requires
            old(shared).wf(),
            reply_expected(self@, event),
            self@ is Write ==> old(shared).idle_writer() is None,
        ensures
            final(shared).wf(),
            final(shared)@ == old(shared)@,
            final(shared).layers() == old(shared).layers(),
            final(shared).slot_waiting() == old(shared).slot_waiting(),
            next.0.slot() == self.slot(),
            reply_advances(
                WriterState {
                    idle: old(shared).idle_writer(),
                    waiting: old(shared).writer_waiting(),
                },
                self@,
                event,
                |payload: Seq<u8>|
                    crate::stream::duplex::duplex_frame(
                        DuplexHeader {
                            kind: KIND_RESPONSE,
                            api_id: half.api(),
                            slot_id: self.slot(),
                        },
                        payload,
                    ),
                |e: C| DuplexServerError::<F, C>::Codec(e),
                |e: F| DuplexServerError::<F, C>::Framing(e),
                WriterState {
                    idle: final(shared).idle_writer(),
                    waiting: final(shared).writer_waiting(),
                },
                next.0@,
                next.1,
            ),
    {
        let token = self.token;
        match (self.stage, event) {
            (ReplyStage::Encode, ReplyEvent::Encoded(encoded)) => {
                match half.reply(&token, encoded) {
                    Ok(frame) => Self::send(token, shared, frame, waker),
                    Err(e) => (
                        DuplexReply { token, stage: ReplyStage::Done },
                        ReplyAction::Finish(Err(e)),
                    ),
                }
            },
            (ReplyStage::AwaitWriter(frame), ReplyEvent::Poll) => {
                Self::send(token, shared, frame, waker)
            },
            (ReplyStage::Write, ReplyEvent::Written(writer, written)) => {
                shared.return_writer(writer);
                let result = match written {
                    Ok(_) => Ok(()),
                    Err(e) => Err(DuplexServerError::Framing(e)),
                };
                (DuplexReply { token, stage: ReplyStage::Done }, ReplyAction::Finish(result))
            },
            _ => vstd::pervasive::unreached(),
        }
    }

    fn send<W, Framer, Codec, E, const N: usize, const BUF: usize>(
        token: MuxedReplyToken,
        shared: &mut DuplexShared<W, Framer, Codec, N, BUF>,
        frame: Vec<u8>,
        waker: &Waker,
    ) -> (next: (Self, ReplyAction<W, E>))
        requires
            old(shared).wf(),
        ensures
            final(shared).wf(),
            final(shared)@ == old(shared)@,
            final(shared).layers() == old(shared).layers(),
            final(shared).slot_waiting() == old(shared).slot_waiting(),
            next.0.slot() == token.id(),
            reply_sends(
                WriterState {
                    idle: old(shared).idle_writer(),
                    waiting: old(shared).writer_waiting(),
                },
                frame@,
                WriterState {
                    idle: final(shared).idle_writer(),
                    waiting: final(shared).writer_waiting(),
                },
                next.0@,
                next.1,
            ),
    {
        match shared.poll_writer(waker) {
            PollState::Ready(writer) => {
                (DuplexReply { token, stage: ReplyStage::Write }, ReplyAction::Write(writer, frame))
            },
            PollState::Pending => {
                (DuplexReply { token, stage: ReplyStage::AwaitWriter(frame) }, ReplyAction::Wait)
            },
        }
    }
}

/// A reply of a stream transport in progress.
pub struct StreamReply {
    header: Vec<u8>,
    stage: ReplyStage,
}

impl View for StreamReply {
    type V = ReplyPhase;

    closed spec fn view(&self) -> ReplyPhase {
        self.stage@
    }
}

impl StreamReply {
    /// The bytes that go in front of the encoded response.
    pub closed spec fn routing_bytes(&self) -> Seq<u8> {
        self.header@
    }

    /// A reply to the request that `token` names: its slot goes in front.
    pub fn muxed(token: MuxedReplyToken) -> (reply: Self)
        ensures
            reply@ == ReplyPhase::Encode,
            reply.routing_bytes() == seq![token.id()],
    {
        let mut header: Vec<u8> = Vec::new();
        header.push(token.slot_id());
        assert(header@ =~= seq![token.id()]);
        StreamReply { header, stage: ReplyStage::Encode }
    }

    /// A reply on a sequential stream: nothing goes in front.
    pub fn sequential() -> (reply: Self)
        ensures
            reply@ == ReplyPhase::Encode,
            reply.routing_bytes() == Seq::<u8>::empty(),
    {
        let header: Vec<u8> = Vec::new();
        assert(header@ =~= Seq::<u8>::empty());
        StreamReply { header, stage: ReplyStage::Encode }
    }

    /// Takes in what happened and says what is needed next.
    pub fn advance<R, W, Framer, Codec, Router, Req, Resp, S, F, C>(
        self,
        transport: &mut StreamTransport<R, W, Framer, Codec, Router, Req, Resp, S>,
        event: ReplyEvent<W, F, C>,
        waker: &Waker,
    ) -> (next: (Self, ReplyAction<W, StreamTransportError<F, C>>)) where
        Router: ReplyRouter,
        S: RouterStorage<Router = Router>,

        requires
            reply_expected(self@, event),
            self@ is Write ==> old(transport).idle_writer() is None,
        ensures
            final(transport).idle_reader() == old(transport).idle_reader(),
            final(transport).reader_waiting() == old(transport).reader_waiting(),
            final(transport).layers() == old(transport).layers(),
            final(transport).stored_router() == old(transport).stored_router(),
            final(transport).backlog() == old(transport).backlog(),
            reply_advances(
                WriterState {
                    idle: old(transport).idle_writer(),
                    waiting: old(transport).writer_waiting(),
                },
                self@,
                event,
                |payload: Seq<u8>| self.routing_bytes() + payload,
                |e: C| StreamTransportError::<F, C>::Codec(e),
                |e: F| StreamTransportError::<F, C>::Framing(e),
                WriterState {
                    idle: final(transport).idle_writer(),
                    waiting: final(transport).writer_waiting(),
                },
                next.0@,
                next.1,
            ),
    {
        match (self.stage, event) {
            (ReplyStage::Encode, ReplyEvent::Encoded(Ok(payload))) => {
                let mut frame = self.header;
                frame.extend_from_slice(payload.as_slice());
                assert(frame@ =~= self.header@ + payload@);
                Self::send(transport, frame, waker)
            },
            (ReplyStage::Encode, ReplyEvent::Encoded(Err(e))) => {
                (Self::over(), ReplyAction::Finish(Err(StreamTransportError::Codec(e))))
            },
            (ReplyStage::AwaitWriter(frame), ReplyEvent::Poll) => {
                Self::send(transport, frame, waker)
            },
            (ReplyStage::Write, ReplyEvent::Written(writer, written)) => {
                transport.return_writer(writer);
                let result = match written {
                    Ok(_) => Ok(()),
                    Err(e) => Err(StreamTransportError::Framing(e)),
                };
                (Self::over(), ReplyAction::Finish(result))
            },
            _ => vstd::pervasive::unreached(),
        }
    }

    fn over() -> (reply: Self)
        ensures
            reply@ == ReplyPhase::Done,
    {
        StreamReply { header: Vec::new(), stage: ReplyStage::Done }
    }

    fn send<R, W, Framer, Codec, Router, Req, Resp, S, E>(
        transport: &mut StreamTransport<R, W, Framer, Codec, Router, Req, Resp, S>,
        frame: Vec<u8>,
        waker: &Waker,
    ) -> (next: (Self, ReplyAction<W, E>)) where
        Router: ReplyRouter,
        S: RouterStorage<Router = Router>,

        ensures
            final(transport).idle_reader() == old(transport).idle_reader(),
            final(transport).reader_waiting() == old(transport).reader_waiting(),
            final(transport).layers() == old(transport).layers(),
            final(transport).stored_router() == old(transport).stored_router(),
            final(transport).backlog() == old(transport).backlog(),
            reply_sends(
                WriterState {
                    idle: old(transport).idle_writer(),
                    waiting: old(transport).writer_waiting(),
                },
                frame@,
                WriterState {
                    idle: final(transport).idle_writer(),
                    waiting: final(transport).writer_waiting(),
                },
                next.0@,
                next.1,
            ),
    {
        match transport.poll_writer(waker) {
            PollState::Ready(writer) => {
                (
                    StreamReply { header: Vec::new(), stage: ReplyStage::Write },
                    ReplyAction::Write(writer, frame),
                )
            },
            PollState::Pending => {
                (
                    StreamReply { header: Vec::new(), stage: ReplyStage::AwaitWriter(frame) },
                    ReplyAction::Wait,
                )
            },
        }
    }
}

/// A response that cannot be encoded ends the reply at once with the codec's
/// error, and the writer is left alone: nothing is written.
pub proof fn law_failed_encoding_writes_nothing<W, F, C, E>(
    writer: WriterState<W>,
    e: C,
    frame: spec_fn(Seq<u8>) -> Seq<u8>,
    codec: spec_fn(C) -> E,
    framing: spec_fn(F) -> E,
    after: WriterState<W>,
    phase: ReplyPhase,
    action: ReplyAction<W, E>,
)
    requires
        reply_advances(
            writer,
            ReplyPhase::Encode,
            ReplyEvent::<W, F, C>::Encoded(Err(e)),
            frame,
            codec,
            framing,
            after,
            phase,
            action,
        ),
    ensures
        after == writer,
        phase is Done,
        action == ReplyAction::<W, E>::Finish(Err(codec(e))),
{
}

/// A reply writes the frame of its encoded response, as soon as nobody else
/// writes, and nothing else; it ends with the error of the step that failed, and
/// gives the writer back whether the write succeeded or not.
pub proof fn law_reply_writes_its_frame_once<W, F, C, E>(
    writer: WriterState<W>,
    before: ReplyPhase,
    event: ReplyEvent<W, F, C>,
    frame: spec_fn(Seq<u8>) -> Seq<u8>,
    codec: spec_fn(C) -> E,
    framing: spec_fn(F) -> E,
    after: WriterState<W>,
    phase: ReplyPhase,
    action: ReplyAction<W, E>,
)
    requires
        reply_advances(writer, before, event, frame, codec, framing, after, phase, action),
    ensures
        event matches ReplyEvent::Encoded(Ok(payload)) ==> match writer.idle {
            Some(w) => action matches ReplyAction::Write(guard, f) && guard.inner() == w && f@
                == frame(payload@),
            None => action is Wait && phase == ReplyPhase::AwaitWriter(frame(payload@)),
        },
        before matches ReplyPhase::AwaitWriter(ready) ==> match writer.idle {
            Some(w) => action matches ReplyAction::Write(guard, f) && guard.inner() == w && f@
                == ready,
            None => action is Wait && phase == before,
        },
        event matches ReplyEvent::Encoded(Err(e)) ==> action == ReplyAction::<W, E>::Finish(
            Err(codec(e)),
        ),
        event matches ReplyEvent::Written(guard, Ok(_)) ==> action == ReplyAction::<W, E>::Finish(
            Ok(()),
        ) && after.idle == Some(guard.inner()) && !after.waiting,
        event matches ReplyEvent::Written(guard, Err(e)) ==> action == ReplyAction::<W, E>::Finish(
            Err(framing(e)),
        ) && after.idle == Some(guard.inner()) && !after.waiting,
        action is Wait ==> after.waiting,
        phase is Done <==> action is Finish,
{
}

} // verus!
