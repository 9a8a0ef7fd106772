//! Calls over a stream, step by step.
//!
//! A call takes in what happened and says what to do next; whoever drives it
//! encodes, writes and reads on its behalf. A [`MuxedCall`] shares the stream
//! with other calls, a [`DuplexCall`] leaves the reading to the pump, and a
//! [`SequentialCall`] has the stream to itself. The slot of a call is given
//! back when the call finishes and when it is cancelled, wherever it stands.
//!
//! The reply to a call that is cancelled after its request was handed over is
//! discarded when it comes. A frame names its slot, and on a duplex stream its
//! API, but not its call, so the replies of one slot and one API are told apart
//! by their order. They reach their callers on the condition that the peer
//! answers every request, and those of one slot and one API in the order in
//! which they were sent. Where the peer leaves the request of a cancelled call
//! unanswered, the reply to the next call of that slot and API is discarded in
//! its place.
//! On a sequential stream the requests are queued as they are sent, and a frame
//! answers the oldest of them.

use vstd::prelude::*;

use crate::io::local_lock::LocalLockGuard;
use crate::stream::duplex::{DuplexClientHalf, DuplexHeader, DuplexShared, KIND_REQUEST};
use crate::stream::routing::{
    MuxedSlotGuard, MuxedSlots, RouterSlotHandle, Sequential, SlotState, UNTAGGED,
};
use crate::stream::transport::{
    Backlog, Outstanding, RouterStorage, StreamTransport, StreamTransportError, Turn,
};
use crate::wake::PollState;
use core::convert::Infallible;
use core::task::Waker;

verus! {

/// What happened to a call.
pub enum CallEvent<R, W, F, C> {
    /// The call was polled.
    Poll,
    /// The request was encoded, or could not be.
    Encoded(Result<Vec<u8>, C>),
    /// The frame was written, or could not be; the writer is given back.
    Written(LocalLockGuard<W>, Result<(), F>),
    /// A frame was read, or could not be; the reader is given back.
    Read(LocalLockGuard<R>, Result<Vec<u8>, F>),
}

/// What a call needs next.
pub enum CallAction<R, W, F, C> {
    /// Wait until the call is woken, then poll it.
    Wait,
    /// Encode the request.
    Encode,
    /// Write this frame.
    Write(LocalLockGuard<W>, Vec<u8>),
    /// Read a frame.
    Read(LocalLockGuard<R>),
    /// The call is over: the encoded reply, or what went wrong.
    Finish(Result<Vec<u8>, StreamTransportError<F, C>>),
}

/// Where a call stands, with the slot that it owns.
pub enum CallPhase {
    /// It waits for a slot.
    Acquire,
    /// Its request is being encoded.
    Encode(u8),
    /// It waits for the right to write its frame.
    AwaitWriter(u8, Seq<u8>),
    /// Its frame is being written.
    Write(u8),
    /// It waits for its reply or for its turn to read.
    AwaitReply(u8),
    /// It reads a frame.
    Read(u8),
    /// It is over.
    Done,
}

enum Stage<const N: usize, const BUF: usize> {
    Acquire,
    Encode(MuxedSlotGuard<N, BUF>),
    AwaitWriter(MuxedSlotGuard<N, BUF>, Vec<u8>),
    Write(MuxedSlotGuard<N, BUF>),
    AwaitReply(MuxedSlotGuard<N, BUF>),
    Read(MuxedSlotGuard<N, BUF>),
    Done,
}

/// A call in progress.
pub struct MuxedCall<const N: usize, const BUF: usize> {
    stage: Stage<N, BUF>,
}

impl<const N: usize, const BUF: usize> View for MuxedCall<N, BUF> {
    type V = CallPhase;

    closed spec fn view(&self) -> CallPhase {
        match self.stage {
            Stage::Acquire => CallPhase::Acquire,
            Stage::Encode(slot) => CallPhase::Encode(slot.id()),
            Stage::AwaitWriter(slot, frame) => CallPhase::AwaitWriter(slot.id(), frame@),
            Stage::Write(slot) => CallPhase::Write(slot.id()),
            Stage::AwaitReply(slot) => CallPhase::AwaitReply(slot.id()),
            Stage::Read(slot) => CallPhase::Read(slot.id()),
            Stage::Done => CallPhase::Done,
        }
    }
}

/// Whether `event` can happen to a call in this phase. A frame has at least
/// the byte that names its slot.
pub open spec fn expected<R, W, F, C>(phase: CallPhase, event: CallEvent<R, W, F, C>) -> bool {
    match event {
        CallEvent::Poll => phase is Acquire || phase is AwaitWriter || phase is AwaitReply,
        CallEvent::Encoded(_) => phase is Encode,
        CallEvent::Written(_, _) => phase is Write,
        CallEvent::Read(_, read) => phase is Read && (read matches Ok(frame) ==> frame@.len() >= 1),
    }
}

/// The slot that a call owns.
pub open spec fn owned_slot(phase: CallPhase) -> Option<u8> {
    match phase {
        CallPhase::Acquire => None,
        CallPhase::Encode(id) => Some(id),
        CallPhase::AwaitWriter(id, _) => Some(id),
        CallPhase::Write(id) => Some(id),
        CallPhase::AwaitReply(id) => Some(id),
        CallPhase::Read(id) => Some(id),
        CallPhase::Done => None,
    }
}

/// What is shared between the calls of a transport.
pub struct Line<R, W> {
    /// The slots.
    pub slots: Seq<SlotState>,
    /// The reader while nobody reads.
    pub reader: Option<R>,
    /// The writer while nobody writes.
    pub writer: Option<W>,
    /// Whether a task is parked until a slot becomes free.
    pub slot_waiting: bool,
    /// Whether a task is parked until nobody reads.
    pub reader_waiting: bool,
    /// Whether a task is parked until nobody writes.
    pub writer_waiting: bool,
}

/// The reader and the tasks that wait for it are the same.
pub open spec fn same_reader<R, W>(line: Line<R, W>, after: Line<R, W>) -> bool {
    after.reader == line.reader && after.reader_waiting == line.reader_waiting
}

/// The writer and the tasks that wait for it are the same.
pub open spec fn same_writer<R, W>(line: Line<R, W>, after: Line<R, W>) -> bool {
    after.writer == line.writer && after.writer_waiting == line.writer_waiting
}

/// The line after the reader was given back.
pub open spec fn reader_back<R, W>(line: Line<R, W>, reader: R) -> Line<R, W> {
    Line { reader: Some(reader), reader_waiting: false, ..line }
}

/// The line after the writer was given back.
pub open spec fn writer_back<R, W>(line: Line<R, W>, writer: W) -> Line<R, W> {
    Line { writer: Some(writer), writer_waiting: false, ..line }
}

/// The slots after a call in `phase` was cancelled: its slot is free. A request
/// that was handed over for writing is on its way, so its reply, which will
/// carry `tag`, is still to come.
pub open spec fn cancelled(slots: Seq<SlotState>, phase: CallPhase, tag: u16) -> Seq<SlotState> {
    match phase {
        CallPhase::Acquire => slots,
        CallPhase::Encode(id) => crate::stream::routing::freed(slots, id as int),
        CallPhase::AwaitWriter(id, _) => crate::stream::routing::freed(slots, id as int),
        CallPhase::Write(id) => crate::stream::routing::abandoned(slots, id as int, tag),
        CallPhase::AwaitReply(id) => crate::stream::routing::abandoned(slots, id as int, tag),
        CallPhase::Read(id) => crate::stream::routing::abandoned(slots, id as int, tag),
        CallPhase::Done => slots,
    }
}

/// A call that is over with `result`: its slot is free again.
pub open spec fn finishes<R, W, F, C>(
    line: Line<R, W>,
    id: u8,
    result: Result<Seq<u8>, StreamTransportError<F, C>>,
    after: Line<R, W>,
    phase: CallPhase,
    action: CallAction<R, W, F, C>,
) -> bool {
    &&& phase == CallPhase::Done
    &&& after.slots == crate::stream::routing::freed(line.slots, id as int)
    &&& !after.slot_waiting
    &&& same_reader(line, after)
    &&& same_writer(line, after)
    &&& match result {
        Ok(reply) => action matches CallAction::Finish(Ok(r)) && r@ == reply,
        Err(e) => action == CallAction::<R, W, F, C>::Finish(Err(e)),
    }
}

/// A call that has a frame to send writes it as soon as nobody else writes.
pub open spec fn sends<R, W, F, C>(
    line: Line<R, W>,
    id: u8,
    frame: Seq<u8>,
    after: Line<R, W>,
    phase: CallPhase,
    action: CallAction<R, W, F, C>,
) -> bool {
    &&& after.slots == line.slots
    &&& after.slot_waiting == line.slot_waiting
    &&& same_reader(line, after)
    &&& after.writer is None
    &&& match line.writer {
        Some(w) => {
            &&& phase == CallPhase::Write(id)
            &&& action matches CallAction::Write(g, f) && g.inner() == w && f@ == frame
            &&& after.writer_waiting == line.writer_waiting
        },
        None => {
            &&& phase == CallPhase::AwaitWriter(id, frame)
            &&& action is Wait
            &&& after.writer_waiting
        },
    }
}

/// A call that waits for its reply takes it from its slot, or else reads as
/// soon as nobody else reads.
pub open spec fn receives<R, W, F, C>(
    line: Line<R, W>,
    id: u8,
    after: Line<R, W>,
    phase: CallPhase,
    action: CallAction<R, W, F, C>,
) -> bool {
    match crate::stream::routing::pending_reply(line.slots, id as int) {
        Some(reply) => finishes(line, id, Ok(reply), after, phase, action),
        None => {
            &&& after.slots == line.slots
            &&& after.slot_waiting == line.slot_waiting
            &&& after.reader is None
            &&& same_writer(line, after)
            &&& match line.reader {
                Some(r) => {
                    &&& phase == CallPhase::Read(id)
                    &&& action matches CallAction::Read(g) && g.inner() == r
                    &&& after.reader_waiting == line.reader_waiting
                },
                None => {
                    &&& phase == CallPhase::AwaitReply(id)
                    &&& action is Wait
                    &&& after.reader_waiting
                },
            }
        },
    }
}

/// What a call does: from where it stands and what happened, to where it
/// stands next and what it needs. `limit` is the buffer size of a slot.
pub open spec fn advances<R, W, F, C>(
    line: Line<R, W>,
    before: CallPhase,
    event: CallEvent<R, W, F, C>,
    limit: int,
    after: Line<R, W>,
    phase: CallPhase,
    action: CallAction<R, W, F, C>,
) -> bool {
    match (before, event) {
        (CallPhase::Acquire, CallEvent::Poll) => {
            &&& same_reader(line, after)
            &&& same_writer(line, after)
            &&& match crate::stream::routing::first_free(line.slots) {
                Some(i) => {
                    &&& after.slots == crate::stream::routing::acquired(line.slots, i as u8 as int)
                    &&& after.slot_waiting == line.slot_waiting
                    &&& phase == CallPhase::Encode(i as u8)
                    &&& action is Encode
                },
                None => {
                    &&& after.slots == line.slots
                    &&& after.slot_waiting
                    &&& phase == CallPhase::Acquire
                    &&& action is Wait
                },
            }
        },
        (CallPhase::Encode(id), CallEvent::Encoded(Ok(payload))) => sends(
            line,
            id,
            seq![id] + payload@,
            after,
            phase,
            action,
        ),
        (CallPhase::Encode(id), CallEvent::Encoded(Err(e))) => finishes(
            line,
            id,
            Err(StreamTransportError::Codec(e)),
            after,
            phase,
            action,
        ),
        (CallPhase::AwaitWriter(id, frame), CallEvent::Poll) => sends(
            line,
            id,
            frame,
            after,
            phase,
            action,
        ),
        (CallPhase::Write(id), CallEvent::Written(writer, Ok(_))) => receives(
            writer_back(line, writer.inner()),
            id,
            after,
            phase,
            action,
        ),
        (CallPhase::Write(id), CallEvent::Written(writer, Err(e))) => finishes(
            writer_back(line, writer.inner()),
            id,
            Err(StreamTransportError::Framing(e)),
            after,
            phase,
            action,
        ),
        (CallPhase::AwaitReply(id), CallEvent::Poll) => receives(line, id, after, phase, action),
        (CallPhase::Read(id), CallEvent::Read(reader, Ok(frame))) => if frame@[0] == id
            && !crate::stream::routing::owes(line.slots, id as int, UNTAGGED) {
            finishes(
                reader_back(line, reader.inner()),
                id,
                Ok(frame@.skip(1)),
                after,
                phase,
                action,
            )
        } else {
            receives(
                Line {
                    slots: crate::stream::routing::delivered(
                        line.slots,
                        frame@[0] as int,
                        UNTAGGED,
                        frame@.skip(1),
                        limit,
                    ),
                    ..reader_back(line, reader.inner())
                },
                id,
                after,
                phase,
                action,
            )
        },
        (CallPhase::Read(id), CallEvent::Read(reader, Err(e))) => finishes(
            reader_back(line, reader.inner()),
            id,
            Err(StreamTransportError::Framing(e)),
            after,
            phase,
            action,
        ),
        _ => false,
    }
}

impl<R, W, Framer, Codec, const N: usize, const BUF: usize, Req, Resp, S> StreamTransport<
    R,
    W,
    Framer,
    Codec,
    MuxedSlots<N, BUF>,
    Req,
    Resp,
    S,
> where S: RouterStorage<Router = MuxedSlots<N, BUF>> {
    /// What the calls of the transport share.
    pub open spec fn line(&self) -> Line<R, W> {
        Line {
            slots: self.slots(),
            reader: self.idle_reader(),
            writer: self.idle_writer(),
            slot_waiting: self.slot_waiting(),
            reader_waiting: self.reader_waiting(),
            writer_waiting: self.writer_waiting(),
        }
    }
}

impl<const N: usize, const BUF: usize> MuxedCall<N, BUF> {
    /// A call that has not begun.
    pub fn new() -> (call: Self)
        ensures
            call@ == CallPhase::Acquire,
    {
        MuxedCall { stage: Stage::Acquire }
    }

    /// Takes in what happened and says what is needed next.
    pub fn advance<R, W, Framer, Codec, Req, Resp, S, F, C>(
        self,
        transport: &mut StreamTransport<R, W, Framer, Codec, MuxedSlots<N, BUF>, Req, Resp, S>,
        event: CallEvent<R, W, F, C>,
        waker: &Waker,
    ) -> (next: (Self, CallAction<R, W, F, C>)) where S: RouterStorage<Router = MuxedSlots<N, BUF>>
        requires
            old(transport).wf(),
            expected(self@, event),
            self@ is Write ==> old(transport).idle_writer() is None,
            self@ is Read ==> old(transport).idle_reader() is None,
        ensures
            final(transport).wf(),
            final(transport).layers() == old(transport).layers(),
            final(transport).backlog() == old(transport).backlog(),
            advances(
                old(transport).line(),
                self@,
                event,
                BUF as int,
                final(transport).line(),
                next.0@,
                next.1,
            ),
    {
        match (self.stage, event) {
            (Stage::Acquire, CallEvent::Poll) => {
                match transport.poll_slot(waker) {
                    PollState::Ready(slot) => {
                        (MuxedCall { stage: Stage::Encode(slot) }, CallAction::Encode)
                    },
                    PollState::Pending => (MuxedCall { stage: Stage::Acquire }, CallAction::Wait),
                }
            },
            (Stage::Encode(slot), CallEvent::Encoded(Ok(payload))) => {
                let frame = transport.request_frame(&slot, payload.as_slice());
                Self::send(transport, slot, frame, waker)
            },
            (Stage::Encode(slot), CallEvent::Encoded(Err(e))) => {
                transport.end_call(slot);
                (
                    MuxedCall { stage: Stage::Done },
                    CallAction::Finish(Err(StreamTransportError::Codec(e))),
                )
            },
            (Stage::AwaitWriter(slot, frame), CallEvent::Poll) => {
                Self::send(transport, slot, frame, waker)
            },
            (Stage::Write(slot), CallEvent::Written(writer, Ok(_))) => {
                transport.return_writer(writer);
                Self::receive(transport, slot, waker)
            },
            (Stage::Write(slot), CallEvent::Written(writer, Err(e))) => {
                transport.return_writer(writer);
                transport.end_call(slot);
                (
                    MuxedCall { stage: Stage::Done },
                    CallAction::Finish(Err(StreamTransportError::Framing(e))),
                )
            },
            (Stage::AwaitReply(slot), CallEvent::Poll) => Self::receive(transport, slot, waker),
            (Stage::Read(slot), CallEvent::Read(reader, Ok(frame))) => {
                match transport.take_frame(&slot, reader, frame.as_slice()) {
                    Some(reply) => {
                        transport.end_call(slot);
                        (MuxedCall { stage: Stage::Done }, CallAction::Finish(Ok(reply)))
                    },
                    None => Self::receive(transport, slot, waker),
                }
            },
            (Stage::Read(slot), CallEvent::Read(reader, Err(e))) => {
                transport.return_reader(reader);
                transport.end_call(slot);
                (
                    MuxedCall { stage: Stage::Done },
                    CallAction::Finish(Err(StreamTransportError::Framing(e))),
                )
            },
            _ => vstd::pervasive::unreached(),
        }
    }

    fn send<R, W, Framer, Codec, Req, Resp, S, F, C>(
        transport: &mut StreamTransport<R, W, Framer, Codec, MuxedSlots<N, BUF>, Req, Resp, S>,
        slot: MuxedSlotGuard<N, BUF>,
        frame: Vec<u8>,
        waker: &Waker,
    ) -> (next: (Self, CallAction<R, W, F, C>)) where S: RouterStorage<Router = MuxedSlots<N, BUF>>
        requires
            old(transport).wf(),
        ensures
            final(transport).wf(),
            final(transport).layers() == old(transport).layers(),
            final(transport).backlog() == old(transport).backlog(),
            sends(
                old(transport).line(),
                slot.id(),
                frame@,
                final(transport).line(),
                next.0@,
                next.1,
            ),
    {
        match transport.poll_writer(waker) {
            PollState::Ready(writer) => {
                (MuxedCall { stage: Stage::Write(slot) }, CallAction::Write(writer, frame))
            },
            PollState::Pending => {
                (MuxedCall { stage: Stage::AwaitWriter(slot, frame) }, CallAction::Wait)
            },
        }
    }

    fn receive<R, W, Framer, Codec, Req, Resp, S, F, C>(
        transport: &mut StreamTransport<R, W, Framer, Codec, MuxedSlots<N, BUF>, Req, Resp, S>,
        slot: MuxedSlotGuard<N, BUF>,
        waker: &Waker,
    ) -> (next: (Self, CallAction<R, W, F, C>)) where S: RouterStorage<Router = MuxedSlots<N, BUF>>
        requires
            old(transport).wf(),
        ensures
            final(transport).wf(),
            final(transport).layers() == old(transport).layers(),
            final(transport).backlog() == old(transport).backlog(),
            receives(
                old(transport).line(),
                slot.id(),
                final(transport).line(),
                next.0@,
                next.1,
            ),
    {
        match transport.poll_turn(&slot, waker) {
            Turn::Reply(reply) => {
                transport.end_call(slot);
                (MuxedCall { stage: Stage::Done }, CallAction::Finish(Ok(reply)))
            },
            Turn::Read(reader) => {
                (MuxedCall { stage: Stage::Read(slot) }, CallAction::Read(reader))
            },
            Turn::Wait => (MuxedCall { stage: Stage::AwaitReply(slot) }, CallAction::Wait),
        }
    }

    /// Gives up the call, wherever it stands: the slot that it owns becomes
    /// free, and the reply to a request that is on its way will be discarded. A
    /// reader or writer that it holds is given back separately; a frame that it
    /// was to write is still written.
    pub fn cancel<R, W, Framer, Codec, Req, Resp, S>(
        self,
        transport: &mut StreamTransport<R, W, Framer, Codec, MuxedSlots<N, BUF>, Req, Resp, S>,
    ) where S: RouterStorage<Router = MuxedSlots<N, BUF>>
        requires
            old(transport).wf(),
        ensures
            final(transport).wf(),
            final(transport).same_streams(old(transport)),
            final(transport).backlog() == old(transport).backlog(),
            final(transport).slots() == cancelled(old(transport).slots(), self@, UNTAGGED),
            final(transport).slot_waiting() == (old(transport).slot_waiting() && owned_slot(
                self@,
            ) is None),
    {
        match self.stage {
            Stage::Acquire => {},
            Stage::Encode(slot) => transport.end_call(slot),
            Stage::AwaitWriter(slot, _) => transport.end_call(slot),
            Stage::Write(slot) => transport.abandon_call(slot),
            Stage::AwaitReply(slot) => transport.abandon_call(slot),
            Stage::Read(slot) => transport.abandon_call(slot),
            Stage::Done => {},
        }
    }
}

/// A call that waits for its reply takes it from its slot as soon as it has
/// been put there.
pub open spec fn awaits<W, F, C>(
    line: Line<Infallible, W>,
    id: u8,
    after: Line<Infallible, W>,
    phase: CallPhase,
    action: CallAction<Infallible, W, F, C>,
) -> bool {
    match crate::stream::routing::pending_reply(line.slots, id as int) {
        Some(reply) => finishes(line, id, Ok(reply), after, phase, action),
        None => {
            &&& after.slots == crate::stream::routing::parked_on(line.slots, id as int)
            &&& after.slot_waiting == line.slot_waiting
            &&& same_reader(line, after)
            &&& same_writer(line, after)
            &&& phase == CallPhase::AwaitReply(id)
            &&& action is Wait
        },
    }
}

/// What a call of `api_id` over a duplex stream does.
pub open spec fn duplex_advances<W, F, C>(
    line: Line<Infallible, W>,
    before: CallPhase,
    event: CallEvent<Infallible, W, F, C>,
    api_id: u16,
    after: Line<Infallible, W>,
    phase: CallPhase,
    action: CallAction<Infallible, W, F, C>,
) -> bool {
    match (before, event) {
        (CallPhase::Acquire, CallEvent::Poll) => {
            &&& same_reader(line, after)
            &&& same_writer(line, after)
            &&& match crate::stream::routing::first_free(line.slots) {
                Some(i) => {
                    &&& after.slots == crate::stream::routing::acquired(line.slots, i as u8 as int)
                    &&& after.slot_waiting == line.slot_waiting
                    &&& phase == CallPhase::Encode(i as u8)
                    &&& action is Encode
                },
                None => {
                    &&& after.slots == line.slots
                    &&& after.slot_waiting
                    &&& phase == CallPhase::Acquire
                    &&& action is Wait
                },
            }
        },
        (CallPhase::Encode(id), CallEvent::Encoded(Ok(payload))) => sends(
            line,
            id,
            crate::stream::duplex::duplex_frame(
                DuplexHeader { kind: KIND_REQUEST, api_id, slot_id: id },
                payload@,
            ),
            after,
            phase,
            action,
        ),
        (CallPhase::Encode(id), CallEvent::Encoded(Err(e))) => finishes(
            line,
            id,
            Err(StreamTransportError::Codec(e)),
            after,
            phase,
            action,
        ),
        (CallPhase::AwaitWriter(id, frame), CallEvent::Poll) => sends(
            line,
            id,
            frame,
            after,
            phase,
            action,
        ),
        (CallPhase::Write(id), CallEvent::Written(writer, Ok(_))) => awaits(
            writer_back(line, writer.inner()),
            id,
            after,
            phase,
            action,
        ),
        (CallPhase::Write(id), CallEvent::Written(writer, Err(e))) => finishes(
            writer_back(line, writer.inner()),
            id,
            Err(StreamTransportError::Framing(e)),
            after,
            phase,
            action,
        ),
        (CallPhase::AwaitReply(id), CallEvent::Poll) => awaits(line, id, after, phase, action),
        _ => false,
    }
}

impl<W, Framer, Codec, const N: usize, const BUF: usize> DuplexShared<W, Framer, Codec, N, BUF> {
    /// What the calls of the endpoint share. The reader belongs to the pump.
    pub open spec fn line(&self) -> Line<Infallible, W> {
        Line {
            slots: self@.slots,
            reader: None,
            writer: self.idle_writer(),
            slot_waiting: self.slot_waiting(),
            reader_waiting: false,
            writer_waiting: self.writer_waiting(),
        }
    }
}

enum DuplexStage<const N: usize, const BUF: usize> {
    Acquire,
    Encode(MuxedSlotGuard<N, BUF>),
    AwaitWriter(MuxedSlotGuard<N, BUF>, Vec<u8>),
    Write(MuxedSlotGuard<N, BUF>),
    AwaitReply(MuxedSlotGuard<N, BUF>),
    Done,
}

/// A call over a duplex stream in progress.
pub struct DuplexCall<const N: usize, const BUF: usize> {
    stage: DuplexStage<N, BUF>,
}

impl<const N: usize, const BUF: usize> View for DuplexCall<N, BUF> {
    type V = CallPhase;

    closed spec fn view(&self) -> CallPhase {
        match self.stage {
            DuplexStage::Acquire => CallPhase::Acquire,
            DuplexStage::Encode(slot) => CallPhase::Encode(slot.id()),
            DuplexStage::AwaitWriter(slot, frame) => CallPhase::AwaitWriter(slot.id(), frame@),
            DuplexStage::Write(slot) => CallPhase::Write(slot.id()),
            DuplexStage::AwaitReply(slot) => CallPhase::AwaitReply(slot.id()),
            DuplexStage::Done => CallPhase::Done,
        }
    }
}

impl<const N: usize, const BUF: usize> DuplexCall<N, BUF> {
    /// A call that has not begun.
    pub fn new() -> (call: Self)
        ensures
            call@ == CallPhase::Acquire,
    {
        DuplexCall { stage: DuplexStage::Acquire }
    }

    /// Takes in what happened and says what is needed next.
    pub fn advance<W, Framer, Codec, Req, Resp, F, C>(
        self,
        half: &DuplexClientHalf<Req, Resp>,
        shared: &mut DuplexShared<W, Framer, Codec, N, BUF>,
        event: CallEvent<Infallible, W, F, C>,
        waker: &Waker,
    ) -> (next: (Self, CallAction<Infallible, W, F, C>))
        requires
            old(shared).wf(),
            expected(self@, event),
            self@ is Write ==> old(shared).idle_writer() is None,
        ensures
            final(shared).wf(),
            final(shared).layers() == old(shared).layers(),
            final(shared)@.inboxes == old(shared)@.inboxes,
            duplex_advances(
                old(shared).line(),
                self@,
                event,
                half.api(),
                final(shared).line(),
                next.0@,
                next.1,
            ),
    {
        match (self.stage, event) {
            (DuplexStage::Acquire, CallEvent::Poll) => {
                match shared.poll_slot(waker) {
                    PollState::Ready(slot) => {
                        (DuplexCall { stage: DuplexStage::Encode(slot) }, CallAction::Encode)
                    },
                    PollState::Pending => {
                        (DuplexCall { stage: DuplexStage::Acquire }, CallAction::Wait)
                    },
                }
            },
            (DuplexStage::Encode(slot), CallEvent::Encoded(Ok(payload))) => {
                let frame = half.request_frame(&slot, payload.as_slice());
                Self::send(shared, slot, frame, waker)
            },
            (DuplexStage::Encode(slot), CallEvent::Encoded(Err(e))) => {
                shared.end_call(slot);
                (
                    DuplexCall { stage: DuplexStage::Done },
                    CallAction::Finish(Err(StreamTransportError::Codec(e))),
                )
            },
            (DuplexStage::AwaitWriter(slot, frame), CallEvent::Poll) => {
                Self::send(shared, slot, frame, waker)
            },
            (DuplexStage::Write(slot), CallEvent::Written(writer, Ok(_))) => {
                shared.return_writer(writer);
                Self::receive(shared, slot, waker)
            },
            (DuplexStage::Write(slot), CallEvent::Written(writer, Err(e))) => {
                shared.return_writer(writer);
                shared.end_call(slot);
                (
                    DuplexCall { stage: DuplexStage::Done },
                    CallAction::Finish(Err(StreamTransportError::Framing(e))),
                )
            },
            (DuplexStage::AwaitReply(slot), CallEvent::Poll) => Self::receive(shared, slot, waker),
            _ => vstd::pervasive::unreached(),
        }
    }

    fn send<W, Framer, Codec, F, C>(
        shared: &mut DuplexShared<W, Framer, Codec, N, BUF>,
        slot: MuxedSlotGuard<N, BUF>,
        frame: Vec<u8>,
        waker: &Waker,
    ) -> (next: (Self, CallAction<Infallible, W, F, C>))
        requires
            old(shared).wf(),
        ensures
            final(shared).wf(),
            final(shared).layers() == old(shared).layers(),
            final(shared)@.inboxes == old(shared)@.inboxes,
            sends(old(shared).line(), slot.id(), frame@, final(shared).line(), next.0@, next.1),
    {
        match shared.poll_writer(waker) {
            PollState::Ready(writer) => {
                (DuplexCall { stage: DuplexStage::Write(slot) }, CallAction::Write(writer, frame))
            },
            PollState::Pending => {
                (DuplexCall { stage: DuplexStage::AwaitWriter(slot, frame) }, CallAction::Wait)
            },
        }
    }

    fn receive<W, Framer, Codec, F, C>(
        shared: &mut DuplexShared<W, Framer, Codec, N, BUF>,
        slot: MuxedSlotGuard<N, BUF>,
        waker: &Waker,
    ) -> (next: (Self, CallAction<Infallible, W, F, C>))
        requires
            old(shared).wf(),
        ensures
            final(shared).wf(),
            final(shared).layers() == old(shared).layers(),
            final(shared)@.inboxes == old(shared)@.inboxes,
            awaits(old(shared).line(), slot.id(), final(shared).line(), next.0@, next.1),
    {
        match shared.poll_reply(&slot, waker) {
            PollState::Ready(reply) => {
                shared.end_call(slot);
                (DuplexCall { stage: DuplexStage::Done }, CallAction::Finish(Ok(reply)))
            },
            PollState::Pending => {
                (DuplexCall { stage: DuplexStage::AwaitReply(slot) }, CallAction::Wait)
            },
        }
    }

    /// Gives up the call, wherever it stands: the slot that it owns becomes
    /// free, and the reply to a request that is on its way will be discarded. A
    /// writer that it holds is given back separately; a frame that it was to
    /// write is still written.
    pub fn cancel<W, Framer, Codec, Req, Resp>(
        self,
        half: &DuplexClientHalf<Req, Resp>,
        shared: &mut DuplexShared<W, Framer, Codec, N, BUF>,
    )
        requires
            old(shared).wf(),
        ensures
            final(shared).wf(),
            final(shared).same_stream(old(shared)),
            final(shared)@.inboxes == old(shared)@.inboxes,
            final(shared)@.slots == cancelled(old(shared)@.slots, self@, half.api()),
            final(shared).slot_waiting() == (old(shared).slot_waiting() && owned_slot(
                self@,
            ) is None),
    {
        match self.stage {
            DuplexStage::Acquire => {},
            DuplexStage::Encode(slot) => shared.end_call(slot),
            DuplexStage::AwaitWriter(slot, _) => shared.end_call(slot),
            DuplexStage::Write(slot) => shared.abandon_call(slot, half.api_id()),
            DuplexStage::AwaitReply(slot) => shared.abandon_call(slot, half.api_id()),
            DuplexStage::Done => {},
        }
    }
}

/// Where a sequential call stands.
pub enum SequentialPhase {
    /// Its request is being encoded.
    Encode,
    /// It waits for the right to write its frame.
    AwaitWriter(Seq<u8>),
    /// Its frame is being written, as the request with this number.
    Write(u64),
    /// It waits for the right to read.
    AwaitReader(u64),
    /// It reads its reply.
    Read(u64),
    /// It is over.
    Done,
}

enum SequentialStage {
    Encode,
    AwaitWriter(Vec<u8>),
    Write(u64),
    AwaitReader(u64),
    Read(u64),
    Done,
}

/// A call over a sequential stream in progress: the request is one frame, the
/// reply is the next.
pub struct SequentialCall {
    stage: SequentialStage,
}

impl View for SequentialCall {
    type V = SequentialPhase;

    closed spec fn view(&self) -> SequentialPhase {
        match self.stage {
            SequentialStage::Encode => SequentialPhase::Encode,
            SequentialStage::AwaitWriter(frame) => SequentialPhase::AwaitWriter(frame@),
            SequentialStage::Write(number) => SequentialPhase::Write(number),
            SequentialStage::AwaitReader(number) => SequentialPhase::AwaitReader(number),
            SequentialStage::Read(number) => SequentialPhase::Read(number),
            SequentialStage::Done => SequentialPhase::Done,
        }
    }
}

/// Whether `event` can happen to a sequential call in this phase.
pub open spec fn sequential_expected<R, W, F, C>(
    phase: SequentialPhase,
    event: CallEvent<R, W, F, C>,
) -> bool {
    match event {
        CallEvent::Poll => phase is AwaitWriter || phase is AwaitReader,
        CallEvent::Encoded(_) => phase is Encode,
        CallEvent::Written(_, _) => phase is Write,
        CallEvent::Read(_, _) => phase is Read,
    }
}

/// What is shared between the sequential calls of a transport.
pub struct SequentialLine<R, W> {
    /// The reader while nobody reads.
    pub reader: Option<R>,
    /// The writer while nobody writes.
    pub writer: Option<W>,
    /// Whether a task is parked until nobody reads.
    pub reader_waiting: bool,
    /// Whether a task is parked until nobody writes.
    pub writer_waiting: bool,
    /// The requests that were sent and are not answered.
    pub backlog: Backlog,
}

/// A sequential call that has a frame to send writes it as soon as nobody
/// else writes.
pub open spec fn sequential_sends<R, W, F, C>(
    line: SequentialLine<R, W>,
    frame: Seq<u8>,
    after: SequentialLine<R, W>,
    phase: SequentialPhase,
    action: CallAction<R, W, F, C>,
) -> bool {
    &&& after.reader == line.reader
    &&& after.reader_waiting == line.reader_waiting
    &&& after.writer is None
    &&& match line.writer {
        Some(w) => {
            &&& phase == SequentialPhase::Write(line.backlog.requests)
            &&& after.backlog == crate::stream::transport::queued(line.backlog)
            &&& action matches CallAction::Write(g, f) && g.inner() == w && f@ == frame
            &&& after.writer_waiting == line.writer_waiting
        },
        None => {
            &&& phase == SequentialPhase::AwaitWriter(frame)
            &&& after.backlog == line.backlog
            &&& action is Wait
            &&& after.writer_waiting
        },
    }
}

/// A sequential call that has sent its frame reads as soon as nobody else
/// reads.
pub open spec fn sequential_receives<R, W, F, C>(
    line: SequentialLine<R, W>,
    number: u64,
    after: SequentialLine<R, W>,
    phase: SequentialPhase,
    action: CallAction<R, W, F, C>,
) -> bool {
    &&& after.writer == line.writer
    &&& after.writer_waiting == line.writer_waiting
    &&& after.backlog == line.backlog
    &&& after.reader is None
    &&& match line.reader {
        Some(r) => {
            &&& phase == SequentialPhase::Read(number)
            &&& action matches CallAction::Read(g) && g.inner() == r
            &&& after.reader_waiting == line.reader_waiting
        },
        None => {
            &&& phase == SequentialPhase::AwaitReader(number)
            &&& action is Wait
            &&& after.reader_waiting
        },
    }
}

/// A sequential call that is over with `result`.
pub open spec fn sequential_finishes<R, W, F, C>(
    line: SequentialLine<R, W>,
    result: Result<Vec<u8>, StreamTransportError<F, C>>,
    after: SequentialLine<R, W>,
    phase: SequentialPhase,
    action: CallAction<R, W, F, C>,
) -> bool {
    &&& after == line
    &&& phase == SequentialPhase::Done
    &&& action == CallAction::<R, W, F, C>::Finish(result)
}

/// What a sequential call does. A frame that answers a request whose call was
/// given up is discarded.
pub open spec fn sequential_advances<R, W, F, C>(
    line: SequentialLine<R, W>,
    before: SequentialPhase,
    event: CallEvent<R, W, F, C>,
    after: SequentialLine<R, W>,
    phase: SequentialPhase,
    action: CallAction<R, W, F, C>,
) -> bool {
    match (before, event) {
        (SequentialPhase::Encode, CallEvent::Encoded(Ok(payload))) => sequential_sends(
            line,
            payload@,
            after,
            phase,
            action,
        ),
        (SequentialPhase::Encode, CallEvent::Encoded(Err(e))) => sequential_finishes(
            line,
            Err(StreamTransportError::Codec(e)),
            after,
            phase,
            action,
        ),
        (SequentialPhase::AwaitWriter(frame), CallEvent::Poll) => sequential_sends(
            line,
            frame,
            after,
            phase,
            action,
        ),
        (SequentialPhase::Write(number), CallEvent::Written(writer, Ok(_))) => sequential_receives(
            SequentialLine { writer: Some(writer.inner()), writer_waiting: false, ..line },
            number,
            after,
            phase,
            action,
        ),
        (SequentialPhase::Write(number), CallEvent::Written(writer, Err(e))) => sequential_finishes(
            SequentialLine {
                writer: Some(writer.inner()),
                writer_waiting: false,
                backlog: crate::stream::transport::withdrawn(line.backlog, number),
                ..line
            },
            Err(StreamTransportError::Framing(e)),
            after,
            phase,
            action,
        ),
        (SequentialPhase::AwaitReader(number), CallEvent::Poll) => sequential_receives(
            line,
            number,
            after,
            phase,
            action,
        ),
        (SequentialPhase::Read(number), CallEvent::Read(reader, Ok(frame))) => {
            let back = SequentialLine {
                reader: Some(reader.inner()),
                reader_waiting: false,
                backlog: crate::stream::transport::claimed(line.backlog, number),
                ..line
            };
            if crate::stream::transport::answers_given_up(line.backlog) {
                sequential_receives(back, number, after, phase, action)
            } else {
                sequential_finishes(back, Ok(frame), after, phase, action)
            }
        },
        (SequentialPhase::Read(number), CallEvent::Read(reader, Err(e))) => sequential_finishes(
            SequentialLine {
                reader: Some(reader.inner()),
                reader_waiting: false,
                backlog: crate::stream::transport::withdrawn(line.backlog, number),
                ..line
            },
            Err(StreamTransportError::Framing(e)),
            after,
            phase,
            action,
        ),
        _ => false,
    }
}

/// The backlog after a call in `phase` was cancelled. A request that was handed
/// over for writing is on its way, so its reply is still to come.
pub open spec fn sequential_cancelled(backlog: Backlog, phase: SequentialPhase) -> Backlog {
    match phase {
        SequentialPhase::Write(number) => crate::stream::transport::left(backlog, number),
        SequentialPhase::AwaitReader(number) => crate::stream::transport::left(backlog, number),
        SequentialPhase::Read(number) => crate::stream::transport::left(backlog, number),
        _ => backlog,
    }
}

impl<R, W, Framer, Codec, Req, Resp, S> StreamTransport<
    R,
    W,
    Framer,
    Codec,
    Sequential,
    Req,
    Resp,
    S,
> where S: RouterStorage<Router = Sequential> {
    /// What the calls of the transport share.
    pub open spec fn sequential_line(&self) -> SequentialLine<R, W> {
        SequentialLine {
            reader: self.idle_reader(),
            writer: self.idle_writer(),
            reader_waiting: self.reader_waiting(),
            writer_waiting: self.writer_waiting(),
            backlog: self.backlog(),
        }
    }
}

impl SequentialCall {
    /// A call whose request is to be encoded.
    pub fn new() -> (call: Self)
        ensures
            call@ == SequentialPhase::Encode,
    {
        SequentialCall { stage: SequentialStage::Encode }
    }

    /// Takes in what happened and says what is needed next.
    pub fn advance<R, W, Framer, Codec, Req, Resp, S, F, C>(
        self,
        transport: &mut StreamTransport<R, W, Framer, Codec, Sequential, Req, Resp, S>,
        event: CallEvent<R, W, F, C>,
        waker: &Waker,
    ) -> (next: (Self, CallAction<R, W, F, C>)) where S: RouterStorage<Router = Sequential>
        requires
            sequential_expected(self@, event),
            self@ is Write ==> old(transport).idle_writer() is None,
            self@ is Read ==> old(transport).idle_reader() is None,
        ensures
            final(transport).layers() == old(transport).layers(),
            final(transport).stored_router() == old(transport).stored_router(),
            sequential_advances(
                old(transport).sequential_line(),
                self@,
                event,
                final(transport).sequential_line(),
                next.0@,
                next.1,
            ),
    {
        match (self.stage, event) {
            (SequentialStage::Encode, CallEvent::Encoded(Ok(frame))) => {
                Self::send(transport, frame, waker)
            },
            (SequentialStage::Encode, CallEvent::Encoded(Err(e))) => {
                (
                    SequentialCall { stage: SequentialStage::Done },
                    CallAction::Finish(Err(StreamTransportError::Codec(e))),
                )
            },
            (SequentialStage::AwaitWriter(frame), CallEvent::Poll) => {
                Self::send(transport, frame, waker)
            },
            (SequentialStage::Write(number), CallEvent::Written(writer, Ok(_))) => {
                transport.return_writer(writer);
                Self::receive(transport, number, waker)
            },
            (SequentialStage::Write(number), CallEvent::Written(writer, Err(e))) => {
                transport.return_writer(writer);
                transport.withdraw_request(number);
                (
                    SequentialCall { stage: SequentialStage::Done },
                    CallAction::Finish(Err(StreamTransportError::Framing(e))),
                )
            },
            (SequentialStage::AwaitReader(number), CallEvent::Poll) => {
                Self::receive(transport, number, waker)
            },
            (SequentialStage::Read(number), CallEvent::Read(reader, Ok(frame))) => {
                transport.return_reader(reader);
                if transport.claim_frame(number) {
                    Self::receive(transport, number, waker)
                } else {
                    (
                        SequentialCall { stage: SequentialStage::Done },
                        CallAction::Finish(Ok(frame)),
                    )
                }
            },
            (SequentialStage::Read(number), CallEvent::Read(reader, Err(e))) => {
                transport.return_reader(reader);
                transport.withdraw_request(number);
                (
                    SequentialCall { stage: SequentialStage::Done },
                    CallAction::Finish(Err(StreamTransportError::Framing(e))),
                )
            },
            _ => vstd::pervasive::unreached(),
        }
    }

    fn send<R, W, Framer, Codec, Req, Resp, S, F, C>(
        transport: &mut StreamTransport<R, W, Framer, Codec, Sequential, Req, Resp, S>,
        frame: Vec<u8>,
        waker: &Waker,
    ) -> (next: (Self, CallAction<R, W, F, C>)) where S: RouterStorage<Router = Sequential>
        ensures
            final(transport).layers() == old(transport).layers(),
            final(transport).stored_router() == old(transport).stored_router(),
            sequential_sends(
                old(transport).sequential_line(),
                frame@,
                final(transport).sequential_line(),
                next.0@,
                next.1,
            ),
    {
        match transport.poll_writer(waker) {
            PollState::Ready(writer) => {
                let number: u64 = transport.queue_request();
                (
                    SequentialCall { stage: SequentialStage::Write(number) },
                    CallAction::Write(writer, frame),
                )
            },
            PollState::Pending => {
                (SequentialCall { stage: SequentialStage::AwaitWriter(frame) }, CallAction::Wait)
            },
        }
    }

    fn receive<R, W, Framer, Codec, Req, Resp, S, F, C>(
        transport: &mut StreamTransport<R, W, Framer, Codec, Sequential, Req, Resp, S>,
        number: u64,
        waker: &Waker,
    ) -> (next: (Self, CallAction<R, W, F, C>)) where S: RouterStorage<Router = Sequential>
        ensures
            final(transport).layers() == old(transport).layers(),
            final(transport).stored_router() == old(transport).stored_router(),
            sequential_receives(
                old(transport).sequential_line(),
                number,
                final(transport).sequential_line(),
                next.0@,
                next.1,
            ),
    {
        match transport.poll_reader(waker) {
            PollState::Ready(reader) => {
                (SequentialCall { stage: SequentialStage::Read(number) }, CallAction::Read(reader))
            },
            PollState::Pending => {
                (SequentialCall { stage: SequentialStage::AwaitReader(number) }, CallAction::Wait)
            },
        }
    }

    /// Gives up the call, wherever it stands: the reply to a request that is on
    /// its way will be discarded. A reader or writer that it holds is given back
    /// separately; a frame that it was to write is still written.
    pub fn cancel<R, W, Framer, Codec, Req, Resp, S>(
        self,
        transport: &mut StreamTransport<R, W, Framer, Codec, Sequential, Req, Resp, S>,
    ) where S: RouterStorage<Router = Sequential>
        ensures
            final(transport).same_streams(old(transport)),
            final(transport).stored_router() == old(transport).stored_router(),
            final(transport).backlog() == sequential_cancelled(
                old(transport).backlog(),
                self@,
            ),
    {
        match self.stage {
            SequentialStage::Encode => {},
            SequentialStage::AwaitWriter(_) => {},
            SequentialStage::Write(number) => transport.leave_request(number),
            SequentialStage::AwaitReader(number) => transport.leave_request(number),
            SequentialStage::Read(number) => transport.leave_request(number),
            SequentialStage::Done => {},
        }
    }
}

/// The late reply to a cancelled sequential call is not handed to the next
/// call: that call reads on, and finishes with the frame that follows.
pub proof fn law_next_sequential_call_finishes_with_its_own_reply<R, W, F, C>(
    line: SequentialLine<R, W>,
    late: CallEvent<R, W, F, C>,
    own: CallEvent<R, W, F, C>,
    own_frame: Vec<u8>,
    between: SequentialLine<R, W>,
    phase: SequentialPhase,
    action: CallAction<R, W, F, C>,
    after: SequentialLine<R, W>,
    last_phase: SequentialPhase,
    last_action: CallAction<R, W, F, C>,
)
    requires
        line.backlog.queue.len() == 0,
        line.backlog.requests < u64::MAX,
        late matches CallEvent::Read(_, Ok(_)),
        own matches CallEvent::Read(_, Ok(f)) && f == own_frame,
        sequential_advances(
            SequentialLine {
                backlog: crate::stream::transport::queued(
                    sequential_cancelled(
                        crate::stream::transport::queued(line.backlog),
                        SequentialPhase::AwaitReader(line.backlog.requests),
                    ),
                ),
                ..line
            },
            SequentialPhase::Read((line.backlog.requests + 1) as u64),
            late,
            between,
            phase,
            action,
        ),
        sequential_advances(between, phase, own, after, last_phase, last_action),
    ensures
        phase == SequentialPhase::Read((line.backlog.requests + 1) as u64),
        action is Read,
        last_phase is Done,
        last_action == CallAction::<R, W, F, C>::Finish(Ok(own_frame)),
        after.backlog.queue == Seq::<Outstanding>::empty(),
{
    let sent = crate::stream::transport::queued(line.backlog);
    crate::stream::transport::lemma_place(sent.queue, line.backlog.requests, 0);
    assert(after.backlog.queue =~= Seq::empty());
}

/// A call that was sent before another one finishes with its own reply, whether
/// or not the later one is cancelled meanwhile.
pub proof fn law_later_cancel_leaves_an_earlier_sequential_call<R, W, F, C>(
    line: SequentialLine<R, W>,
    later: SequentialPhase,
    own: CallEvent<R, W, F, C>,
    own_frame: Vec<u8>,
    after: SequentialLine<R, W>,
    phase: SequentialPhase,
    action: CallAction<R, W, F, C>,
)
    requires
        line.backlog.queue.len() == 0,
        line.backlog.requests < u64::MAX,
        later == SequentialPhase::Write((line.backlog.requests + 1) as u64) || later
            == SequentialPhase::AwaitReader((line.backlog.requests + 1) as u64) || later is Done,
        own matches CallEvent::Read(_, Ok(f)) && f == own_frame,
        sequential_advances(
            SequentialLine {
                backlog: sequential_cancelled(
                    crate::stream::transport::queued(
                        crate::stream::transport::queued(line.backlog),
                    ),
                    later,
                ),
                ..line
            },
            SequentialPhase::Read(line.backlog.requests),
            own,
            after,
            phase,
            action,
        ),
    ensures
        phase is Done,
        action == CallAction::<R, W, F, C>::Finish(Ok(own_frame)),
        after.backlog.queue.len() == 1,
        after.backlog.queue[0].given_up == !(later is Done),
{
    let both = crate::stream::transport::queued(crate::stream::transport::queued(line.backlog));
    let number = (line.backlog.requests + 1) as u64;
    assert(crate::stream::transport::is_place(both.queue, number, 1));
    crate::stream::transport::lemma_place(both.queue, number, 1);
}

/// A call owns its slot until it is over, and then the slot is free.
pub proof fn law_call_owns_its_slot_until_it_is_over<R, W, F, C>(
    line: Line<R, W>,
    before: CallPhase,
    event: CallEvent<R, W, F, C>,
    limit: int,
    after: Line<R, W>,
    phase: CallPhase,
    action: CallAction<R, W, F, C>,
    id: u8,
)
    requires
        advances(line, before, event, limit, after, phase, action),
        owned_slot(before) == Some(id),
        id < line.slots.len(),
        line.slots[id as int].in_use,
    ensures
        after.slots.len() == line.slots.len(),
        if phase is Done {
            &&& action is Finish
            &&& !after.slots[id as int].in_use
        } else {
            &&& owned_slot(phase) == Some(id)
            &&& after.slots[id as int].in_use
            &&& after.slots[id as int].generation == line.slots[id as int].generation
        },
{
}

/// A call leaves the slot of every other call in the other call's hands.
pub proof fn law_calls_keep_to_their_own_slots<R, W, F, C>(
    line: Line<R, W>,
    before: CallPhase,
    event: CallEvent<R, W, F, C>,
    limit: int,
    after: Line<R, W>,
    phase: CallPhase,
    action: CallAction<R, W, F, C>,
    other: u8,
)
    requires
        advances(line, before, event, limit, after, phase, action),
        line.slots.len() <= 32,
        other < line.slots.len(),
        line.slots[other as int].in_use,
        owned_slot(before) matches Some(own) ==> own < line.slots.len(),
        owned_slot(before) != Some(other),
    ensures
        owned_slot(phase) != Some(other),
        after.slots[other as int].in_use,
        after.slots[other as int].generation == line.slots[other as int].generation,
{
}

/// A reply that another call has put into the slot of a waiting call ends
/// that call when it is next polled, if no late reply is owed to the slot.
pub proof fn law_delivered_reply_ends_the_call<R, W, F, C>(
    line: Line<R, W>,
    id: u8,
    reply: Seq<u8>,
    limit: int,
    after: Line<R, W>,
    phase: CallPhase,
    action: CallAction<R, W, F, C>,
)
    requires
        id < line.slots.len(),
        line.slots[id as int].in_use,
        !crate::stream::routing::owes(line.slots, id as int, UNTAGGED),
        0 < reply.len() <= limit,
        advances(
            Line {
                slots: crate::stream::routing::delivered(
                    line.slots,
                    id as int,
                    UNTAGGED,
                    reply,
                    limit,
                ),
                ..line
            },
            CallPhase::AwaitReply(id),
            CallEvent::Poll,
            limit,
            after,
            phase,
            action,
        ),
    ensures
        phase is Done,
        action matches CallAction::Finish(Ok(r)) && r@ == reply,
{
    crate::stream::routing::law_received_is_delivered(
        line.slots,
        id as int,
        UNTAGGED,
        reply,
        limit,
    );
}

/// What a cancelled call leaves behind: its slot is free and empty, the slots
/// of the other calls are as they were, and at most the one reply that is still
/// to come for it is added to those that will be discarded. That is so exactly
/// if its request was handed over for writing and has not been answered.
pub proof fn law_cancelled_call_leaves_at_most_its_reply(
    slots: Seq<SlotState>,
    phase: CallPhase,
    id: u8,
    tag: u16,
)
    requires
        owned_slot(phase) == Some(id),
        id < slots.len(),
    ensures
        ({
            let after = cancelled(slots, phase, tag);
            let before = slots[id as int].owed;
            let on_its_way = phase is Write || phase is AwaitReply || phase is Read;
            &&& after.len() == slots.len()
            &&& !after[id as int].in_use
            &&& after[id as int].reply == Seq::<u8>::empty()
            &&& !after[id as int].answered
            &&& forall|i: int| 0 <= i < slots.len() && i != id ==> after[i] == slots[i]
            &&& crate::stream::routing::owed_count(after[id as int].owed, tag) == if on_its_way
                && !slots[id as int].answered {
                crate::stream::routing::one_more(
                    crate::stream::routing::owed_count(before, tag),
                )
            } else {
                crate::stream::routing::owed_count(before, tag)
            }
            &&& forall|other: u16|
                other != tag ==> crate::stream::routing::owed_count(
                    after[id as int].owed,
                    other,
                ) == crate::stream::routing::owed_count(before, other)
        }),
{
}

/// The late reply to a cancelled call is not handed to the call that has taken
/// its slot, if it comes before that call's own: the new call reads on, and
/// finishes with the reply that follows.
pub proof fn law_next_call_finishes_with_its_own_reply<R, W, F, C>(
    line: Line<R, W>,
    id: u8,
    late: CallEvent<R, W, F, C>,
    late_frame: Vec<u8>,
    own: CallEvent<R, W, F, C>,
    own_frame: Vec<u8>,
    limit: int,
    between: Line<R, W>,
    phase: CallPhase,
    action: CallAction<R, W, F, C>,
    after: Line<R, W>,
    last_phase: CallPhase,
    last_action: CallAction<R, W, F, C>,
)
    requires
        crate::stream::routing::slots_valid(line.slots, limit),
        id < line.slots.len(),
        line.slots[id as int].in_use,
        !line.slots[id as int].answered,
        !crate::stream::routing::owes(line.slots, id as int, UNTAGGED),
        late matches CallEvent::Read(_, Ok(f)) && f == late_frame,
        own matches CallEvent::Read(_, Ok(f)) && f == own_frame,
        late_frame@.len() >= 1 && late_frame@[0] == id,
        own_frame@.len() >= 1 && own_frame@[0] == id,
        advances(
            Line {
                slots: crate::stream::routing::acquired(
                    cancelled(line.slots, CallPhase::AwaitReply(id), UNTAGGED),
                    id as int,
                ),
                ..line
            },
            CallPhase::Read(id),
            late,
            limit,
            between,
            phase,
            action,
        ),
        advances(between, phase, own, limit, after, last_phase, last_action),
    ensures
        phase == CallPhase::Read(id),
        action is Read,
        last_phase is Done,
        last_action matches CallAction::Finish(Ok(reply)) && reply@ == own_frame@.skip(1),
{
    let taken_over = crate::stream::routing::acquired(
        cancelled(line.slots, CallPhase::AwaitReply(id), UNTAGGED),
        id as int,
    );
    assert(crate::stream::routing::owes(taken_over, id as int, UNTAGGED));
    assert(taken_over[id as int].reply.len() == 0);
}

/// The slots of an endpoint after the call of `given_up` in slot `id` was
/// cancelled, another call took the slot, and the pump read responses for the
/// slot: each the API that it names, and its payload.
pub open spec fn after_responses(
    state: crate::stream::duplex::DuplexState,
    id: u8,
    given_up: u16,
    responses: Seq<(u16, Seq<u8>)>,
    limit: int,
) -> crate::stream::duplex::DuplexState
    decreases responses.len(),
{
    if responses.len() == 0 {
        crate::stream::duplex::DuplexState {
            slots: crate::stream::routing::acquired(
                cancelled(state.slots, CallPhase::AwaitReply(id), given_up),
                id as int,
            ),
            ..state
        }
    } else {
        let (api_id, payload) = responses.last();
        let header = DuplexHeader {
            kind: crate::stream::duplex::KIND_RESPONSE,
            api_id,
            slot_id: id,
        };
        crate::stream::duplex::pumped(
            after_responses(state, id, given_up, responses.drop_last(), limit),
            crate::stream::duplex::duplex_frame(header, payload),
            limit,
        )->Ok_0
    }
}

/// The call of one API that has taken the slot of a cancelled call finishes
/// with its own response and never with the late one. If the cancelled call was
/// of another API, that is so in whichever order the two responses come, and
/// also if the late one never does. If it was of the same API, the late response
/// is the one that comes first.
pub proof fn law_next_duplex_call_finishes_with_its_own_reply<W, F, C>(
    state: crate::stream::duplex::DuplexState,
    line: Line<Infallible, W>,
    given_up: u16,
    api_id: u16,
    id: u8,
    late: Seq<u8>,
    own: Seq<u8>,
    responses: Seq<(u16, Seq<u8>)>,
    limit: int,
    after: Line<Infallible, W>,
    phase: CallPhase,
    action: CallAction<Infallible, W, F, C>,
)
    requires
        crate::stream::routing::slots_valid(state.slots, limit),
        id < state.slots.len(),
        state.slots[id as int].in_use,
        !state.slots[id as int].answered,
        !crate::stream::routing::owes(state.slots, id as int, api_id),
        0 < own.len() <= limit,
        responses == seq![(given_up, late), (api_id, own)] || (given_up != api_id && (responses
            == seq![(api_id, own), (given_up, late)] || responses == seq![(api_id, own)])),
        duplex_advances(
            Line {
                slots: after_responses(state, id, given_up, responses, limit).slots,
                ..line
            },
            CallPhase::AwaitReply(id),
            CallEvent::Poll,
            api_id,
            after,
            phase,
            action,
        ),
    ensures
        phase is Done,
        action matches CallAction::Finish(Ok(reply)) && reply@ == own,
{
    reveal_with_fuel(after_responses, 3);
    let kind = crate::stream::duplex::KIND_RESPONSE;
    let given_up_header = DuplexHeader { kind, api_id: given_up, slot_id: id };
    let own_header = DuplexHeader { kind, api_id, slot_id: id };
    crate::stream::duplex::law_parse_inverts_encode(given_up_header, late);
    crate::stream::duplex::law_parse_inverts_encode(own_header, own);
    let none = Seq::<(u16, Seq<u8>)>::empty();
    let taken_over = after_responses(state, id, given_up, none, limit);
    assert(crate::stream::routing::owes(taken_over.slots, id as int, given_up));
    assert(taken_over.slots[id as int].reply.len() == 0);
    let first = seq![responses[0]];
    assert(first.drop_last() =~= none);
    if responses.len() == 2 {
        assert(responses.drop_last() =~= first);
    } else {
        assert(responses =~= first);
    }
}

/// A late response is never what a poll of the new call reports: until its own
/// response has come, it waits.
pub proof fn law_late_response_keeps_the_next_call_waiting<W, F, C>(
    state: crate::stream::duplex::DuplexState,
    line: Line<Infallible, W>,
    given_up: u16,
    api_id: u16,
    id: u8,
    late: Seq<u8>,
    limit: int,
    after: Line<Infallible, W>,
    phase: CallPhase,
    action: CallAction<Infallible, W, F, C>,
)
    requires
        crate::stream::routing::slots_valid(state.slots, limit),
        id < state.slots.len(),
        state.slots[id as int].in_use,
        !state.slots[id as int].answered,
        duplex_advances(
            Line {
                slots: after_responses(state, id, given_up, seq![(given_up, late)], limit).slots,
                ..line
            },
            CallPhase::AwaitReply(id),
            CallEvent::Poll,
            api_id,
            after,
            phase,
            action,
        ),
    ensures
        phase == CallPhase::AwaitReply(id),
        action is Wait,
{
    let header = DuplexHeader {
        kind: crate::stream::duplex::KIND_RESPONSE,
        api_id: given_up,
        slot_id: id,
    };
    crate::stream::duplex::law_parse_inverts_encode(header, late);
    let none = Seq::<(u16, Seq<u8>)>::empty();
    let taken_over = after_responses(state, id, given_up, none, limit);
    assert(crate::stream::routing::owes(taken_over.slots, id as int, given_up));
    assert(seq![(given_up, late)].drop_last() =~= none);
}

/// A duplex call owns its slot until it is over, and then the slot is free.
pub proof fn law_duplex_call_owns_its_slot_until_it_is_over<W, F, C>(
    line: Line<Infallible, W>,
    before: CallPhase,
    event: CallEvent<Infallible, W, F, C>,
    api_id: u16,
    after: Line<Infallible, W>,
    phase: CallPhase,
    action: CallAction<Infallible, W, F, C>,
    id: u8,
)
    requires
        duplex_advances(line, before, event, api_id, after, phase, action),
        owned_slot(before) == Some(id),
        id < line.slots.len(),
        line.slots[id as int].in_use,
    ensures
        after.slots.len() == line.slots.len(),
        if phase is Done {
            &&& action is Finish
            &&& !after.slots[id as int].in_use
        } else {
            &&& owned_slot(phase) == Some(id)
            &&& after.slots[id as int].in_use
            &&& after.slots[id as int].generation == line.slots[id as int].generation
        },
{
}

/// A duplex call leaves the slot of every other call as it is.
pub proof fn law_duplex_calls_keep_to_their_own_slots<W, F, C>(
    line: Line<Infallible, W>,
    before: CallPhase,
    event: CallEvent<Infallible, W, F, C>,
    api_id: u16,
    after: Line<Infallible, W>,
    phase: CallPhase,
    action: CallAction<Infallible, W, F, C>,
    other: u8,
)
    requires
        duplex_advances(line, before, event, api_id, after, phase, action),
        line.slots.len() <= 32,
        other < line.slots.len(),
        line.slots[other as int].in_use,
        owned_slot(before) matches Some(own) ==> own < line.slots.len(),
        owned_slot(before) != Some(other),
    ensures
        owned_slot(phase) != Some(other),
        after.slots[other as int] == line.slots[other as int],
{
}

/// A response that the pump has delivered ends the call that waits for it, if
/// no late response of its API is owed to the slot.
pub proof fn law_pumped_response_ends_the_call<W, F, C>(
    state: crate::stream::duplex::DuplexState,
    line: Line<Infallible, W>,
    api_id: u16,
    id: u8,
    response: Seq<u8>,
    limit: int,
    after: Line<Infallible, W>,
    phase: CallPhase,
    action: CallAction<Infallible, W, F, C>,
)
    requires
        id < state.slots.len(),
        state.slots[id as int].in_use,
        !crate::stream::routing::owes(state.slots, id as int, api_id),
        0 < response.len() <= limit,
        ({
            let header = DuplexHeader {
                kind: crate::stream::duplex::KIND_RESPONSE,
                api_id,
                slot_id: id,
            };
            let frame = crate::stream::duplex::duplex_frame(header, response);
            crate::stream::duplex::pumped(state, frame, limit) matches Ok(pumped)
                && duplex_advances(
                Line { slots: pumped.slots, ..line },
                CallPhase::AwaitReply(id),
                CallEvent::Poll,
                api_id,
                after,
                phase,
                action,
            )
        }),
    ensures
        phase is Done,
        action matches CallAction::Finish(Ok(r)) && r@ == response,
{
    crate::stream::duplex::law_response_reaches_caller(state, api_id, id, response, limit);
}

/// A call that cannot encode its request, write it or read its reply ends with
/// that error, gives its slot back, and what it held of the stream.
pub proof fn law_failed_call_reports_its_error<R, W, F, C>(
    line: Line<R, W>,
    before: CallPhase,
    event: CallEvent<R, W, F, C>,
    limit: int,
    after: Line<R, W>,
    phase: CallPhase,
    action: CallAction<R, W, F, C>,
)
    requires
        advances(line, before, event, limit, after, phase, action),
    ensures
        event matches CallEvent::Encoded(Err(e)) ==> action == CallAction::<R, W, F, C>::Finish(
            Err(StreamTransportError::Codec(e)),
        ),
        event matches CallEvent::Written(writer, Err(e)) ==> {
            &&& action == CallAction::<R, W, F, C>::Finish(Err(StreamTransportError::Framing(e)))
            &&& after.writer == Some(writer.inner())
            &&& !after.writer_waiting
        },
        event matches CallEvent::Read(reader, Err(e)) ==> {
            &&& action == CallAction::<R, W, F, C>::Finish(Err(StreamTransportError::Framing(e)))
            &&& after.reader == Some(reader.inner())
            &&& !after.reader_waiting
        },
        phase is Done <==> action is Finish,
        phase is Done && owned_slot(before) is Some && 0 <= owned_slot(before)->0
            < line.slots.len() && !(event is Read) ==> !after.slots[owned_slot(before)->0 as int].in_use,
{
}

/// The frame of a request is the byte of its slot and the encoded request,
/// whether it can be written at once or the writer is busy.
pub proof fn law_request_goes_out_under_its_slot<R, W, F, C>(
    line: Line<R, W>,
    id: u8,
    payload: Vec<u8>,
    limit: int,
    after: Line<R, W>,
    phase: CallPhase,
    action: CallAction<R, W, F, C>,
)
    requires
        advances(
            line,
            CallPhase::Encode(id),
            CallEvent::Encoded(Ok(payload)),
            limit,
            after,
            phase,
            action,
        ),
    ensures
        line.writer is Some ==> phase == CallPhase::Write(id) && (action matches CallAction::Write(
            writer,
            frame,
        ) && Some(writer.inner()) == line.writer && frame@.len() == payload@.len() + 1 && frame@[0]
            == id && frame@.skip(1) == payload@),
        line.writer is None ==> action is Wait && after.writer_waiting && (
        phase matches CallPhase::AwaitWriter(slot, frame) && slot == id && frame.len()
            == payload@.len() + 1 && frame[0] == id && frame.skip(1) == payload@),
        after.slots == line.slots,
{
    assert((seq![id] + payload@).skip(1) =~= payload@);
}

/// A caller that reads the frame of its own slot finishes with what stands
/// behind the slot's byte, unless that frame is owed to a call that was given up.
pub proof fn law_own_frame_ends_the_call<R, W, F, C>(
    line: Line<R, W>,
    id: u8,
    event: CallEvent<R, W, F, C>,
    reply: Seq<u8>,
    limit: int,
    after: Line<R, W>,
    phase: CallPhase,
    action: CallAction<R, W, F, C>,
)
    requires
        event matches CallEvent::Read(_, Ok(frame)) && frame@ == seq![id] + reply,
        !crate::stream::routing::owes(line.slots, id as int, UNTAGGED),
        advances(line, CallPhase::Read(id), event, limit, after, phase, action),
    ensures
        phase == CallPhase::Done,
        action matches CallAction::Finish(Ok(r)) && r@ == reply,
        event matches CallEvent::Read(reader, _) && after.reader == Some(reader.inner()),
        !after.reader_waiting,
{
    assert((seq![id] + reply).skip(1) =~= reply);
}

/// A call that waits is parked where it will be woken: for a slot, for the
/// writer or for the reader.
pub proof fn law_waiting_call_is_parked<R, W, F, C>(
    line: Line<R, W>,
    before: CallPhase,
    event: CallEvent<R, W, F, C>,
    limit: int,
    after: Line<R, W>,
    phase: CallPhase,
    action: CallAction<R, W, F, C>,
)
    requires
        advances(line, before, event, limit, after, phase, action),
        action is Wait,
    ensures
        phase is Acquire || phase is AwaitWriter || phase is AwaitReply,
        phase is Acquire ==> after.slot_waiting,
        phase is AwaitWriter ==> after.writer_waiting,
        phase is AwaitReply ==> after.reader_waiting,
{
}

/// A duplex call that cannot encode or write its request ends with that error,
/// and gives back what it held of the stream.
pub proof fn law_failed_duplex_call_reports_its_error<W, F, C>(
    line: Line<Infallible, W>,
    before: CallPhase,
    event: CallEvent<Infallible, W, F, C>,
    api_id: u16,
    after: Line<Infallible, W>,
    phase: CallPhase,
    action: CallAction<Infallible, W, F, C>,
)
    requires
        duplex_advances(line, before, event, api_id, after, phase, action),
    ensures
        event matches CallEvent::Encoded(Err(e)) ==> action == CallAction::<
            Infallible,
            W,
            F,
            C,
        >::Finish(Err(StreamTransportError::Codec(e))),
        event matches CallEvent::Written(writer, Err(e)) ==> {
            &&& action == CallAction::<Infallible, W, F, C>::Finish(
                Err(StreamTransportError::Framing(e)),
            )
            &&& after.writer == Some(writer.inner())
            &&& !after.writer_waiting
        },
        phase is Done <==> action is Finish,
        phase is Done && owned_slot(before) is Some && 0 <= owned_slot(before)->0
            < line.slots.len() ==> !after.slots[owned_slot(before)->0 as int].in_use,
        action is Wait ==> phase is Acquire || phase is AwaitWriter || phase is AwaitReply,
        action is Wait && phase is Acquire ==> after.slot_waiting,
        action is Wait && phase is AwaitWriter ==> after.writer_waiting,
        action is Wait ==> (phase matches CallPhase::AwaitReply(id) ==> (id < line.slots.len()
            ==> after.slots[id as int].waiting)),
{
}

/// The frame of a duplex request names its API and its slot, whether it can be
/// written at once or the writer is busy.
pub proof fn law_duplex_request_names_api_and_slot<W, F, C>(
    line: Line<Infallible, W>,
    id: u8,
    payload: Vec<u8>,
    api_id: u16,
    after: Line<Infallible, W>,
    phase: CallPhase,
    action: CallAction<Infallible, W, F, C>,
)
    requires
        duplex_advances(
            line,
            CallPhase::Encode(id),
            CallEvent::Encoded(Ok(payload)),
            api_id,
            after,
            phase,
            action,
        ),
    ensures
        ({
            let sent = crate::stream::duplex::parsed_duplex_frame(
                match action {
                    CallAction::Write(_, frame) => frame@,
                    _ => match phase {
                        CallPhase::AwaitWriter(_, frame) => frame,
                        _ => Seq::empty(),
                    },
                },
            );
            &&& sent is Ok
            &&& sent->Ok_0.0.kind == KIND_REQUEST
            &&& sent->Ok_0.0.api_id == api_id
            &&& sent->Ok_0.0.slot_id == id
            &&& sent->Ok_0.1 == payload@
        }),
        line.writer is Some <==> phase == CallPhase::Write(id),
        line.writer is None <==> action is Wait,
        after.slots == line.slots,
{
    crate::stream::duplex::law_parse_inverts_encode(
        DuplexHeader { kind: KIND_REQUEST, api_id, slot_id: id },
        payload@,
    );
}

/// A sequential call sends its request as it was encoded, reports the error of
/// a step that fails and then no longer waits for an answer, and is parked
/// whenever it waits.
pub proof fn law_failed_sequential_call_reports_its_error<R, W, F, C>(
    line: SequentialLine<R, W>,
    before: SequentialPhase,
    event: CallEvent<R, W, F, C>,
    after: SequentialLine<R, W>,
    phase: SequentialPhase,
    action: CallAction<R, W, F, C>,
)
    requires
        sequential_advances(line, before, event, after, phase, action),
    ensures
        event matches CallEvent::Encoded(Err(e)) ==> action == CallAction::<R, W, F, C>::Finish(
            Err(StreamTransportError::Codec(e)),
        ) && after == line,
        event matches CallEvent::Encoded(Ok(payload)) ==> match line.writer {
            Some(w) => action matches CallAction::Write(writer, frame) && writer.inner() == w
                && frame@ == payload@,
            None => action is Wait && phase == SequentialPhase::AwaitWriter(payload@),
        },
        event matches CallEvent::Written(writer, Err(e)) ==> {
            &&& action == CallAction::<R, W, F, C>::Finish(Err(StreamTransportError::Framing(e)))
            &&& after.writer == Some(writer.inner())
            &&& after.backlog.queue.len() <= line.backlog.queue.len()
        },
        event matches CallEvent::Read(reader, Err(e)) ==> {
            &&& action == CallAction::<R, W, F, C>::Finish(Err(StreamTransportError::Framing(e)))
            &&& after.reader == Some(reader.inner())
            &&& after.backlog.queue.len() <= line.backlog.queue.len()
        },
        phase is Done <==> action is Finish,
        action is Wait ==> phase is AwaitWriter || phase is AwaitReader,
        action is Wait && phase is AwaitWriter ==> after.writer_waiting,
        action is Wait && phase is AwaitReader ==> after.reader_waiting,
{
    if let SequentialPhase::Write(number) = before {
        lemma_withdrawn_is_shorter(line.backlog, number);
    }
    if let SequentialPhase::Read(number) = before {
        lemma_withdrawn_is_shorter(line.backlog, number);
    }
}

proof fn lemma_withdrawn_is_shorter(backlog: Backlog, number: u64)
    ensures
        crate::stream::transport::withdrawn(backlog, number).queue.len() <= backlog.queue.len(),
{
    let queue = backlog.queue;
    if crate::stream::transport::place_of(queue, number) is Some {
        let i = choose|i: int| crate::stream::transport::is_place(queue, number, i);
        assert(crate::stream::transport::is_place(queue, number, i));
    }
}

} // verus!
