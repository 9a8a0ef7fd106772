//! Calls in both directions over one byte stream.
//!
//! Either peer may call and serve. Every frame names its kind, the API that
//! it belongs to and the caller's slot:
//!
//! ```text
//! [u8 kind][u16 api_id, little-endian][u8 slot_id][payload]
//! ```
//!
//! A pump reads the incoming frames: responses go to the slots of the calls
//! in flight, requests to the inbox of the API that they are meant for.

use vstd::prelude::*;

use crate::error::{text_with, ErrorText};
use crate::io::local_lock::LocalLockGuard;
use crate::io::LocalLock;
use crate::stream::routing::{
    MuxedReplyToken, MuxedSlotGuard, MuxedSlots, ReplyRouter, RouterSlotHandle, SlotState,
};
use crate::text::decimal_text;
use crate::wake::{new_waker_cell, park_waker, wake_parked, PollState};
use atomic_waker::AtomicWaker;
use core::marker::PhantomData;
use core::task::Waker;
use std::collections::HashMap;
use std::collections::VecDeque;

verus! {

broadcast use vstd::std_specs::hash::group_hash_axioms;

/// Kind of a frame that calls an API of the peer.
pub const KIND_REQUEST: u8 = 0;

/// Kind of a frame that answers an earlier request.
pub const KIND_RESPONSE: u8 = 1;

/// Number of header bytes in front of the payload.
pub const DUPLEX_HEADER_LEN: usize = 4;

/// Header of a duplex frame.
#[derive(Debug, Clone, Copy)]
pub struct DuplexHeader {
    /// [`KIND_REQUEST`] or [`KIND_RESPONSE`].
    pub kind: u8,
    /// The API that the frame belongs to.
    pub api_id: u16,
    /// The caller's slot; a response repeats that of its request.
    pub slot_id: u8,
}

/// Why a duplex frame cannot be parsed.
#[derive(Debug)]
pub enum DuplexFrameError {
    /// The frame is shorter than its header.
    TooShort,
    /// The kind is neither request nor response.
    UnknownKind(u8),
}

impl ErrorText for DuplexFrameError {
    open spec fn text(&self) -> Seq<char> {
        match self {
            DuplexFrameError::TooShort => "duplex frame too short for header"@,
            DuplexFrameError::UnknownKind(kind) => "unknown duplex frame kind: "@
                + crate::text::decimal(*kind as nat),
        }
    }

    fn to_text(&self) -> (text: String) {
        match self {
            DuplexFrameError::TooShort => "duplex frame too short for header".to_owned(),
            DuplexFrameError::UnknownKind(kind) => text_with(
                "unknown duplex frame kind: ",
                decimal_text(*kind as u64).as_str(),
            ),
        }
    }
}

/// The frame with this header and payload.
pub open spec fn duplex_frame(header: DuplexHeader, payload: Seq<u8>) -> Seq<u8> {
    seq![
        header.kind,
        (header.api_id % 256) as u8,
        (header.api_id / 256) as u8,
        header.slot_id,
    ] + payload
}

/// The header and the payload of a frame.
pub open spec fn parsed_duplex_frame(frame: Seq<u8>) -> Result<
    (DuplexHeader, Seq<u8>),
    DuplexFrameError,
> {
    if frame.len() < 4 {
        Err(DuplexFrameError::TooShort)
    } else if frame[0] != KIND_REQUEST && frame[0] != KIND_RESPONSE {
        Err(DuplexFrameError::UnknownKind(frame[0]))
    } else {
        Ok(
            (
                DuplexHeader {
                    kind: frame[0],
                    api_id: (frame[1] + 256 * frame[2]) as u16,
                    slot_id: frame[3],
                },
                frame.skip(4),
            ),
        )
    }
}

/// Puts a header in front of `payload`.
pub fn encode_duplex_frame(kind: u8, api_id: u16, slot_id: u8, payload: &[u8]) -> (frame: Vec<u8>)
    ensures
        frame@ == duplex_frame(DuplexHeader { kind, api_id, slot_id }, payload@),
{
    let mut frame: Vec<u8> = Vec::new();
    frame.push(kind);
    frame.push((api_id % 256) as u8);
    frame.push((api_id / 256) as u8);
    frame.push(slot_id);
    frame.extend_from_slice(payload);
    assert(frame@ =~= duplex_frame(DuplexHeader { kind, api_id, slot_id }, payload@));
    frame
}

/// Splits a frame into its header and its payload.
pub fn parse_duplex_frame(frame: &[u8]) -> (parsed: Result<(DuplexHeader, &[u8]), DuplexFrameError>)
    ensures
        match parsed_duplex_frame(frame@) {
            Ok((header, payload)) => parsed matches Ok((h, p)) && h == header && p@ == payload,
            Err(e) => parsed == Err::<(DuplexHeader, &[u8]), _>(e),
        },
{
    if frame.len() < DUPLEX_HEADER_LEN {
        return Err(DuplexFrameError::TooShort);
    }
    let kind: u8 = frame[0];
    if kind != KIND_REQUEST && kind != KIND_RESPONSE {
        return Err(DuplexFrameError::UnknownKind(kind));
    }
    let api_id: u16 = frame[1] as u16 + 256 * (frame[2] as u16);
    let payload = vstd::slice::slice_subrange(frame, DUPLEX_HEADER_LEN, frame.len());
    assert(payload@ =~= frame@.skip(4));
    Ok((DuplexHeader { kind, api_id, slot_id: frame[3] }, payload))
}

/// What is encoded is what is parsed.
pub proof fn law_parse_inverts_encode(header: DuplexHeader, payload: Seq<u8>)
    requires
        header.kind == KIND_REQUEST || header.kind == KIND_RESPONSE,
    ensures
        parsed_duplex_frame(duplex_frame(header, payload)) == Ok::<
            (DuplexHeader, Seq<u8>),
            DuplexFrameError,
        >((header, payload)),
{
    assert(duplex_frame(header, payload).skip(4) =~= payload);
}

/// What can be parsed is the encoding of its parts.
pub proof fn law_encode_inverts_parse(frame: Seq<u8>)
    requires
        parsed_duplex_frame(frame) is Ok,
    ensures
        parsed_duplex_frame(frame) matches Ok((header, payload)) && duplex_frame(header, payload)
            == frame,
{
    let (header, payload) = parsed_duplex_frame(frame)->Ok_0;
    assert(duplex_frame(header, payload) =~= frame);
}

/// A request that waits to be served.
#[verifier::ext_equal]
pub struct PendingRequest {
    /// The encoded request.
    pub payload: Seq<u8>,
    /// The caller's slot.
    pub slot_id: u8,
}

/// What an inbox holds.
#[verifier::ext_equal]
pub struct InboxState {
    /// The requests that wait, oldest first.
    pub queue: Seq<PendingRequest>,
    /// Whether no more requests will come.
    pub closed: bool,
    /// Whether the server is parked until a request comes.
    pub waiting: bool,
}

/// Queue of the requests for one API.
pub struct ServerInbox {
    queue: VecDeque<(Vec<u8>, u8)>,
    waker: AtomicWaker,
    closed: bool,
}

impl View for ServerInbox {
    type V = InboxState;

    closed spec fn view(&self) -> InboxState {
        InboxState {
            queue: Seq::new(
                self.queue@.len(),
                |i: int|
                    PendingRequest { payload: self.queue@[i].0@, slot_id: self.queue@[i].1 },
            ),
            closed: self.closed,
            waiting: crate::wake::waker_parked(self.waker),
        }
    }
}

/// An inbox without requests that is open.
pub open spec fn fresh_inbox() -> InboxState {
    InboxState { queue: Seq::empty(), closed: false, waiting: false }
}

/// The inbox after a request was put into it.
pub open spec fn with_request(inbox: InboxState, request: PendingRequest) -> InboxState {
    InboxState { queue: inbox.queue.push(request), waiting: false, ..inbox }
}

/// The inbox after it was closed.
pub open spec fn closed_inbox(inbox: InboxState) -> InboxState {
    InboxState { closed: true, waiting: false, ..inbox }
}

/// What the next poll of the server reports: a request, the end, or nothing
/// yet.
pub open spec fn next_receipt(inbox: InboxState) -> PollState<Option<PendingRequest>> {
    if inbox.queue.len() > 0 {
        PollState::Ready(Some(inbox.queue[0]))
    } else if inbox.closed {
        PollState::Ready(None)
    } else {
        PollState::Pending
    }
}

/// The inbox after the server polled it.
pub open spec fn after_receipt(inbox: InboxState) -> InboxState {
    if inbox.queue.len() > 0 {
        InboxState { queue: inbox.queue.skip(1), ..inbox }
    } else {
        InboxState { waiting: true, ..inbox }
    }
}

/// Whether `request` is what `receipt` stands for.
pub open spec fn is_receipt(
    request: PollState<Option<(Vec<u8>, u8)>>,
    receipt: PollState<Option<PendingRequest>>,
) -> bool {
    match receipt {
        PollState::Ready(Some(pending)) => request matches PollState::Ready(Some((payload, slot_id)))
            && pending == (PendingRequest { payload: payload@, slot_id }),
        PollState::Ready(None) => request == PollState::Ready(None::<(Vec<u8>, u8)>),
        PollState::Pending => request is Pending,
    }
}

impl ServerInbox {
    /// An inbox without requests.
    pub fn new() -> (inbox: Self)
        ensures
            inbox@ == fresh_inbox(),
    {
        let inbox = ServerInbox {
            queue: VecDeque::new(),
            waker: new_waker_cell(),
            closed: false,
        };
        assert(inbox@ =~= fresh_inbox());
        inbox
    }

    /// Puts a request at the end of the queue and wakes the server.
    pub fn push(&mut self, payload: Vec<u8>, slot_id: u8)
        ensures
            final(self)@ == with_request(
                old(self)@,
                PendingRequest { payload: payload@, slot_id },
            ),
    {
        self.queue.push_back((payload, slot_id));
        wake_parked(&mut self.waker);
        assert(self@ =~= with_request(old(self)@, PendingRequest { payload: payload@, slot_id }));
    }

    /// Marks that no more requests will come, and wakes the server.
    pub fn close(&mut self)
        ensures
            final(self)@ == closed_inbox(old(self)@),
    {
        self.closed = true;
        wake_parked(&mut self.waker);
        assert(self@ =~= closed_inbox(old(self)@));
    }

    /// One poll for the next request. The queued requests come first; after
    /// them a closed inbox reports `None`, and an open one waits.
    pub fn recv(&mut self, waker: &Waker) -> (request: PollState<Option<(Vec<u8>, u8)>>)
        ensures
            is_receipt(request, next_receipt(old(self)@)),
            final(self)@ == after_receipt(old(self)@),
    {
        match self.queue.pop_front() {
            Some((payload, slot_id)) => {
                assert(self@ =~= (InboxState { queue: old(self)@.queue.skip(1), ..old(self)@ }));
                assert(old(self)@.queue[0] =~= (PendingRequest { payload: payload@, slot_id }));
                PollState::Ready(Some((payload, slot_id)))
            },
            None => {
                park_waker(&mut self.waker, waker);
                assert(self@ =~= (InboxState { waiting: true, ..old(self)@ }));
                if self.closed {
                    PollState::Ready(None)
                } else {
                    PollState::Pending
                }
            },
        }
    }
}

/// What the two sides of a duplex endpoint hold: the calls in flight and the
/// requests to serve.
#[verifier::ext_equal]
pub struct DuplexState {
    /// The slots of the calls in flight.
    pub slots: Seq<SlotState>,
    /// The inboxes of the APIs that are served.
    pub inboxes: Map<u16, InboxState>,
}

/// The state after the pump read `frame`; `limit` is the buffer size of a
/// slot. A request for an API that is not served is dropped, and so is a
/// response of the API of a call that was given up in its slot.
pub open spec fn pumped(state: DuplexState, frame: Seq<u8>, limit: int) -> Result<
    DuplexState,
    DuplexFrameError,
> {
    match parsed_duplex_frame(frame) {
        Err(e) => Err(e),
        Ok((header, payload)) => if header.kind == KIND_RESPONSE {
            Ok(
                DuplexState {
                    slots: crate::stream::routing::delivered(
                        state.slots,
                        header.slot_id as int,
                        header.api_id,
                        payload,
                        limit,
                    ),
                    inboxes: state.inboxes,
                },
            )
        } else if state.inboxes.contains_key(header.api_id) {
            Ok(
                DuplexState {
                    slots: state.slots,
                    inboxes: state.inboxes.insert(
                        header.api_id,
                        with_request(
                            state.inboxes[header.api_id],
                            PendingRequest { payload, slot_id: header.slot_id },
                        ),
                    ),
                },
            )
        } else {
            Ok(state)
        },
    }
}

/// Shared by the pump and the halves of a duplex endpoint.
pub struct DuplexShared<W, Framer, Codec, const N: usize, const BUF: usize> {
    writer: LocalLock<W>,
    slots: Box<MuxedSlots<N, BUF>>,
    inboxes: HashMap<u16, ServerInbox>,
    framer: Framer,
    codec: Codec,
}

impl<W, Framer, Codec, const N: usize, const BUF: usize> View for DuplexShared<
    W,
    Framer,
    Codec,
    N,
    BUF,
> {
    type V = DuplexState;

    closed spec fn view(&self) -> DuplexState {
        DuplexState {
            slots: self.slots@,
            inboxes: self.inboxes@.map_values(|inbox: ServerInbox| inbox@),
        }
    }
}

impl<W, Framer, Codec, const N: usize, const BUF: usize> DuplexShared<W, Framer, Codec, N, BUF> {
    /// Validity: the slots are valid.
    pub closed spec fn wf(&self) -> bool {
        self.slots.wf()
    }

    /// The writer while nobody writes.
    pub closed spec fn idle_writer(&self) -> Option<W> {
        self.writer@
    }

    /// Whether a task is parked until nobody writes.
    pub closed spec fn writer_waiting(&self) -> bool {
        self.writer.waiting()
    }

    /// Whether a task is parked until a slot becomes free.
    pub closed spec fn slot_waiting(&self) -> bool {
        self.slots.acquire_waiting()
    }

    /// The slots of a valid endpoint are valid.
    pub proof fn law_valid_endpoint(&self)
        requires
            self.wf(),
        ensures
            N <= 32,
            self@.slots.len() == N,
            crate::stream::routing::slots_valid(self@.slots, BUF as int),
    {
        self.slots.law_valid_slots();
    }

    /// The framing and the codec.
    pub closed spec fn layers(&self) -> (Framer, Codec) {
        (self.framer, self.codec)
    }

    /// The writer, the task that waits for it, and the layers are as in
    /// `other`.
    pub open spec fn same_stream(&self, other: &Self) -> bool {
        &&& self.idle_writer() == other.idle_writer()
        &&& self.writer_waiting() == other.writer_waiting()
        &&& self.layers() == other.layers()
    }

    /// An endpoint without calls and without served APIs.
    pub fn new(writer: W, framer: Framer, codec: Codec) -> (shared: Self)
        requires
            N <= 32,
        ensures
            shared.wf(),
            shared.idle_writer() == Some(writer),
            !shared.writer_waiting(),
            !shared.slot_waiting(),
            shared.layers() == (framer, codec),
            shared@ == (DuplexState {
                slots: Seq::new(N as nat, |i: int| crate::stream::routing::free_slot_state(0)),
                inboxes: Map::empty(),
            }),
    {
        let shared = DuplexShared {
            writer: LocalLock::new(writer),
            slots: MuxedSlots::new_boxed(),
            inboxes: HashMap::new(),
            framer,
            codec,
        };
        assert(shared@.inboxes =~= Map::<u16, InboxState>::empty());
        shared
    }

    /// The framing layer.
    pub fn framer(&self) -> (framer: &Framer)
        ensures
            *framer == self.layers().0,
    {
        &self.framer
    }

    /// The codec.
    pub fn codec(&self) -> (codec: &Codec)
        ensures
            *codec == self.layers().1,
    {
        &self.codec
    }

    /// One poll for the right to write.
    pub fn poll_writer(&mut self, waker: &Waker) -> (writer: PollState<LocalLockGuard<W>>)
        ensures
            final(self)@ == old(self)@,
            final(self).wf() == old(self).wf(),
            final(self).layers() == old(self).layers(),
            final(self).slot_waiting() == old(self).slot_waiting(),
            final(self).idle_writer() is None,
            match old(self).idle_writer() {
                Some(w) => {
                    &&& writer matches PollState::Ready(g) && g.inner() == w
                    &&& final(self).writer_waiting() == old(self).writer_waiting()
                },
                None => writer is Pending && final(self).writer_waiting(),
            },
    {
        self.writer.poll_lock(waker)
    }

    /// Ends the right to write and wakes the next writer.
    pub fn return_writer(&mut self, writer: LocalLockGuard<W>)
        requires
            old(self).idle_writer() is None,
        ensures
            final(self)@ == old(self)@,
            final(self).wf() == old(self).wf(),
            final(self).layers() == old(self).layers(),
            final(self).slot_waiting() == old(self).slot_waiting(),
            final(self).idle_writer() == Some(writer.inner()),
            !final(self).writer_waiting(),
    {
        self.writer.unlock(writer)
    }

    /// Makes sure that there is an inbox for `api_id`. One that is already
    /// there is kept with its requests.
    pub fn register_inbox(&mut self, api_id: u16)
        requires
            old(self).wf(),
        ensures
            final(self).wf(),
            final(self).same_stream(old(self)),
            final(self).slot_waiting() == old(self).slot_waiting(),
            final(self)@ == registered(old(self)@, api_id),
    {
        if !self.inboxes.contains_key(&api_id) {
            self.inboxes.insert(api_id, ServerInbox::new());
            assert(self@.inboxes =~= old(self)@.inboxes.insert(api_id, fresh_inbox()));
        }
    }

    /// The APIs that have an inbox.
    fn served_apis(&self) -> (ids: Vec<u16>)
        ensures
            ids@.to_set() == self@.inboxes.dom(),
    {
        let mut ids: Vec<u16> = Vec::new();
        let ghost keys = vstd::std_specs::iter::IteratorSpec::remaining(
            &vstd::std_specs::hash::spec_keys_iter(&self.inboxes),
        );
        for id in iter: self.inboxes.keys()
            invariant
                iter.seq() == keys,
                ids@ == keys.take(iter.index()).unref(),
        {
            ids.push(*id);
            assert(ids@ =~= keys.take(iter.index() + 1).unref());
        }
        assert(keys.take(keys.len() as int) =~= keys);
        assert(self@.inboxes.dom() =~= self.inboxes@.dom());
        ids
    }

    /// Closes every inbox.
    pub fn close_inboxes(&mut self)
        requires
            old(self).wf(),
        ensures
            final(self).wf(),
            final(self).same_stream(old(self)),
            final(self).slot_waiting() == old(self).slot_waiting(),
            final(self)@ == all_closed(old(self)@),
    {
        let ghost before = self@.inboxes;
        let ids: Vec<u16> = self.served_apis();
        let mut i: usize = 0;
        while i < ids.len()
            invariant
                i <= ids@.len(),
                self.wf(),
                self.same_stream(old(self)),
                self.slot_waiting() == old(self).slot_waiting(),
                self@.slots == old(self)@.slots,
                self@.inboxes.dom() == before.dom(),
                forall|id: u16|
                    #[trigger] self@.inboxes.contains_key(id) ==> self@.inboxes[id]
                        == if ids@.take(i as int).contains(id) {
                        closed_inbox(before[id])
                    } else {
                        before[id]
                    },
            decreases ids.len() - i,
        {
            let id: u16 = ids[i];
            let ghost now = self@.inboxes;
            match self.inboxes.remove(&id) {
                Some(mut inbox) => {
                    inbox.close();
                    self.inboxes.insert(id, inbox);
                    assert(self@.inboxes =~= now.insert(id, closed_inbox(now[id])));
                },
                None => {},
            }
            proof {
                lemma_take_contains(ids@, i as int);
                assert forall|k: u16| #[trigger] self@.inboxes.contains_key(k) implies self@.inboxes[k]
                    == if ids@.take(i + 1).contains(k) {
                    closed_inbox(before[k])
                } else {
                    before[k]
                } by {
                    assert(now.contains_key(k));
                    assert(closed_inbox(closed_inbox(before[k])) == closed_inbox(before[k]));
                    assert(ids@.take(i + 1).contains(k) <==> ids@.take(i as int).contains(k) || k
                        == id);
                }
            }
            i = i + 1;
        }
        proof {
            assert(ids@.take(ids@.len() as int) =~= ids@);
            assert forall|id: u16| #[trigger] before.contains_key(id) implies ids@.contains(id) by {
                assert(ids@.to_set().contains(id));
            }
            assert(self@.inboxes =~= all_closed(old(self)@).inboxes);
        }
    }
}

proof fn lemma_take_contains<T>(s: Seq<T>, i: int)
    requires
        0 <= i < s.len(),
    ensures
        forall|x: T| #[trigger]
            s.take(i + 1).contains(x) <==> s.take(i).contains(x) || x == s[i],
{
    assert forall|x: T| #[trigger] s.take(i + 1).contains(x) implies s.take(i).contains(x) || x
        == s[i] by {
        let upto = s.take(i + 1);
        let k = choose|k: int| 0 <= k < upto.len() && upto[k] == x;
        if k < i {
            assert(s.take(i)[k] == x);
        }
    }
    assert forall|x: T| s.take(i).contains(x) || x == s[i] implies #[trigger] s.take(
        i + 1,
    ).contains(x) by {
        if x == s[i] {
            assert(s.take(i + 1)[i] == x);
        } else {
            let upto = s.take(i);
            let k = choose|k: int| 0 <= k < upto.len() && upto[k] == x;
            assert(s.take(i + 1)[k] == x);
        }
    }
}

/// The state after an inbox for `api_id` was registered.
pub open spec fn registered(state: DuplexState, api_id: u16) -> DuplexState {
    if state.inboxes.contains_key(api_id) {
        state
    } else {
        DuplexState { inboxes: state.inboxes.insert(api_id, fresh_inbox()), ..state }
    }
}

/// The state after every inbox was closed.
pub open spec fn all_closed(state: DuplexState) -> DuplexState {
    DuplexState {
        inboxes: state.inboxes.map_values(|inbox: InboxState| closed_inbox(inbox)),
        ..state
    }
}

/// Why a pump ended. `F` is the error of the framing layer.
#[derive(Debug)]
pub enum DuplexPumpError<F> {
    /// The framing layer failed.
    Framing(F),
    /// A frame had a malformed header.
    BadFrame(DuplexFrameError),
}

impl<F: ErrorText> ErrorText for DuplexPumpError<F> {
    open spec fn text(&self) -> Seq<char> {
        match self {
            DuplexPumpError::Framing(e) => e.text(),
            DuplexPumpError::BadFrame(e) => e.text(),
        }
    }

    fn to_text(&self) -> (text: String) {
        match self {
            DuplexPumpError::Framing(e) => e.to_text(),
            DuplexPumpError::BadFrame(e) => e.to_text(),
        }
    }
}

impl<W, Framer, Codec, const N: usize, const BUF: usize> DuplexShared<W, Framer, Codec, N, BUF> {
    /// Routes one incoming frame: a response to the slot of its call, a
    /// request to the inbox of its API.
    pub fn route_frame(&mut self, frame: &[u8]) -> (routed: Result<(), DuplexFrameError>)
        requires
            old(self).wf(),
        ensures
            final(self).wf(),
            final(self).same_stream(old(self)),
            final(self).slot_waiting() == old(self).slot_waiting(),
            match pumped(old(self)@, frame@, BUF as int) {
                Ok(state) => routed is Ok && final(self)@ == state,
                Err(e) => routed == Err::<(), _>(e) && final(self)@ == old(self)@,
            },
    {
        match parse_duplex_frame(frame) {
            Ok((header, payload)) => {
                if header.kind == KIND_RESPONSE {
                    self.slots.deliver_tagged(header.slot_id, header.api_id, payload);
                } else {
                    match self.inboxes.remove(&header.api_id) {
                        Some(mut inbox) => {
                            let mut owned: Vec<u8> = Vec::new();
                            owned.extend_from_slice(payload);
                            assert(owned@ =~= payload@);
                            inbox.push(owned, header.slot_id);
                            self.inboxes.insert(header.api_id, inbox);
                            assert(self@.inboxes =~= pumped(
                                old(self)@,
                                frame@,
                                BUF as int,
                            )->Ok_0.inboxes);
                        },
                        None => {
                            assert(self@.inboxes =~= old(self)@.inboxes);
                        },
                    }
                }
                Ok(())
            },
            Err(e) => Err(e),
        }
    }

    /// One step of the pump, with the frame that was read or the error that
    /// the read ended in. The first error ends the pump; every inbox is then
    /// closed.
    pub fn pump<F>(&mut self, read: Result<Vec<u8>, F>) -> (step: Result<(), DuplexPumpError<F>>)
        requires
            old(self).wf(),
        ensures
            final(self).wf(),
            final(self).same_stream(old(self)),
            final(self).slot_waiting() == old(self).slot_waiting(),
            match read {
                Ok(frame) => match pumped(old(self)@, frame@, BUF as int) {
                    Ok(state) => step is Ok && final(self)@ == state,
                    Err(e) => {
                        &&& step == Err::<(), _>(DuplexPumpError::<F>::BadFrame(e))
                        &&& final(self)@ == all_closed(old(self)@)
                    },
                },
                Err(e) => {
                    &&& step == Err::<(), _>(DuplexPumpError::Framing(e))
                    &&& final(self)@ == all_closed(old(self)@)
                },
            },
    {
        match read {
            Ok(frame) => {
                match self.route_frame(frame.as_slice()) {
                    Ok(()) => Ok(()),
                    Err(e) => {
                        self.close_inboxes();
                        Err(DuplexPumpError::BadFrame(e))
                    },
                }
            },
            Err(e) => {
                self.close_inboxes();
                Err(DuplexPumpError::Framing(e))
            },
        }
    }

    /// Starts a call: one poll for a free slot.
    pub fn poll_slot(&mut self, waker: &Waker) -> (slot: PollState<MuxedSlotGuard<N, BUF>>)
        requires
            old(self).wf(),
        ensures
            final(self).wf(),
            final(self).same_stream(old(self)),
            final(self).slot_waiting() == (slot is Pending || old(self).slot_waiting()),
            final(self)@.inboxes == old(self)@.inboxes,
            match crate::stream::routing::first_free(old(self)@.slots) {
                Some(i) => {
                    &&& slot matches PollState::Ready(s) && s.id() == i as u8
                    &&& final(self)@.slots == crate::stream::routing::acquired(
                        old(self)@.slots,
                        i as u8 as int,
                    )
                },
                None => slot is Pending && final(self)@.slots == old(self)@.slots,
            },
    {
        match self.slots.poll_acquire(waker) {
            PollState::Ready(acquired) => {
                let Ok(slot) = acquired;
                PollState::Ready(slot)
            },
            PollState::Pending => PollState::Pending,
        }
    }

    /// One poll of a caller that waits for its reply.
    pub fn poll_reply(&mut self, slot: &MuxedSlotGuard<N, BUF>, waker: &Waker) -> (reply: PollState<
        Vec<u8>,
    >)
        requires
            old(self).wf(),
        ensures
            final(self).wf(),
            final(self).same_stream(old(self)),
            final(self).slot_waiting() == old(self).slot_waiting(),
            final(self)@.inboxes == old(self)@.inboxes,
            match crate::stream::routing::pending_reply(old(self)@.slots, slot.id() as int) {
                Some(bytes) => {
                    &&& reply matches PollState::Ready(r) && r@ == bytes
                    &&& final(self)@.slots == old(self)@.slots
                },
                None => {
                    &&& reply is Pending
                    &&& final(self)@.slots == crate::stream::routing::parked_on(
                        old(self)@.slots,
                        slot.id() as int,
                    )
                },
            },
    {
        self.slots.poll_reply(slot, waker)
    }

    /// Ends a call that is finished, or given up before its request was on its
    /// way: the slot becomes free.
    pub fn end_call(&mut self, slot: MuxedSlotGuard<N, BUF>)
        requires
            old(self).wf(),
        ensures
            final(self).wf(),
            final(self).same_stream(old(self)),
            !final(self).slot_waiting(),
            final(self)@.inboxes == old(self)@.inboxes,
            final(self)@.slots == crate::stream::routing::freed(
                old(self)@.slots,
                slot.id() as int,
            ),
    {
        self.slots.release(slot);
    }

    /// Gives up a call of `api_id` whose request is on its way: the slot becomes
    /// free, and a response of that API that comes late will be discarded.
    pub fn abandon_call(&mut self, slot: MuxedSlotGuard<N, BUF>, api_id: u16)
        requires
            old(self).wf(),
        ensures
            final(self).wf(),
            final(self).same_stream(old(self)),
            !final(self).slot_waiting(),
            final(self)@.inboxes == old(self)@.inboxes,
            final(self)@.slots == crate::stream::routing::abandoned(
                old(self)@.slots,
                slot.id() as int,
                api_id,
            ),
    {
        self.slots.abandon(slot, api_id);
    }

    /// One poll for the next request of an API.
    pub fn poll_request(&mut self, api_id: u16, waker: &Waker) -> (request: PollState<
        Option<(Vec<u8>, u8)>,
    >)
        requires
            old(self).wf(),
            old(self)@.inboxes.contains_key(api_id),
        ensures
            final(self).wf(),
            final(self).same_stream(old(self)),
            final(self)@.slots == old(self)@.slots,
            final(self).slot_waiting() == old(self).slot_waiting(),
            final(self)@.inboxes == old(self)@.inboxes.insert(
                api_id,
                after_receipt(old(self)@.inboxes[api_id]),
            ),
            is_receipt(request, next_receipt(old(self)@.inboxes[api_id])),
    {
        match self.inboxes.remove(&api_id) {
            Some(mut inbox) => {
                let request = inbox.recv(waker);
                self.inboxes.insert(api_id, inbox);
                assert(self@.inboxes =~= old(self)@.inboxes.insert(api_id, inbox@));
                request
            },
            None => PollState::Pending,
        }
    }
}

/// The stream closed while a server waited for a request.
#[derive(Debug)]
pub struct DuplexStreamClosed;

impl ErrorText for DuplexStreamClosed {
    open spec fn text(&self) -> Seq<char> {
        "duplex stream closed"@
    }

    fn to_text(&self) -> (text: String) {
        "duplex stream closed".to_owned()
    }
}

/// Errors of the serving half of a duplex endpoint.
#[derive(Debug)]
pub enum DuplexServerError<F, C> {
    /// The framing layer failed.
    Framing(F),
    /// The codec failed.
    Codec(C),
    /// The stream closed before the next request.
    Closed,
}

impl<F: ErrorText, C: ErrorText> ErrorText for DuplexServerError<F, C> {
    open spec fn text(&self) -> Seq<char> {
        match self {
            DuplexServerError::Framing(e) => e.text(),
            DuplexServerError::Codec(e) => "codec error: "@ + e.text(),
            DuplexServerError::Closed => "duplex stream closed"@,
        }
    }

    fn to_text(&self) -> (text: String) {
        match self {
            DuplexServerError::Framing(e) => e.to_text(),
            DuplexServerError::Codec(e) => text_with("codec error: ", e.to_text().as_str()),
            DuplexServerError::Closed => "duplex stream closed".to_owned(),
        }
    }
}

/// The calling half of a duplex endpoint for one API of the peer.
pub struct DuplexClientHalf<Req, Resp> {
    api_id: u16,
    _phantom: PhantomData<(Req, Resp)>,
}

impl<Req, Resp> DuplexClientHalf<Req, Resp> {
    /// The API that is called.
    pub closed spec fn api(&self) -> u16 {
        self.api_id
    }

    /// The API that is called.
    pub fn api_id(&self) -> (api_id: u16)
        ensures
            api_id == self.api(),
    {
        self.api_id
    }

    /// The frame of a request from `slot`.
    pub fn request_frame<const N: usize, const BUF: usize>(
        &self,
        slot: &MuxedSlotGuard<N, BUF>,
        payload: &[u8],
    ) -> (frame: Vec<u8>)
        ensures
            frame@ == duplex_frame(
                DuplexHeader { kind: KIND_REQUEST, api_id: self.api(), slot_id: slot.id() },
                payload@,
            ),
    {
        encode_duplex_frame(KIND_REQUEST, self.api_id, slot.slot_id(), payload)
    }
}

/// The serving half of a duplex endpoint for one API.
pub struct DuplexServerHalf<Req, Resp> {
    api_id: u16,
    _phantom: PhantomData<(Req, Resp)>,
}

impl<Req, Resp> DuplexServerHalf<Req, Resp> {
    /// The API that is served.
    pub closed spec fn api(&self) -> u16 {
        self.api_id
    }

    /// The API that is served.
    pub fn api_id(&self) -> (api_id: u16)
        ensures
            api_id == self.api(),
    {
        self.api_id
    }

    /// What a server makes of a request that was received: the encoded
    /// request and the token to answer it, or that the stream has closed.
    pub fn receive<F, C>(&self, request: Option<(Vec<u8>, u8)>) -> (received: Result<
        (Vec<u8>, MuxedReplyToken),
        DuplexServerError<F, C>,
    >)
        ensures
            match request {
                Some((payload, slot_id)) => received matches Ok((p, token)) && p == payload
                    && token.id() == slot_id,
                None => received == Err::<(Vec<u8>, MuxedReplyToken), _>(
                    DuplexServerError::<F, C>::Closed,
                ),
            },
    {
        match request {
            Some((payload, slot_id)) => Ok((payload, MuxedReplyToken::new(slot_id))),
            None => Err(DuplexServerError::Closed),
        }
    }

    /// What a reply writes: the frame of an encoded response, or nothing but
    /// the codec's error if the response could not be encoded.
    pub fn reply<F, C>(&self, token: &MuxedReplyToken, encoded: Result<Vec<u8>, C>) -> (reply:
        Result<Vec<u8>, DuplexServerError<F, C>>)
        ensures
            match encoded {
                Ok(payload) => reply matches Ok(frame) && frame@ == duplex_frame(
                    DuplexHeader { kind: KIND_RESPONSE, api_id: self.api(), slot_id: token.id() },
                    payload@,
                ),
                Err(e) => reply == Err::<Vec<u8>, _>(DuplexServerError::<F, C>::Codec(e)),
            },
    {
        match encoded {
            Ok(payload) => Ok(self.reply_frame(token, payload.as_slice())),
            Err(e) => Err(DuplexServerError::Codec(e)),
        }
    }

    /// The frame of the response to the request that `token` names.
    pub fn reply_frame(&self, token: &MuxedReplyToken, payload: &[u8]) -> (frame: Vec<u8>)
        ensures
            frame@ == duplex_frame(
                DuplexHeader { kind: KIND_RESPONSE, api_id: self.api(), slot_id: token.id() },
                payload@,
            ),
    {
        encode_duplex_frame(KIND_RESPONSE, self.api_id, token.slot_id(), payload)
    }
}

/// A duplex endpoint before it is put to work.
pub struct DuplexStreamTransport<R, W, Framer, Codec, const N: usize, const BUF: usize> {
    reader: R,
    shared: DuplexShared<W, Framer, Codec, N, BUF>,
}

impl<R, W, Framer, Codec, const N: usize, const BUF: usize> DuplexStreamTransport<
    R,
    W,
    Framer,
    Codec,
    N,
    BUF,
> {
    /// The reader of the stream.
    pub closed spec fn stream_reader(&self) -> R {
        self.reader
    }

    /// What the pump and the halves share.
    pub closed spec fn endpoint(&self) -> DuplexShared<W, Framer, Codec, N, BUF> {
        self.shared
    }

    /// An endpoint with the given layers.
    pub fn with_layers(reader: R, writer: W, framer: Framer, codec: Codec) -> (transport: Self)
        requires
            N <= 32,
        ensures
            transport.stream_reader() == reader,
            transport.endpoint().wf(),
            transport.endpoint().idle_writer() == Some(writer),
            !transport.endpoint().writer_waiting(),
            !transport.endpoint().slot_waiting(),
            transport.endpoint().layers() == (framer, codec),
            transport.endpoint()@ == (DuplexState {
                slots: Seq::new(N as nat, |i: int| crate::stream::routing::free_slot_state(0)),
                inboxes: Map::empty(),
            }),
    {
        DuplexStreamTransport { reader, shared: DuplexShared::new(writer, framer, codec) }
    }

    /// An endpoint with default layers.
    pub fn new(reader: R, writer: W) -> (transport: Self) where Framer: Default, Codec: Default
        requires
            N <= 32,
        ensures
            transport.stream_reader() == reader,
            transport.endpoint().wf(),
            transport.endpoint().idle_writer() == Some(writer),
            !transport.endpoint().writer_waiting(),
            !transport.endpoint().slot_waiting(),
            call_ensures(Framer::default, (), transport.endpoint().layers().0),
            call_ensures(Codec::default, (), transport.endpoint().layers().1),
            transport.endpoint()@ == (DuplexState {
                slots: Seq::new(N as nat, |i: int| crate::stream::routing::free_slot_state(0)),
                inboxes: Map::empty(),
            }),
    {
        Self::with_layers(reader, writer, Framer::default(), Codec::default())
    }

    /// The serving half for `api_id`: its requests will be kept for it.
    pub fn server_half<Req, Resp>(&mut self, api_id: u16) -> (half: DuplexServerHalf<Req, Resp>)
        requires
            old(self).endpoint().wf(),
        ensures
            half.api() == api_id,
            final(self).stream_reader() == old(self).stream_reader(),
            final(self).endpoint().wf(),
            final(self).endpoint().same_stream(&old(self).endpoint()),
            final(self).endpoint().slot_waiting() == old(self).endpoint().slot_waiting(),
            final(self).endpoint()@ == registered(old(self).endpoint()@, api_id),
    {
        self.shared.server_half(api_id)
    }

    /// The calling half for the peer's API `api_id`.
    pub fn client_half<Req, Resp>(&self, api_id: u16) -> (half: DuplexClientHalf<Req, Resp>)
        ensures
            half.api() == api_id,
    {
        self.shared.client_half(api_id)
    }

    /// Splits the endpoint into the reader, which the pump consumes, and the
    /// state that the pump and the halves share.
    pub fn split(self) -> (parts: (R, DuplexShared<W, Framer, Codec, N, BUF>))
        ensures
            parts == (self.stream_reader(), self.endpoint()),
    {
        (self.reader, self.shared)
    }
}

impl<W, Framer, Codec, const N: usize, const BUF: usize> DuplexShared<W, Framer, Codec, N, BUF> {
    /// The serving half for `api_id`: its requests will be kept for it.
    pub fn server_half<Req, Resp>(&mut self, api_id: u16) -> (half: DuplexServerHalf<Req, Resp>)
        requires
            old(self).wf(),
        ensures
            half.api() == api_id,
            final(self).wf(),
            final(self).same_stream(old(self)),
            final(self).slot_waiting() == old(self).slot_waiting(),
            final(self)@ == registered(old(self)@, api_id),
    {
        self.register_inbox(api_id);
        DuplexServerHalf { api_id, _phantom: PhantomData }
    }

    /// The calling half for the peer's API `api_id`.
    pub fn client_half<Req, Resp>(&self, api_id: u16) -> (half: DuplexClientHalf<Req, Resp>)
        ensures
            half.api() == api_id,
    {
        DuplexClientHalf { api_id, _phantom: PhantomData }
    }
}

/// A request frame that the peer's pump reads ends up last in the inbox of
/// the API that it names, with the caller's slot, and touches nothing else.
pub proof fn law_request_reaches_inbox(
    state: DuplexState,
    api_id: u16,
    slot_id: u8,
    request: Seq<u8>,
    limit: int,
)
    requires
        state.inboxes.contains_key(api_id),
    ensures
        ({
            let header = DuplexHeader { kind: KIND_REQUEST, api_id, slot_id };
            let after = pumped(state, duplex_frame(header, request), limit);
            &&& after is Ok
            &&& after->Ok_0.slots == state.slots
            &&& after->Ok_0.inboxes[api_id].queue == state.inboxes[api_id].queue.push(
                PendingRequest { payload: request, slot_id },
            )
            &&& after->Ok_0.inboxes.remove(api_id) == state.inboxes.remove(api_id)
        }),
{
    let header = DuplexHeader { kind: KIND_REQUEST, api_id, slot_id };
    law_parse_inverts_encode(header, request);
    let after = pumped(state, duplex_frame(header, request), limit);
    assert(after->Ok_0.inboxes.remove(api_id) =~= state.inboxes.remove(api_id));
}

/// A response frame that the caller's pump reads ends up in the slot of the
/// call, if that call still waits and its slot owes no late response of that
/// API, and touches no inbox.
pub proof fn law_response_reaches_caller(
    state: DuplexState,
    api_id: u16,
    slot_id: u8,
    response: Seq<u8>,
    limit: int,
)
    requires
        slot_id < state.slots.len(),
        state.slots[slot_id as int].in_use,
        !crate::stream::routing::owes(state.slots, slot_id as int, api_id),
        0 < response.len() <= limit,
    ensures
        ({
            let header = DuplexHeader { kind: KIND_RESPONSE, api_id, slot_id };
            let after = pumped(state, duplex_frame(header, response), limit);
            &&& after is Ok
            &&& crate::stream::routing::pending_reply(after->Ok_0.slots, slot_id as int) == Some(
                response,
            )
            &&& after->Ok_0.inboxes == state.inboxes
        }),
{
    let header = DuplexHeader { kind: KIND_RESPONSE, api_id, slot_id };
    law_parse_inverts_encode(header, response);
    crate::stream::routing::law_received_is_delivered(
        state.slots,
        slot_id as int,
        api_id,
        response,
        limit,
    );
}

/// A request for an API that is not served is dropped without a trace.
pub proof fn law_unknown_api_is_dropped(
    state: DuplexState,
    api_id: u16,
    slot_id: u8,
    request: Seq<u8>,
    limit: int,
)
    requires
        !state.inboxes.contains_key(api_id),
    ensures
        pumped(
            state,
            duplex_frame(DuplexHeader { kind: KIND_REQUEST, api_id, slot_id }, request),
            limit,
        ) == Ok::<DuplexState, DuplexFrameError>(state),
{
    law_parse_inverts_encode(DuplexHeader { kind: KIND_REQUEST, api_id, slot_id }, request);
}

/// Closing an inbox loses no request: what was queued is still received, in
/// order, before the end is reported.
pub proof fn law_closing_keeps_requests(state: DuplexState, api_id: u16)
    requires
        state.inboxes.contains_key(api_id),
    ensures
        all_closed(state).inboxes.contains_key(api_id),
        all_closed(state).inboxes[api_id].queue == state.inboxes[api_id].queue,
        all_closed(state).inboxes[api_id].closed,
        all_closed(state).slots == state.slots,
{
}

/// Registering an API leaves the calls in flight and every other inbox as they
/// were: no request is lost, and no other server is told that the stream ended.
/// An API that was registered before keeps its inbox; that of a new one is empty
/// and open, so that its server waits for the first request.
pub proof fn law_registering_leaves_other_apis(state: DuplexState, api_id: u16)
    ensures
        registered(state, api_id).slots == state.slots,
        forall|id: u16|
            id != api_id ==> {
                &&& #[trigger] registered(state, api_id).inboxes.contains_key(id)
                    == state.inboxes.contains_key(id)
                &&& state.inboxes.contains_key(id) ==> registered(state, api_id).inboxes[id]
                    == state.inboxes[id]
            },
        registered(state, api_id).inboxes.contains_key(api_id),
        state.inboxes.contains_key(api_id) ==> registered(state, api_id).inboxes[api_id]
            == state.inboxes[api_id],
        !state.inboxes.contains_key(api_id) ==> {
            let inbox = registered(state, api_id).inboxes[api_id];
            inbox.queue.len() == 0 && !inbox.closed && !inbox.waiting && next_receipt(inbox)
                is Pending
        },
{
}

/// A frame is its kind, the api id with the low byte first, the slot and the
/// payload.
pub proof fn law_frame_layout(header: DuplexHeader, payload: Seq<u8>)
    ensures
        duplex_frame(header, payload).len() == 4 + payload.len(),
        duplex_frame(header, payload)[0] == header.kind,
        duplex_frame(header, payload)[1] + 256 * duplex_frame(header, payload)[2] == header.api_id,
        duplex_frame(header, payload)[3] == header.slot_id,
        forall|i: int|
            0 <= i < payload.len() ==> #[trigger] duplex_frame(header, payload)[4 + i]
                == payload[i],
{
}

/// Exactly the frames with a whole header of a known kind are parsed. A shorter
/// one is too short, whatever it starts with; of any other the kind is named.
pub proof fn law_malformed_frames_are_told_apart(frame: Seq<u8>)
    ensures
        parsed_duplex_frame(frame) is Ok <==> frame.len() >= 4 && frame[0] <= 1,
        parsed_duplex_frame(frame) == Err::<(DuplexHeader, Seq<u8>), DuplexFrameError>(
            DuplexFrameError::TooShort,
        ) <==> frame.len() < 4,
        frame.len() >= 4 && frame[0] > 1 ==> parsed_duplex_frame(frame) == Err::<
            (DuplexHeader, Seq<u8>),
            DuplexFrameError,
        >(DuplexFrameError::UnknownKind(frame[0])),
{
}

/// A malformed frame is refused with its error, and a well-formed one never is.
pub proof fn law_pump_refuses_only_malformed_frames(
    state: DuplexState,
    frame: Seq<u8>,
    limit: int,
)
    ensures
        pumped(state, frame, limit) is Ok <==> frame.len() >= 4 && frame[0] <= 1,
        frame.len() < 4 ==> pumped(state, frame, limit) == Err::<DuplexState, _>(
            DuplexFrameError::TooShort,
        ),
        frame.len() >= 4 && frame[0] > 1 ==> pumped(state, frame, limit) == Err::<DuplexState, _>(
            DuplexFrameError::UnknownKind(frame[0]),
        ),
{
}

/// The pump registers no API and forgets none, and closes no inbox: that is left
/// to the end of the stream. It wakes the server of a request that comes.
pub proof fn law_pump_keeps_inboxes_open(state: DuplexState, frame: Seq<u8>, limit: int)
    requires
        pumped(state, frame, limit) is Ok,
    ensures
        ({
            let after = pumped(state, frame, limit)->Ok_0;
            &&& after.inboxes.dom() == state.inboxes.dom()
            &&& forall|id: u16| #[trigger]
                state.inboxes.contains_key(id) ==> {
                    &&& after.inboxes[id].closed == state.inboxes[id].closed
                    &&& after.inboxes[id].queue.len() > state.inboxes[id].queue.len()
                        ==> !after.inboxes[id].waiting
                    &&& after.inboxes[id].queue.len() == state.inboxes[id].queue.len()
                        ==> after.inboxes[id] == state.inboxes[id]
                    &&& after.inboxes[id].queue.take(state.inboxes[id].queue.len() as int)
                        == state.inboxes[id].queue
                }
        }),
{
    let after = pumped(state, frame, limit)->Ok_0;
    assert(after.inboxes.dom() =~= state.inboxes.dom());
    assert forall|id: u16| #[trigger] state.inboxes.contains_key(id) implies after.inboxes[id].queue.take(
        state.inboxes[id].queue.len() as int,
    ) == state.inboxes[id].queue by {
        assert(after.inboxes[id].queue.take(state.inboxes[id].queue.len() as int)
            =~= state.inboxes[id].queue);
    }
}

/// The end of the stream reaches every server: each inbox is closed, none is
/// forgotten, and no server stays parked.
pub proof fn law_end_reaches_every_server(state: DuplexState)
    ensures
        all_closed(state).inboxes.dom() == state.inboxes.dom(),
        forall|id: u16| #[trigger]
            state.inboxes.contains_key(id) ==> all_closed(state).inboxes[id].closed
                && !all_closed(state).inboxes[id].waiting && all_closed(state).inboxes[id].queue
                == state.inboxes[id].queue,
{
    assert(all_closed(state).inboxes.dom() =~= state.inboxes.dom());
}

/// A poll that finds nothing parks the server; one that hands out a request
/// changes nothing but the queue. Neither opens nor closes the inbox.
pub proof fn law_receipt_parks_only_without_requests(inbox: InboxState)
    ensures
        after_receipt(inbox).closed == inbox.closed,
        inbox.queue.len() == 0 ==> after_receipt(inbox).waiting && after_receipt(inbox).queue.len()
            == 0,
        inbox.queue.len() > 0 ==> after_receipt(inbox).waiting == inbox.waiting
            && next_receipt(inbox) == PollState::Ready(Some(inbox.queue[0])) && seq![inbox.queue[0]]
            + after_receipt(inbox).queue == inbox.queue,
{
    if inbox.queue.len() > 0 {
        assert(seq![inbox.queue[0]] + after_receipt(inbox).queue =~= inbox.queue);
    }
}

/// Registering an API twice keeps the requests that have come in between.
pub proof fn law_registering_twice_changes_nothing(state: DuplexState, api_id: u16)
    ensures
        registered(registered(state, api_id), api_id) == registered(state, api_id),
{
}

/// The inbox after `requests` were put into it, one after the other.
pub open spec fn with_requests(inbox: InboxState, requests: Seq<PendingRequest>) -> InboxState
    decreases requests.len(),
{
    if requests.len() == 0 {
        inbox
    } else {
        with_request(with_requests(inbox, requests.drop_last()), requests.last())
    }
}

/// The inbox after the server polled it `count` times.
pub open spec fn after_receipts(inbox: InboxState, count: nat) -> InboxState
    decreases count,
{
    if count == 0 {
        inbox
    } else {
        after_receipt(after_receipts(inbox, (count - 1) as nat))
    }
}

/// An inbox hands out its requests in the order in which they came, each once,
/// whether it was closed before them, after them or not at all. After the last
/// one it reports the end if it is closed, and waits if it is not.
pub proof fn law_inbox_is_first_in_first_out(
    requests: Seq<PendingRequest>,
    closed_before: bool,
    closed_after: bool,
    count: nat,
)
    requires
        count <= requests.len(),
    ensures
        ({
            let opened = if closed_before {
                closed_inbox(fresh_inbox())
            } else {
                fresh_inbox()
            };
            let filled = with_requests(opened, requests);
            let inbox = if closed_after {
                closed_inbox(filled)
            } else {
                filled
            };
            next_receipt(after_receipts(inbox, count)) == if count < requests.len() {
                PollState::Ready(Some(requests[count as int]))
            } else if closed_before || closed_after {
                PollState::Ready(None)
            } else {
                PollState::Pending
            }
        }),
{
    let opened = if closed_before {
        closed_inbox(fresh_inbox())
    } else {
        fresh_inbox()
    };
    let filled = with_requests(opened, requests);
    let inbox = if closed_after {
        closed_inbox(filled)
    } else {
        filled
    };
    lemma_with_requests(opened, requests);
    assert(opened.queue + requests =~= requests);
    lemma_after_receipts(inbox, count);
}

proof fn lemma_with_requests(inbox: InboxState, requests: Seq<PendingRequest>)
    ensures
        with_requests(inbox, requests).queue == inbox.queue + requests,
        with_requests(inbox, requests).closed == inbox.closed,
    decreases requests.len(),
{
    if requests.len() > 0 {
        lemma_with_requests(inbox, requests.drop_last());
        assert((inbox.queue + requests.drop_last()).push(requests.last()) =~= inbox.queue
            + requests);
    } else {
        assert(inbox.queue + requests =~= inbox.queue);
    }
}

proof fn lemma_after_receipts(inbox: InboxState, count: nat)
    requires
        count <= inbox.queue.len(),
    ensures
        after_receipts(inbox, count).queue == inbox.queue.skip(count as int),
        after_receipts(inbox, count).closed == inbox.closed,
    decreases count,
{
    if count > 0 {
        lemma_after_receipts(inbox, (count - 1) as nat);
        assert(inbox.queue.skip(count - 1).skip(1) =~= inbox.queue.skip(count as int));
    } else {
        assert(inbox.queue.skip(0) =~= inbox.queue);
    }
}

} // verus!
