//! Reply routing: how responses find the caller that waits for them.
//!
//! [`Sequential`] serves one request at a time and adds nothing to a frame.
//! [`MuxedSlots`] keeps up to `N` requests in flight over one byte stream;
//! every frame starts with the one-byte id of the slot that it belongs to.

use vstd::prelude::*;

use crate::wake::{new_waker_cell, park_waker, wake_parked, PollState};
use atomic_waker::AtomicWaker;
use core::task::Waker;
use std::collections::HashMap;

verus! {

broadcast use vstd::std_specs::hash::group_hash_axioms;

/// The tag of every reply on a stream whose frames carry nothing but the slot.
pub const UNTAGGED: u16 = 0;

/// Handle of an acquired routing slot.
pub trait RouterSlotHandle {
    /// The index of the slot.
    spec fn id(&self) -> u8;

    /// The slot index that goes into frame headers.
    fn slot_id(&self) -> (id: u8)
        ensures
            id == self.id(),
    ;
}

/// Reply routing strategy: how outgoing requests are tagged and incoming
/// replies are handed to their callers.
///
/// The spec functions say, over the slots before an operation, what the
/// operation does to them.
pub trait ReplyRouter: Sized {
    /// Number of routing bytes in front of every frame.
    const HEADER_LEN: usize;

    /// Handle of an acquired slot.
    type SlotHandle: RouterSlotHandle;

    /// Why a slot cannot be acquired at all.
    type Error;

    /// Number of routing bytes, as a mathematical value.
    spec fn header_len() -> int;

    /// The constant and the mathematical value agree, and every slot's
    /// routing bytes have that length.
    proof fn lemma_header_len(id: u8)
        ensures
            Self::HEADER_LEN == Self::header_len(),
            Self::header(id).len() == Self::header_len(),
    ;

    /// Validity of the router.
    spec fn valid(&self) -> bool;

    /// The router's slots.
    spec fn slots(&self) -> Seq<SlotState>;

    /// The routing bytes of slot `id`.
    spec fn header(id: u8) -> Seq<u8>;

    /// The slot that a frame with these leading bytes belongs to.
    spec fn addressee(frame: Seq<u8>) -> u8;

    /// The slot that the next acquisition takes, if there is one.
    spec fn next_slot(slots: Seq<SlotState>) -> Option<u8>;

    /// The slots after slot `id` was acquired.
    spec fn after_acquire(slots: Seq<SlotState>, id: u8) -> Seq<SlotState>;

    /// The slots after slot `id` was released.
    spec fn after_release(slots: Seq<SlotState>, id: u8) -> Seq<SlotState>;

    /// The slots after `payload` was delivered to slot `id`.
    spec fn after_delivery(slots: Seq<SlotState>, id: u8, payload: Seq<u8>) -> Seq<SlotState>;

    /// Acquires a slot without waiting; `None` if there is none to take.
    fn try_acquire(&mut self) -> (slot: Option<Self::SlotHandle>)
        requires
            old(self).valid(),
        ensures
            final(self).valid(),
            match Self::next_slot(old(self).slots()) {
                Some(id) => {
                    &&& slot matches Some(s) && s.id() == id
                    &&& final(self).slots() == Self::after_acquire(old(self).slots(), id)
                },
                None => slot is None && final(self).slots() == old(self).slots(),
            },
    ;

    /// One poll of an acquisition that waits until a slot becomes free.
    fn poll_acquire(&mut self, waker: &Waker) -> (slot: PollState<
        Result<Self::SlotHandle, Self::Error>,
    >)
        requires
            old(self).valid(),
        ensures
            final(self).valid(),
            match Self::next_slot(old(self).slots()) {
                Some(id) => {
                    &&& slot matches PollState::Ready(Ok(s)) && s.id() == id
                    &&& final(self).slots() == Self::after_acquire(old(self).slots(), id)
                },
                None => slot is Pending && final(self).slots() == old(self).slots(),
            },
    ;

    /// Gives a slot back.
    fn release(&mut self, slot: Self::SlotHandle)
        requires
            old(self).valid(),
        ensures
            final(self).valid(),
            final(self).slots() == Self::after_release(old(self).slots(), slot.id()),
    ;

    /// Writes the slot's routing bytes over the head of `buf`.
    fn write_header(slot: &Self::SlotHandle, buf: &mut [u8])
        requires
            old(buf)@.len() >= Self::header_len(),
        ensures
            final(buf)@ == Self::header(slot.id()) + old(buf)@.skip(Self::header_len()),
    ;

    /// Reads the slot id from the head of an incoming frame.
    fn parse_header(buf: &[u8]) -> (id: u8)
        requires
            buf@.len() >= Self::header_len(),
        ensures
            id == Self::addressee(buf@),
    ;

    /// Delivers a reply payload to the given slot. The delivery is silently
    /// discarded if nobody owns the slot any more.
    fn deliver(&mut self, slot_id: u8, payload: &[u8])
        requires
            old(self).valid(),
        ensures
            final(self).valid(),
            final(self).slots() == Self::after_delivery(old(self).slots(), slot_id, payload@),
    ;
}

/// Sequential routing: one request at a time, nothing on the wire. The next
/// frame is the reply to the one caller.
#[derive(Debug, Default, Clone, Copy)]
pub struct Sequential;

/// Slot handle of [`Sequential`] routing.
pub struct SequentialSlot;

impl RouterSlotHandle for SequentialSlot {
    open spec fn id(&self) -> u8 {
        0
    }

    fn slot_id(&self) -> (id: u8) {
        0
    }
}

impl ReplyRouter for Sequential {
    const HEADER_LEN: usize = 0;

    type SlotHandle = SequentialSlot;

    type Error = core::convert::Infallible;

    open spec fn header_len() -> int {
        0
    }

    proof fn lemma_header_len(id: u8) {
        assert(Self::header(id) == Seq::<u8>::empty());
    }

    open spec fn valid(&self) -> bool {
        true
    }

    open spec fn slots(&self) -> Seq<SlotState> {
        Seq::empty()
    }

    open spec fn header(id: u8) -> Seq<u8> {
        Seq::empty()
    }

    open spec fn addressee(frame: Seq<u8>) -> u8 {
        0
    }

    open spec fn next_slot(slots: Seq<SlotState>) -> Option<u8> {
        Some(0)
    }

    open spec fn after_acquire(slots: Seq<SlotState>, id: u8) -> Seq<SlotState> {
        slots
    }

    open spec fn after_release(slots: Seq<SlotState>, id: u8) -> Seq<SlotState> {
        slots
    }

    open spec fn after_delivery(
        slots: Seq<SlotState>,
        id: u8,
        payload: Seq<u8>,
    ) -> Seq<SlotState> {
        slots
    }

    fn try_acquire(&mut self) -> (slot: Option<SequentialSlot>) {
        let slot = SequentialSlot;
        assert(slot.id() == 0u8);
        assert(Self::next_slot(self.slots()) == Some(0u8));
        assert(Self::after_acquire(self.slots(), 0u8) == self.slots());
        Some(slot)
    }

    fn poll_acquire(&mut self, waker: &Waker) -> (slot: PollState<
        Result<SequentialSlot, core::convert::Infallible>,
    >) {
        let slot = SequentialSlot;
        assert(slot.id() == 0u8);
        assert(Self::next_slot(self.slots()) == Some(0u8));
        assert(Self::after_acquire(self.slots(), 0u8) == self.slots());
        PollState::Ready(Ok(slot))
    }

    fn release(&mut self, slot: SequentialSlot) {
    }

    fn write_header(slot: &SequentialSlot, buf: &mut [u8]) {
        assert(buf@ =~= Self::header(0) + buf@.skip(0));
    }

    fn parse_header(buf: &[u8]) -> (id: u8) {
        0
    }

    fn deliver(&mut self, slot_id: u8, payload: &[u8]) {
    }
}

/// What one slot of a [`MuxedSlots`] router holds.
#[verifier::ext_equal]
pub struct SlotState {
    /// Whether a caller owns the slot.
    pub in_use: bool,
    /// How often the slot has been freed, modulo 256.
    pub generation: u8,
    /// The reply that was delivered; empty while there is none.
    pub reply: Seq<u8>,
    /// Whether a task is parked until the slot's reply arrives.
    pub waiting: bool,
    /// Whether a reply was delivered to the current owner.
    pub answered: bool,
    /// How many replies are still to come for calls that were given up, by
    /// the tag that their replies carry. A tag that is missing counts none.
    pub owed: Map<u16, u64>,
}

/// Storage of one slot.
struct SlotCell {
    data: Vec<u8>,
    waker: AtomicWaker,
    generation: u8,
    answered: bool,
    owed: HashMap<u16, u64>,
}

impl SlotCell {
    spec fn state(&self, in_use: bool) -> SlotState {
        SlotState {
            in_use,
            generation: self.generation,
            reply: self.data@,
            waiting: crate::wake::waker_parked(self.waker),
            answered: self.answered,
            owed: self.owed@,
        }
    }

    fn new() -> (cell: Self)
        ensures
            forall|in_use: bool| #[trigger] cell.state(in_use) == free_slot_state(0).with_use(in_use),
    {
        let cell = SlotCell {
            data: Vec::new(),
            waker: new_waker_cell(),
            generation: 0,
            answered: false,
            owed: HashMap::new(),
        };
        assert(cell.owed@ =~= Map::<u16, u64>::empty());
        assert(cell.data@ =~= Seq::<u8>::empty());
        cell
    }
}

impl SlotState {
    /// The same slot with another owner mark.
    pub open spec fn with_use(self, in_use: bool) -> SlotState {
        SlotState { in_use, ..self }
    }
}

/// A slot that nobody owns, nobody waits on and no reply is owed to.
pub open spec fn free_slot_state(generation: u8) -> SlotState {
    SlotState {
        in_use: false,
        generation,
        reply: Seq::empty(),
        waiting: false,
        answered: false,
        owed: Map::empty(),
    }
}

/// Bit `i` of `bitmap`.
pub open spec fn bit_set(bitmap: u32, i: int) -> bool {
    (bitmap >> (i as u32)) & 1u32 == 1u32
}

proof fn lemma_bit_zero(i: u32)
    ensures
        !bit_set(0u32, i as int),
{
    assert((0u32 >> i) & 1u32 == 0u32) by (bit_vector);
}

proof fn lemma_bit_insert(bitmap: u32, i: u32, j: u32)
    requires
        i < 32,
        j < 32,
    ensures
        bit_set(bitmap | (1u32 << i), j as int) == (i == j || bit_set(bitmap, j as int)),
{
    assert(((bitmap | (1u32 << i)) >> j) & 1u32 == 1u32 <==> (i == j || (bitmap >> j) & 1u32
        == 1u32)) by (bit_vector)
        requires
            i < 32,
            j < 32,
    ;
}

proof fn lemma_bit_remove(bitmap: u32, i: u32, j: u32)
    requires
        i < 32,
        j < 32,
    ensures
        bit_set(bitmap & !(1u32 << i), j as int) == (i != j && bit_set(bitmap, j as int)),
{
    assert(((bitmap & !(1u32 << i)) >> j) & 1u32 == 1u32 <==> (i != j && (bitmap >> j) & 1u32
        == 1u32)) by (bit_vector)
        requires
            i < 32,
            j < 32,
    ;
}

proof fn lemma_bit_free(bitmap: u32, mask: u32, j: u32)
    requires
        j < 32,
    ensures
        bit_set((!bitmap) & mask, j as int) == (!bit_set(bitmap, j as int) && bit_set(
            mask,
            j as int,
        )),
{
    assert((((!bitmap) & mask) >> j) & 1u32 == 1u32 <==> ((bitmap >> j) & 1u32 != 1u32 && (mask
        >> j) & 1u32 == 1u32)) by (bit_vector)
        requires
            j < 32,
    ;
}

proof fn lemma_bit_mask(n: u32, j: u32)
    requires
        n < 32,
        j < 32,
    ensures
        1u32 << n >= 1,
        bit_set(((1u32 << n) - 1) as u32, j as int) == (j < n),
{
    assert(1u32 << n >= 1 && ((((((1u32 << n) - 1) as u32) >> j) & 1u32 == 1u32) <==> j < n))
        by (bit_vector)
        requires
            n < 32,
            j < 32,
    ;
}

proof fn lemma_bit_full(j: u32)
    requires
        j < 32,
    ensures
        bit_set(u32::MAX, j as int),
{
    assert((0xffff_ffffu32 >> j) & 1u32 == 1u32) by (bit_vector)
        requires
            j < 32,
    ;
}

proof fn lemma_bit_test(bitmap: u32, j: u32)
    requires
        j < 32,
    ensures
        (bitmap & (1u32 << j) == 0) == !bit_set(bitmap, j as int),
{
    assert((bitmap & (1u32 << j) == 0u32) <==> ((bitmap >> j) & 1u32 != 1u32)) by (bit_vector)
        requires
            j < 32,
    ;
}

/// Multiplexed reply router with `N` slots, each with room for a reply of
/// `BUF` bytes. `N` is at most 32.
pub struct MuxedSlots<const N: usize, const BUF: usize> {
    /// Bit `i` is set while slot `i` is owned.
    bitmap: u32,
    slots: Vec<SlotCell>,
    /// Parks a task that waits for a slot to become free.
    alloc_waker: AtomicWaker,
}

impl<const N: usize, const BUF: usize> View for MuxedSlots<N, BUF> {
    type V = Seq<SlotState>;

    closed spec fn view(&self) -> Seq<SlotState> {
        Seq::new(self.slots@.len(), |i: int| self.slots@[i].state(bit_set(self.bitmap, i)))
    }
}

impl<const N: usize, const BUF: usize> MuxedSlots<N, BUF> {
    /// Validity: `N` slots, none beyond them in use, no reply longer than
    /// `BUF`, and neither a reply nor an answer in a slot that nobody owns.
    pub closed spec fn wf(&self) -> bool {
        &&& N <= 32
        &&& self.slots@.len() == N
        &&& forall|j: int| N <= j < 32 ==> !bit_set(self.bitmap, j)
        &&& forall|i: int| 0 <= i < N ==> (#[trigger] self.slots@[i]).data@.len() <= BUF
        &&& forall|i: int|
            0 <= i < N && !bit_set(self.bitmap, i) ==> (#[trigger] self.slots@[i]).data@.len() == 0
                && !self.slots@[i].answered
    }

    /// Whether a task is parked until a slot becomes free.
    pub closed spec fn acquire_waiting(&self) -> bool {
        crate::wake::waker_parked(self.alloc_waker)
    }

    /// A valid router has `N` slots, all of them valid.
    pub proof fn law_valid_slots(&self)
        requires
            self.wf(),
        ensures
            N <= 32,
            self@.len() == N,
            slots_valid(self@, BUF as int),
    {
    }

    fn with_free_slots() -> (router: Self)
        ensures
            N <= 32 ==> router.wf(),
            router@ == Seq::new(N as nat, |i: int| free_slot_state(0)),
            !router.acquire_waiting(),
    {
        let mut slots: Vec<SlotCell> = Vec::new();
        let mut i: usize = 0;
        while i < N
            invariant
                i <= N,
                slots@.len() == i,
                forall|j: int, u: bool|
                    0 <= j < i ==> #[trigger] slots@[j].state(u) == free_slot_state(0).with_use(u),
            decreases N - i,
        {
            slots.push(SlotCell::new());
            i = i + 1;
        }
        let router = MuxedSlots { bitmap: 0, slots, alloc_waker: new_waker_cell() };
        proof {
            assert forall|j: int| 0 <= j implies !bit_set(0u32, j) by {
                lemma_bit_zero(j as u32);
            }
            assert forall|j: int| 0 <= j < N implies (#[trigger] slots@[j]).data@.len() == 0
                && !slots@[j].answered by {
                assert(slots@[j].state(false) == free_slot_state(0).with_use(false));
            }
            assert(router@ =~= Seq::new(N as nat, |i: int| free_slot_state(0))) by {
                assert forall|j: int| 0 <= j < N implies router@[j] == free_slot_state(0) by {
                    assert(slots@[j].state(false) == free_slot_state(0).with_use(false));
                }
            }
        }
        router
    }

    /// A router with all slots free.
    pub fn new() -> (router: Self)
        requires
            N <= 32,
        ensures
            router.wf(),
            router@ == Seq::new(N as nat, |i: int| free_slot_state(0)),
            !router.acquire_waiting(),
    {
        Self::with_free_slots()
    }

    /// A heap-allocated router in the same state as [`MuxedSlots::new`].
    pub fn new_boxed() -> (router: Box<Self>)
        requires
            N <= 32,
        ensures
            router.wf(),
            router@ == Seq::new(N as nat, |i: int| free_slot_state(0)),
            !router.acquire_waiting(),
    {
        Box::new(Self::new())
    }

    /// A mask with bits `0..N` set.
    fn valid_mask() -> (mask: u32)
        requires
            N <= 32,
        ensures
            forall|j: int| 0 <= j < 32 ==> bit_set(mask, j) == (j < N),
    {
        if N == 32 {
            proof {
                assert forall|j: int| 0 <= j < 32 implies bit_set(u32::MAX, j) == (j < N) by {
                    lemma_bit_full(j as u32);
                }
            }
            u32::MAX
        } else {
            let n: u32 = N as u32;
            proof {
                lemma_bit_mask(n, 0);
            }
            let mask: u32 = (1u32 << n) - 1;
            proof {
                assert forall|j: int| 0 <= j < 32 implies #[trigger] bit_set(mask, j) == (j
                    < N) by {
                    lemma_bit_mask(n, j as u32);
                }
            }
            mask
        }
    }

    /// Takes the free slot with the lowest index and returns that index with
    /// the slot's generation; `None` when every slot is in use.
    fn try_alloc(&mut self) -> (taken: Option<(u8, u8)>)
        requires
            old(self).wf(),
        ensures
            final(self).wf(),
            final(self).acquire_waiting() == old(self).acquire_waiting(),
            match first_free(old(self)@) {
                Some(i) => {
                    &&& taken == Some((i as u8, old(self)@[i].generation))
                    &&& 0 <= i < N
                    &&& final(self)@ == acquired(old(self)@, i)
                },
                None => taken is None && final(self)@ == old(self)@,
            },
    {
        let mask = Self::valid_mask();
        let free: u32 = (!self.bitmap) & mask;
        proof {
            vstd::std_specs::bits::axiom_u32_trailing_zeros(free);
            assert forall|j: int| 0 <= j < 32 implies #[trigger] bit_set(free, j) == (j < N && !bit_set(self.bitmap, j)) by {
                lemma_bit_free(self.bitmap, mask, j as u32);
            }
        }
        if free == 0 {
            proof {
                assert forall|j: int| 0 <= j < N implies (#[trigger] self@[j]).in_use by {
                    lemma_bit_zero(j as u32);
                    assert(!bit_set(free, j));
                }
                lemma_first_free_none(self@);
            }
            return None;
        }
        let idx: u32 = free.trailing_zeros();
        proof {
            assert(bit_set(free, idx as int));
            assert forall|j: int| 0 <= j < idx implies (#[trigger] self@[j]).in_use by {
                let k = j as u32;
                assert((free >> k) & 1u32 == 0u32);
                assert(!bit_set(free, j));
            }
            assert(!self@[idx as int].in_use);
            lemma_first_free_some(self@, idx as int);
        }
        let ghost before = self.bitmap;
        self.bitmap = self.bitmap | (1u32 << idx);
        proof {
            assert forall|j: int| 0 <= j < 32 implies #[trigger] bit_set(self.bitmap, j) == (j == idx || bit_set(before, j)) by {
                lemma_bit_insert(before, idx, j as u32);
            }
            assert(self@ =~= acquired(old(self)@, idx as int));
        }
        Some((idx as u8, self.slots[idx as usize].generation))
    }

    /// Gives slot `idx` back: its reply is dropped, its generation advances,
    /// and a task that waits for a free slot is woken.
    fn free_slot(&mut self, idx: u8)
        requires
            old(self).wf(),
            idx < N,
        ensures
            final(self).wf(),
            final(self)@ == freed(old(self)@, idx as int),
            !final(self).acquire_waiting(),
    {
        let ghost before = self.bitmap;
        let i: usize = idx as usize;
        self.slots[i].data.clear();
        self.slots[i].answered = false;
        self.slots[i].generation = self.slots[i].generation.wrapping_add(1);
        self.bitmap = self.bitmap & !(1u32 << (idx as u32));
        wake_parked(&mut self.alloc_waker);
        proof {
            assert forall|j: int| 0 <= j < 32 implies #[trigger] bit_set(self.bitmap, j) == (j != idx && bit_set(before, j)) by {
                lemma_bit_remove(before, idx as u32, j as u32);
            }
            assert(self@ =~= freed(old(self)@, idx as int));
        }
    }

    /// The reply that waits in slot `slot_id`, if there is one. A slot index
    /// out of range has none, and an empty reply counts as none.
    pub fn try_recv_slot(&self, slot_id: u8) -> (reply: Option<&[u8]>)
        requires
            self.wf(),
        ensures
            match pending_reply(self@, slot_id as int) {
                Some(bytes) => reply matches Some(r) && r@ == bytes,
                None => reply is None,
            },
    {
        if slot_id as usize >= N {
            return None;
        }
        let slot = &self.slots[slot_id as usize];
        if slot.data.len() > 0 {
            Some(slot.data.as_slice())
        } else {
            None
        }
    }

    /// Takes note of a reply for slot `slot_id` that carries `tag`: whether it
    /// belongs to a call that was given up, and so is to be discarded.
    pub fn settle(&mut self, slot_id: u8, tag: u16) -> (discard: bool)
        requires
            old(self).wf(),
        ensures
            final(self).wf(),
            final(self).acquire_waiting() == old(self).acquire_waiting(),
            discard == owes(old(self)@, slot_id as int, tag),
            final(self)@ == if discard {
                settled(old(self)@, slot_id as int, tag)
            } else {
                old(self)@
            },
    {
        if slot_id as usize >= N {
            return false;
        }
        let i: usize = slot_id as usize;
        let ghost before = self.slots@[i as int].owed@;
        let owed: u64 = match self.slots[i].owed.get(&tag) {
            Some(count) => *count,
            None => 0,
        };
        assert(owed == owed_count(before, tag));
        if owed == 0 {
            return false;
        }
        self.slots[i].owed.insert(tag, owed - 1);
        assert(self.slots@[i as int].owed@ =~= before.insert(tag, (owed - 1) as u64));
        assert(self@ =~= settled(old(self)@, slot_id as int, tag));
        true
    }

    /// Gives a slot back whose request is on its way: a reply that has not
    /// come yet, and that will carry `tag`, will be discarded when it comes.
    pub fn abandon(&mut self, slot: MuxedSlotGuard<N, BUF>, tag: u16)
        requires
            old(self).wf(),
        ensures
            final(self).wf(),
            final(self)@ == abandoned(old(self)@, slot.id() as int, tag),
            !final(self).acquire_waiting(),
    {
        proof {
            use_type_invariant(&slot);
        }
        let i: usize = slot.index as usize;
        let answered: bool = self.slots[i].answered;
        self.free_slot(slot.index);
        let ghost before = self.slots@[i as int].owed@;
        if !answered {
            let owed: u64 = match self.slots[i].owed.get(&tag) {
                Some(count) => *count,
                None => 0,
            };
            assert(owed == owed_count(before, tag));
            let more: u64 = if owed < u64::MAX {
                owed + 1
            } else {
                owed
            };
            self.slots[i].owed.insert(tag, more);
            assert(self.slots@[i as int].owed@ =~= before.insert(tag, one_more(owed)));
        }
        assert(self@ =~= abandoned(old(self)@, slot.id() as int, tag));
    }

    /// Starts the delivery of a reply: a ticket with the slot's current
    /// generation, or `None` if the slot does not exist, nobody owns it, or the
    /// reply belongs to a call that was given up.
    pub fn begin_delivery(&mut self, slot_id: u8, tag: u16) -> (ticket: Option<DeliveryTicket>)
        requires
            old(self).wf(),
        ensures
            final(self).wf(),
            final(self).acquire_waiting() == old(self).acquire_waiting(),
            if owes(old(self)@, slot_id as int, tag) {
                ticket is None && final(self)@ == settled(old(self)@, slot_id as int, tag)
            } else {
                ticket == delivery_ticket(old(self)@, slot_id as int) && final(self)@
                    == old(self)@
            },
    {
        if slot_id as usize >= N {
            return None;
        }
        if self.settle(slot_id, tag) {
            return None;
        }
        proof {
            lemma_bit_test(self.bitmap, slot_id as u32);
        }
        if self.bitmap & (1u32 << (slot_id as u32)) == 0 {
            return None;
        }
        Some(DeliveryTicket { slot_id, generation: self.slots[slot_id as usize].generation })
    }

    /// Completes a delivery. The payload, cut off after `BUF` bytes, becomes
    /// the slot's reply and the task that waits for it is woken, unless the
    /// slot was freed since the ticket was drawn: then nothing changes.
    pub fn finish_delivery(&mut self, ticket: DeliveryTicket, payload: &[u8])
        requires
            old(self).wf(),
        ensures
            final(self).wf(),
            final(self)@ == completed(old(self)@, ticket, payload@, BUF as int),
            final(self).acquire_waiting() == old(self).acquire_waiting(),
    {
        if ticket.slot_id as usize >= N {
            return;
        }
        proof {
            lemma_bit_test(self.bitmap, ticket.slot_id as u32);
        }
        if self.bitmap & (1u32 << (ticket.slot_id as u32)) == 0 {
            return;
        }
        let i: usize = ticket.slot_id as usize;
        if self.slots[i].generation != ticket.generation {
            return;
        }
        let len: usize = if payload.len() < BUF { payload.len() } else { BUF };
        let mut data: Vec<u8> = Vec::new();
        data.extend_from_slice(vstd::slice::slice_subrange(payload, 0, len));
        assert(data@ =~= cut_off(payload@, BUF as int));
        self.slots[i].data = data;
        self.slots[i].answered = true;
        wake_parked(&mut self.slots[i].waker);
        proof {
            assert(self@ =~= completed(old(self)@, ticket, payload@, BUF as int));
        }
    }
}

impl<const N: usize, const BUF: usize> Default for MuxedSlots<N, BUF> {
    fn default() -> (router: Self)
        ensures
            N <= 32 ==> router.wf(),
            router@ == Seq::new(N as nat, |i: int| free_slot_state(0)),
            !router.acquire_waiting(),
    {
        Self::with_free_slots()
    }
}

/// Proof of ownership of a slot of a [`MuxedSlots`] router. It is consumed
/// when the slot is released, so a slot is given back once.
pub struct MuxedSlotGuard<const N: usize, const BUF: usize> {
    index: u8,
    generation: u8,
}

impl<const N: usize, const BUF: usize> MuxedSlotGuard<N, BUF> {
    #[verifier::type_invariant]
    spec fn in_range(self) -> bool {
        self.index < N
    }

    /// The slot's generation when it was acquired.
    pub closed spec fn slot_generation(&self) -> u8 {
        self.generation
    }

    /// The generation that the slot had when it was acquired.
    pub fn generation(&self) -> (generation: u8)
        ensures
            generation == self.slot_generation(),
    {
        self.generation
    }
}

impl<const N: usize, const BUF: usize> RouterSlotHandle for MuxedSlotGuard<N, BUF> {
    closed spec fn id(&self) -> u8 {
        self.index
    }

    fn slot_id(&self) -> (id: u8)
        ensures
            id < N,
    {
        proof {
            use_type_invariant(self);
        }
        self.index
    }
}

impl<const N: usize, const BUF: usize> ReplyRouter for MuxedSlots<N, BUF> {
    const HEADER_LEN: usize = 1;

    type SlotHandle = MuxedSlotGuard<N, BUF>;

    type Error = core::convert::Infallible;

    open spec fn header_len() -> int {
        1
    }

    proof fn lemma_header_len(id: u8) {
        assert(Self::header(id) == seq![id]);
    }

    open spec fn valid(&self) -> bool {
        self.wf()
    }

    open spec fn slots(&self) -> Seq<SlotState> {
        self@
    }

    open spec fn header(id: u8) -> Seq<u8> {
        seq![id]
    }

    open spec fn addressee(frame: Seq<u8>) -> u8 {
        frame[0]
    }

    open spec fn next_slot(slots: Seq<SlotState>) -> Option<u8> {
        match first_free(slots) {
            Some(i) => Some(i as u8),
            None => None,
        }
    }

    open spec fn after_acquire(slots: Seq<SlotState>, id: u8) -> Seq<SlotState> {
        acquired(slots, id as int)
    }

    open spec fn after_release(slots: Seq<SlotState>, id: u8) -> Seq<SlotState> {
        freed(slots, id as int)
    }

    open spec fn after_delivery(
        slots: Seq<SlotState>,
        id: u8,
        payload: Seq<u8>,
    ) -> Seq<SlotState> {
        delivered(slots, id as int, UNTAGGED, payload, BUF as int)
    }

    fn try_acquire(&mut self) -> (slot: Option<MuxedSlotGuard<N, BUF>>)
        ensures
            slot matches Some(s) ==> s.id() < N && s.slot_generation() == old(self)@[s.id() as int].generation,
            final(self).acquire_waiting() == old(self).acquire_waiting(),
    {
        match self.try_alloc() {
            Some((index, generation)) => Some(MuxedSlotGuard { index, generation }),
            None => None,
        }
    }

    fn poll_acquire(&mut self, waker: &Waker) -> (slot: PollState<
        Result<MuxedSlotGuard<N, BUF>, core::convert::Infallible>,
    >)
        ensures
            slot matches PollState::Ready(Ok(s)) ==> s.id() < N && s.slot_generation() == old(self)@[s.id() as int].generation,
            final(self).acquire_waiting() == (slot is Pending || old(self).acquire_waiting()),
    {
        match self.try_acquire() {
            Some(slot) => PollState::Ready(Ok(slot)),
            None => {
                park_waker(&mut self.alloc_waker, waker);
                assert(self@ =~= old(self)@);
                match self.try_acquire() {
                    Some(slot) => PollState::Ready(Ok(slot)),
                    None => PollState::Pending,
                }
            },
        }
    }

    fn release(&mut self, slot: MuxedSlotGuard<N, BUF>)
        ensures
            !final(self).acquire_waiting(),
    {
        proof {
            use_type_invariant(&slot);
        }
        self.free_slot(slot.index);
    }

    fn write_header(slot: &MuxedSlotGuard<N, BUF>, buf: &mut [u8]) {
        buf[0] = slot.index;
    }

    fn parse_header(buf: &[u8]) -> (id: u8) {
        buf[0]
    }

    fn deliver(&mut self, slot_id: u8, payload: &[u8])
        ensures
            final(self).acquire_waiting() == old(self).acquire_waiting(),
    {
        self.deliver_tagged(slot_id, UNTAGGED, payload);
    }
}

impl<const N: usize, const BUF: usize> MuxedSlots<N, BUF> {
    /// Delivers a reply that carries `tag` to the given slot. It is silently
    /// discarded if nobody owns the slot, or if it belongs to a call with that
    /// tag that was given up.
    pub fn deliver_tagged(&mut self, slot_id: u8, tag: u16, payload: &[u8])
        requires
            old(self).wf(),
        ensures
            final(self).wf(),
            final(self)@ == delivered(old(self)@, slot_id as int, tag, payload@, BUF as int),
            final(self).acquire_waiting() == old(self).acquire_waiting(),
    {
        match self.begin_delivery(slot_id, tag) {
            Some(ticket) => self.finish_delivery(ticket, payload),
            None => {},
        }
    }

    /// One poll of a caller that waits for its reply.
    pub fn poll_reply(&mut self, slot: &MuxedSlotGuard<N, BUF>, waker: &Waker) -> (reply: PollState<
        Vec<u8>,
    >)
        requires
            old(self).wf(),
        ensures
            final(self).wf(),
            final(self).acquire_waiting() == old(self).acquire_waiting(),
            match pending_reply(old(self)@, slot.id() as int) {
                Some(bytes) => {
                    &&& reply matches PollState::Ready(r) && r@ == bytes
                    &&& final(self)@ == old(self)@
                },
                None => {
                    &&& reply is Pending
                    &&& final(self)@ == parked_on(old(self)@, slot.id() as int)
                },
            },
    {
        proof {
            use_type_invariant(slot);
        }
        match self.try_recv_slot(slot.index) {
            Some(bytes) => {
                let mut reply: Vec<u8> = Vec::new();
                reply.extend_from_slice(bytes);
                assert(reply@ =~= bytes@);
                return PollState::Ready(reply);
            },
            None => {},
        }
        let i: usize = slot.index as usize;
        park_waker(&mut self.slots[i].waker, waker);
        assert(self@ =~= parked_on(old(self)@, slot.id() as int));
        PollState::Pending
    }
}

/// The slots after a task parked to wait for the reply in slot `i`.
pub open spec fn parked_on(slots: Seq<SlotState>, i: int) -> Seq<SlotState> {
    slots.update(i, SlotState { waiting: true, ..slots[i] })
}

/// A delivery in progress: the slot and its generation when it began.
#[derive(Clone, Copy)]
pub struct DeliveryTicket {
    pub slot_id: u8,
    pub generation: u8,
}

/// The slots after slot `i` was freed.
pub open spec fn freed(slots: Seq<SlotState>, i: int) -> Seq<SlotState> {
    slots.update(
        i,
        SlotState {
            in_use: false,
            generation: ((slots[i].generation + 1) % 256) as u8,
            reply: Seq::empty(),
            waiting: slots[i].waiting,
            answered: false,
            owed: slots[i].owed,
        },
    )
}

/// One more than `owed`; the highest count stays as it is.
pub open spec fn one_more(owed: u64) -> u64 {
    if owed < u64::MAX {
        (owed + 1) as u64
    } else {
        owed
    }
}

/// How many replies with this tag are still to come.
pub open spec fn owed_count(owed: Map<u16, u64>, tag: u16) -> u64 {
    if owed.contains_key(tag) {
        owed[tag]
    } else {
        0
    }
}

/// The slots after the owner of slot `i` gave up a call whose request is on
/// its way and whose reply will carry `tag`: the slot is free, and the reply is
/// still to come unless it has already been delivered.
pub open spec fn abandoned(slots: Seq<SlotState>, i: int, tag: u16) -> Seq<SlotState> {
    let after = freed(slots, i);
    let owed = slots[i].owed;
    if slots[i].answered {
        after
    } else {
        after.update(
            i,
            SlotState { owed: owed.insert(tag, one_more(owed_count(owed, tag))), ..after[i] },
        )
    }
}

/// Whether the next reply for slot `i` that carries `tag` belongs to a call
/// that was given up.
pub open spec fn owes(slots: Seq<SlotState>, i: int, tag: u16) -> bool {
    0 <= i < slots.len() && owed_count(slots[i].owed, tag) > 0
}

/// The slots after a reply for slot `i` that carries `tag` came for a call that
/// was given up.
pub open spec fn settled(slots: Seq<SlotState>, i: int, tag: u16) -> Seq<SlotState> {
    let owed = slots[i].owed;
    slots.update(
        i,
        SlotState { owed: owed.insert(tag, (owed_count(owed, tag) - 1) as u64), ..slots[i] },
    )
}

/// The ticket for a delivery to the owner of slot `i` that begins now.
pub open spec fn delivery_ticket(slots: Seq<SlotState>, i: int) -> Option<DeliveryTicket> {
    if 0 <= i < slots.len() && slots[i].in_use {
        Some(DeliveryTicket { slot_id: i as u8, generation: slots[i].generation })
    } else {
        None
    }
}

/// The first `limit` bytes of `payload`, or all of it if it is shorter.
pub open spec fn cut_off(payload: Seq<u8>, limit: int) -> Seq<u8> {
    if payload.len() <= limit {
        payload
    } else {
        payload.subrange(0, limit)
    }
}

/// The slots after a delivery was completed.
pub open spec fn completed(
    slots: Seq<SlotState>,
    ticket: DeliveryTicket,
    payload: Seq<u8>,
    limit: int,
) -> Seq<SlotState> {
    let i = ticket.slot_id as int;
    if i < slots.len() && slots[i].in_use && slots[i].generation == ticket.generation {
        slots.update(
            i,
            SlotState {
                reply: cut_off(payload, limit),
                waiting: false,
                answered: true,
                ..slots[i]
            },
        )
    } else {
        slots
    }
}

/// The slots after `payload` was delivered to slot `i` with `tag`. A reply that
/// belongs to a call with that tag that was given up is discarded.
pub open spec fn delivered(
    slots: Seq<SlotState>,
    i: int,
    tag: u16,
    payload: Seq<u8>,
    limit: int,
) -> Seq<SlotState> {
    if owes(slots, i, tag) {
        settled(slots, i, tag)
    } else {
        match delivery_ticket(slots, i) {
            Some(ticket) => completed(slots, ticket, payload, limit),
            None => slots,
        }
    }
}

/// The reply that a caller finds in slot `i`.
pub open spec fn pending_reply(slots: Seq<SlotState>, i: int) -> Option<Seq<u8>> {
    if 0 <= i < slots.len() && slots[i].reply.len() > 0 {
        Some(slots[i].reply)
    } else {
        None
    }
}

/// The lowest index of a slot that is not in use.
pub open spec fn first_free(slots: Seq<SlotState>) -> Option<int> {
    if exists|i: int| is_first_free(slots, i) {
        Some(choose|i: int| is_first_free(slots, i))
    } else {
        None
    }
}

/// Slot `i` is free and every slot below it is in use.
pub open spec fn is_first_free(slots: Seq<SlotState>, i: int) -> bool {
    &&& 0 <= i < slots.len()
    &&& !slots[i].in_use
    &&& forall|j: int| 0 <= j < i ==> (#[trigger] slots[j]).in_use
}

/// The slots after slot `i` was acquired.
pub open spec fn acquired(slots: Seq<SlotState>, i: int) -> Seq<SlotState> {
    slots.update(i, slots[i].with_use(true))
}

proof fn lemma_first_free_none(slots: Seq<SlotState>)
    requires
        forall|j: int| 0 <= j < slots.len() ==> (#[trigger] slots[j]).in_use,
    ensures
        first_free(slots) is None,
{
}

proof fn lemma_first_free_some(slots: Seq<SlotState>, i: int)
    requires
        is_first_free(slots, i),
    ensures
        first_free(slots) == Some(i),
{
    let k = choose|k: int| is_first_free(slots, k);
    assert(is_first_free(slots, k));
    if k < i {
        assert(slots[k].in_use);
    } else if i < k {
        assert(slots[i].in_use);
    }
}

impl<const N: usize, const BUF: usize> MuxedSlots<N, BUF> {
    /// Whether no slot is in use.
    pub fn is_idle(&self) -> (idle: bool)
        requires
            self.wf(),
        ensures
            idle == forall|i: int| 0 <= i < self@.len() ==> !(#[trigger] self@[i]).in_use,
    {
        proof {
            if self.bitmap == 0 {
                assert forall|i: int| 0 <= i < self@.len() implies !(#[trigger] self@[i]).in_use by {
                    lemma_bit_zero(i as u32);
                }
            } else {
                vstd::std_specs::bits::axiom_u32_trailing_zeros(self.bitmap);
                let i = vstd::std_specs::bits::u32_trailing_zeros(self.bitmap) as int;
                assert(bit_set(self.bitmap, i));
                assert(self@[i].in_use);
            }
        }
        self.bitmap == 0
    }

    /// The current generation of slot `slot_id`.
    pub fn generation_of(&self, slot_id: u8) -> (generation: u8)
        requires
            self.wf(),
            slot_id < N,
        ensures
            generation == self@[slot_id as int].generation,
    {
        self.slots[slot_id as usize].generation
    }
}

/// Names the slot that a request came from, so that the reply can be tagged
/// with the same slot.
#[derive(Debug, Clone, Copy)]
pub struct MuxedReplyToken {
    slot_id: u8,
}

impl MuxedReplyToken {
    /// The slot that the token names.
    pub closed spec fn id(&self) -> u8 {
        self.slot_id
    }

    /// A token for the given slot.
    pub fn new(slot_id: u8) -> (token: Self)
        ensures
            token.id() == slot_id,
    {
        MuxedReplyToken { slot_id }
    }

    /// The slot id to put in front of the reply.
    pub fn slot_id(&self) -> (id: u8)
        ensures
            id == self.id(),
    {
        self.slot_id
    }
}

/// Router with eight slots.
pub type MuxedSlots8<const BUF: usize> = MuxedSlots<8, BUF>;

/// Router with four slots.
pub type MuxedSlots4<const BUF: usize> = MuxedSlots<4, BUF>;

/// What holds of the slots of every valid router: a reply fits its buffer,
/// and a slot that nobody owns holds none and is not answered.
pub open spec fn slots_valid(slots: Seq<SlotState>, limit: int) -> bool {
    &&& forall|i: int| 0 <= i < slots.len() ==> (#[trigger] slots[i]).reply.len() <= limit
    &&& forall|i: int|
        0 <= i < slots.len() && !(#[trigger] slots[i]).in_use ==> slots[i].reply.len() == 0
            && !slots[i].answered
}

/// Every operation on the slots keeps them valid.
pub proof fn law_operations_keep_slots_valid(
    slots: Seq<SlotState>,
    i: int,
    tag: u16,
    payload: Seq<u8>,
    limit: int,
)
    requires
        slots_valid(slots, limit),
        0 <= i < slots.len(),
        limit >= 0,
    ensures
        slots_valid(acquired(slots, i), limit),
        slots_valid(freed(slots, i), limit),
        slots_valid(abandoned(slots, i, tag), limit),
        slots_valid(delivered(slots, i, tag, payload, limit), limit),
        slots_valid(parked_on(slots, i), limit),
{
}

/// A slot that is in use is never handed out again before it is released.
pub proof fn law_slots_are_exclusive(slots: Seq<SlotState>, i: int)
    requires
        0 <= i < slots.len(),
        slots[i].in_use,
    ensures
        first_free(slots) != Some(i),
{
    if first_free(slots) == Some(i) {
        let k = choose|k: int| is_first_free(slots, k);
        assert(is_first_free(slots, k));
    }
}

/// An acquisition succeeds exactly when some slot is free, and then takes the
/// free slot with the lowest index.
pub proof fn law_acquisition_takes_lowest_free_slot(slots: Seq<SlotState>, i: int)
    ensures
        first_free(slots) == Some(i) <==> is_first_free(slots, i),
        first_free(slots) is None <==> forall|j: int|
            0 <= j < slots.len() ==> (#[trigger] slots[j]).in_use,
{
    if is_first_free(slots, i) {
        lemma_first_free_some(slots, i);
    }
    if first_free(slots) == Some(i) {
        let k = choose|k: int| is_first_free(slots, k);
        assert(is_first_free(slots, k));
    }
    if exists|j: int| 0 <= j < slots.len() && !(#[trigger] slots[j]).in_use {
        let j = choose|j: int| 0 <= j < slots.len() && !(#[trigger] slots[j]).in_use;
        lemma_lowest_free(slots, j);
    }
}

proof fn lemma_lowest_free(slots: Seq<SlotState>, j: int)
    requires
        0 <= j < slots.len(),
        !slots[j].in_use,
    ensures
        exists|i: int| is_first_free(slots, i),
    decreases j,
{
    if exists|k: int| 0 <= k < j && !(#[trigger] slots[k]).in_use {
        let k = choose|k: int| 0 <= k < j && !(#[trigger] slots[k]).in_use;
        lemma_lowest_free(slots, k);
    } else {
        assert(is_first_free(slots, j));
    }
}

/// The slots after `count` successive acquisitions.
pub open spec fn acquired_times(slots: Seq<SlotState>, count: nat) -> Seq<SlotState>
    decreases count,
{
    if count == 0 {
        slots
    } else {
        let before = acquired_times(slots, (count - 1) as nat);
        match first_free(before) {
            Some(i) => acquired(before, i),
            None => before,
        }
    }
}

/// A router whose slots are all free hands out the slots `0, 1, 2, ...` in
/// that order, each once, and then none until one is released.
pub proof fn law_all_slots_can_be_acquired(slots: Seq<SlotState>, count: nat)
    requires
        forall|i: int| 0 <= i < slots.len() ==> !(#[trigger] slots[i]).in_use,
        count <= slots.len(),
    ensures
        acquired_times(slots, count).len() == slots.len(),
        forall|i: int|
            0 <= i < slots.len() ==> (#[trigger] acquired_times(slots, count)[i]).in_use == (i
                < count),
        first_free(acquired_times(slots, count)) == if count < slots.len() {
            Some(count as int)
        } else {
            None
        },
    decreases count,
{
    if count > 0 {
        law_all_slots_can_be_acquired(slots, (count - 1) as nat);
    }
    let now = acquired_times(slots, count);
    assert forall|i: int| 0 <= i < slots.len() implies (#[trigger] now[i]).in_use == (i < count) by {
        if count > 0 {
            let before = acquired_times(slots, (count - 1) as nat);
            assert(before[i].in_use == (i < count - 1));
        }
    }
    if count < slots.len() {
        assert(is_first_free(now, count as int));
        lemma_first_free_some(now, count as int);
    } else {
        lemma_first_free_none(now);
    }
}

/// Releasing a slot undoes its acquisition; only the generation advances.
pub proof fn law_release_undoes_acquire(slots: Seq<SlotState>, i: int, limit: int)
    requires
        slots_valid(slots, limit),
        0 <= i < slots.len(),
        !slots[i].in_use,
    ensures
        freed(acquired(slots, i), i) == slots.update(
            i,
            SlotState { generation: ((slots[i].generation + 1) % 256) as u8, ..slots[i] },
        ),
{
    assert(slots[i].reply =~= Seq::empty());
    assert(freed(acquired(slots, i), i) =~= slots.update(
        i,
        SlotState { generation: ((slots[i].generation + 1) % 256) as u8, ..slots[i] },
    ));
}

/// When all slots are in use, the slot that is released next is the one that
/// the next acquisition takes.
pub proof fn law_released_slot_is_reused(slots: Seq<SlotState>, i: int)
    requires
        0 <= i < slots.len(),
        forall|j: int| 0 <= j < slots.len() ==> (#[trigger] slots[j]).in_use,
    ensures
        first_free(freed(slots, i)) == Some(i),
{
    assert(is_first_free(freed(slots, i), i));
    lemma_first_free_some(freed(slots, i), i);
}

/// A reply for a slot that was released is discarded: it reaches nobody, and
/// only the count of replies that are still to come may change.
pub proof fn law_delivery_to_released_slot_is_discarded(
    slots: Seq<SlotState>,
    i: int,
    tag: u16,
    payload: Seq<u8>,
    limit: int,
)
    requires
        0 <= i < slots.len(),
    ensures
        delivered(freed(slots, i), i, tag, payload, limit) == if owes(slots, i, tag) {
            settled(freed(slots, i), i, tag)
        } else {
            freed(slots, i)
        },
{
}

/// The slots after `replies` were delivered to slot `i` with `tag`, one after
/// the other.
pub open spec fn all_delivered(
    slots: Seq<SlotState>,
    i: int,
    tag: u16,
    replies: Seq<Seq<u8>>,
    limit: int,
) -> Seq<SlotState>
    decreases replies.len(),
{
    if replies.len() == 0 {
        slots
    } else {
        delivered(
            all_delivered(slots, i, tag, replies.drop_last(), limit),
            i,
            tag,
            replies.last(),
            limit,
        )
    }
}

/// The replies that are owed to calls that were given up are all discarded:
/// after them, the slot is as it was but for their count.
pub proof fn law_owed_replies_are_discarded(
    slots: Seq<SlotState>,
    i: int,
    tag: u16,
    late: Seq<Seq<u8>>,
    limit: int,
)
    requires
        0 <= i < slots.len(),
        late.len() <= owed_count(slots[i].owed, tag),
    ensures
        ({
            let after = all_delivered(slots, i, tag, late, limit);
            &&& after.len() == slots.len()
            &&& forall|j: int| 0 <= j < slots.len() && j != i ==> after[j] == slots[j]
            &&& after[i] == (SlotState { owed: after[i].owed, ..slots[i] })
            &&& owed_count(after[i].owed, tag) == owed_count(slots[i].owed, tag) - late.len()
            &&& forall|other: u16|
                other != tag ==> owed_count(after[i].owed, other) == owed_count(
                    slots[i].owed,
                    other,
                )
        }),
    decreases late.len(),
{
    if late.len() > 0 {
        law_owed_replies_are_discarded(slots, i, tag, late.drop_last(), limit);
    }
}

/// A call that takes the slot of a call that was given up finds its own reply
/// there and not a late one: however many calls with its tag were given up
/// before in this slot, their replies are discarded if they come first, and the
/// next reply is the new owner's.
pub proof fn law_new_owner_gets_its_own_reply(
    slots: Seq<SlotState>,
    i: int,
    tag: u16,
    late: Seq<Seq<u8>>,
    own: Seq<u8>,
    limit: int,
)
    requires
        slots_valid(slots, limit),
        0 <= i < slots.len(),
        i < 256,
        slots[i].in_use,
        !slots[i].answered,
        owed_count(slots[i].owed, tag) < u64::MAX,
        late.len() == owed_count(slots[i].owed, tag) + 1,
        0 < own.len() <= limit,
    ensures
        ({
            let taken_over = acquired(abandoned(slots, i, tag), i);
            let after_late = all_delivered(taken_over, i, tag, late, limit);
            &&& forall|n: int|
                0 <= n <= late.len() ==> pending_reply(
                    #[trigger] all_delivered(taken_over, i, tag, late.take(n), limit),
                    i,
                ) is None
            &&& pending_reply(delivered(after_late, i, tag, own, limit), i) == Some(own)
        }),
{
    let taken_over = acquired(abandoned(slots, i, tag), i);
    law_owed_replies_are_discarded(taken_over, i, tag, late, limit);
    assert forall|n: int| 0 <= n <= late.len() implies pending_reply(
        #[trigger] all_delivered(taken_over, i, tag, late.take(n), limit),
        i,
    ) is None by {
        law_owed_replies_are_discarded(taken_over, i, tag, late.take(n), limit);
    }
}

/// A call whose replies carry another tag than those of the call that was given
/// up in its slot is not touched by it: it finds its own reply whether the late
/// one comes before it, after it or never.
pub proof fn law_other_tags_are_told_apart(
    slots: Seq<SlotState>,
    i: int,
    given_up: u16,
    tag: u16,
    late: Seq<u8>,
    own: Seq<u8>,
    limit: int,
)
    requires
        slots_valid(slots, limit),
        0 <= i < slots.len(),
        i < 256,
        slots[i].in_use,
        !slots[i].answered,
        given_up != tag,
        owed_count(slots[i].owed, tag) == 0,
        0 < own.len() <= limit,
    ensures
        ({
            let taken_over = acquired(abandoned(slots, i, given_up), i);
            let late_first = delivered(taken_over, i, given_up, late, limit);
            let own_first = delivered(taken_over, i, tag, own, limit);
            &&& pending_reply(late_first, i) is None
            &&& pending_reply(delivered(late_first, i, tag, own, limit), i) == Some(own)
            &&& pending_reply(own_first, i) == Some(own)
            &&& pending_reply(delivered(own_first, i, given_up, late, limit), i) == Some(own)
        }),
{
}

/// The slots after slot `i` was released and acquired again `times` times.
pub open spec fn recycled(slots: Seq<SlotState>, i: int, times: nat) -> Seq<SlotState>
    decreases times,
{
    if times == 0 {
        slots
    } else {
        acquired(freed(recycled(slots, i, (times - 1) as nat), i), i)
    }
}

/// A delivery that began before its slot was released and acquired again does
/// not reach the new owner. The generation counter has 256 values, so this
/// holds of up to 255 releases.
pub proof fn law_stale_delivery_is_discarded(
    slots: Seq<SlotState>,
    i: int,
    times: nat,
    payload: Seq<u8>,
    limit: int,
)
    requires
        0 <= i < slots.len(),
        i < 256,
        slots[i].in_use,
        1 <= times <= 255,
    ensures
        delivery_ticket(slots, i) matches Some(ticket) && completed(
            recycled(slots, i, times),
            ticket,
            payload,
            limit,
        ) == recycled(slots, i, times),
{
    lemma_recycled(slots, i, times);
}

proof fn lemma_recycled(slots: Seq<SlotState>, i: int, times: nat)
    requires
        0 <= i < slots.len(),
    ensures
        recycled(slots, i, times).len() == slots.len(),
        recycled(slots, i, times)[i].generation == (slots[i].generation + times) % 256,
    decreases times,
{
    if times > 0 {
        lemma_recycled(slots, i, (times - 1) as nat);
    }
}

/// What is delivered is what is received: the owner of a slot finds the
/// payload, in full if it fits the buffer, unless it is a late reply that is
/// owed to a call that was given up. Only an empty payload goes unnoticed.
pub proof fn law_received_is_delivered(
    slots: Seq<SlotState>,
    i: int,
    tag: u16,
    payload: Seq<u8>,
    limit: int,
)
    requires
        0 <= i < slots.len(),
        i < 256,
        slots[i].in_use,
        !owes(slots, i, tag),
        payload.len() > 0,
        limit > 0,
    ensures
        pending_reply(delivered(slots, i, tag, payload, limit), i) == Some(
            cut_off(payload, limit),
        ),
        payload.len() <= limit ==> pending_reply(delivered(slots, i, tag, payload, limit), i)
            == Some(payload),
{
}

/// A delivery touches no slot but the one that it is addressed to.
pub proof fn law_delivery_leaves_other_slots(
    slots: Seq<SlotState>,
    i: int,
    j: int,
    tag: u16,
    payload: Seq<u8>,
    limit: int,
)
    requires
        0 <= j < slots.len(),
        i != j,
        0 <= i < 256,
    ensures
        delivered(slots, i, tag, payload, limit).len() == slots.len(),
        delivered(slots, i, tag, payload, limit)[j] == slots[j],
{
}

/// The new owner of a slot finds no reply that was meant for an earlier one.
pub proof fn law_acquired_slot_is_empty(slots: Seq<SlotState>, i: int, limit: int)
    requires
        slots_valid(slots, limit),
        first_free(slots) == Some(i),
    ensures
        pending_reply(acquired(slots, i), i) is None,
{
    law_acquisition_takes_lowest_free_slot(slots, i);
}

/// A frame that starts with a slot's routing byte is addressed to that slot.
pub proof fn law_header_names_its_slot<const N: usize, const BUF: usize>(id: u8, rest: Seq<u8>)
    ensures
        <MuxedSlots<N, BUF> as ReplyRouter>::addressee(
            <MuxedSlots<N, BUF> as ReplyRouter>::header(id) + rest,
        ) == id,
{
}

/// No operation on a slot touches another one.
pub proof fn law_operations_keep_to_their_slot(slots: Seq<SlotState>, i: int, j: int, tag: u16)
    requires
        0 <= i < slots.len(),
        0 <= j < slots.len(),
        i != j,
    ensures
        acquired(slots, i).len() == slots.len() && acquired(slots, i)[j] == slots[j],
        freed(slots, i).len() == slots.len() && freed(slots, i)[j] == slots[j],
        abandoned(slots, i, tag).len() == slots.len() && abandoned(slots, i, tag)[j] == slots[j],
        parked_on(slots, i).len() == slots.len() && parked_on(slots, i)[j] == slots[j],
        settled(slots, i, tag).len() == slots.len() && settled(slots, i, tag)[j] == slots[j],
{
}

/// A slot that is released is free and holds nothing of the call: neither its
/// reply nor that it was answered. Its generation is another one, and what it
/// owes to calls that were given up stays.
pub proof fn law_released_slot_forgets_its_call(slots: Seq<SlotState>, i: int)
    requires
        0 <= i < slots.len(),
    ensures
        !freed(slots, i)[i].in_use,
        freed(slots, i)[i].reply.len() == 0,
        !freed(slots, i)[i].answered,
        freed(slots, i)[i].generation != slots[i].generation,
        freed(slots, i)[i].owed == slots[i].owed,
        pending_reply(freed(slots, i), i) is None,
{
}

/// A slot that is acquired is in use, and is otherwise as it was.
pub proof fn law_acquisition_only_marks_the_slot(slots: Seq<SlotState>, i: int)
    requires
        0 <= i < slots.len(),
    ensures
        acquired(slots, i)[i].in_use,
        acquired(slots, i)[i].generation == slots[i].generation,
        acquired(slots, i)[i].reply == slots[i].reply,
        acquired(slots, i)[i].waiting == slots[i].waiting,
        acquired(slots, i)[i].answered == slots[i].answered,
        acquired(slots, i)[i].owed == slots[i].owed,
{
}

/// A call that is given up before it was answered leaves its slot free, with one
/// more reply with its tag to discard; one that was answered leaves none. Replies
/// with other tags are not concerned.
pub proof fn law_given_up_call_owes_its_reply(slots: Seq<SlotState>, i: int, tag: u16, other: u16)
    requires
        0 <= i < slots.len(),
        other != tag,
    ensures
        !abandoned(slots, i, tag)[i].in_use,
        abandoned(slots, i, tag)[i].reply.len() == 0,
        abandoned(slots, i, tag)[i].generation == freed(slots, i)[i].generation,
        owed_count(abandoned(slots, i, tag)[i].owed, other) == owed_count(slots[i].owed, other),
        slots[i].answered ==> owed_count(abandoned(slots, i, tag)[i].owed, tag) == owed_count(
            slots[i].owed,
            tag,
        ),
        !slots[i].answered && owed_count(slots[i].owed, tag) < u64::MAX ==> owed_count(
            abandoned(slots, i, tag)[i].owed,
            tag,
        ) == owed_count(slots[i].owed, tag) + 1,
{
}

/// A delivery wakes the owner of its slot and marks the call as answered; the
/// owner keeps the slot.
pub proof fn law_delivery_wakes_the_owner(
    slots: Seq<SlotState>,
    i: int,
    tag: u16,
    payload: Seq<u8>,
    limit: int,
)
    requires
        0 <= i < slots.len(),
        i < 256,
        slots[i].in_use,
        !owes(slots, i, tag),
    ensures
        ({
            let after = delivered(slots, i, tag, payload, limit)[i];
            &&& !after.waiting
            &&& after.answered
            &&& after.in_use
            &&& after.generation == slots[i].generation
            &&& after.owed == slots[i].owed
        }),
{
}

/// A reply that nobody waits for and that is owed to nobody changes nothing.
pub proof fn law_reply_without_owner_changes_nothing(
    slots: Seq<SlotState>,
    i: int,
    tag: u16,
    payload: Seq<u8>,
    limit: int,
)
    requires
        0 <= i < 256,
        i < slots.len() ==> !slots[i].in_use && !owes(slots, i, tag),
    ensures
        delivered(slots, i, tag, payload, limit) == slots,
{
}

/// A reply that is longer than the buffer is cut off at its end: what is kept is
/// the start of it, as much as the buffer holds.
pub proof fn law_long_reply_keeps_its_start(payload: Seq<u8>, limit: int)
    requires
        limit >= 0,
    ensures
        cut_off(payload, limit).len() == if payload.len() <= limit {
            payload.len() as int
        } else {
            limit
        },
        forall|k: int|
            0 <= k < cut_off(payload, limit).len() ==> #[trigger] cut_off(payload, limit)[k]
                == payload[k],
{
}

/// A caller that finds no reply is parked on its slot and on no other one, and
/// keeps it; a later delivery to the slot is what it then finds.
pub proof fn law_parked_caller_finds_its_reply(
    slots: Seq<SlotState>,
    i: int,
    tag: u16,
    payload: Seq<u8>,
    limit: int,
)
    requires
        0 <= i < slots.len(),
        i < 256,
        slots[i].in_use,
        !owes(slots, i, tag),
        0 < payload.len() <= limit,
    ensures
        parked_on(slots, i)[i].waiting,
        parked_on(slots, i)[i].in_use,
        pending_reply(parked_on(slots, i), i) == pending_reply(slots, i),
        pending_reply(delivered(parked_on(slots, i), i, tag, payload, limit), i) == Some(payload),
{
}

} // verus!
