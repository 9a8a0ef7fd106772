//! Reply slots of the in-process transport over embassy channels.
//!
//! Every caller takes one of a fixed number of reply slots for the time of
//! its call; the slot's index travels with the request.

use vstd::prelude::*;

use crate::error::ErrorText;

verus! {

/// Errors of the in-process transport.
#[derive(Debug)]
pub enum EmbassyLocalError {
    /// All reply slots are in use.
    NoReplySlot,
}

impl ErrorText for EmbassyLocalError {
    open spec fn text(&self) -> Seq<char> {
        "no reply slot available"@
    }

    fn to_text(&self) -> (text: String) {
        "no reply slot available".to_owned()
    }
}

/// Names the call that a request belongs to: its reply slot, and the slot's
/// generation when the call began.
#[derive(Clone, Copy, PartialEq, Eq, Structural, Debug)]
pub struct EmbassyReplyToken(pub u8, pub u64);

/// Bit `i` of `mask`.
pub open spec fn slot_free(mask: u8, i: int) -> bool {
    (mask >> (i as u8)) & 1u8 == 1u8
}

/// What a pool of reply slots holds.
#[verifier::ext_equal]
pub struct PoolState {
    /// The slots that are free.
    pub free: Set<int>,
    /// How often each slot has been released, modulo 2^64.
    pub generations: Seq<u64>,
}

/// Slot `i` is free and every slot below it is taken.
pub open spec fn is_lowest(pool: PoolState, i: int) -> bool {
    pool.free.contains(i) && forall|j: int| 0 <= j < i ==> !pool.free.contains(j)
}

/// The pool after slot `i` was taken.
pub open spec fn taken(pool: PoolState, i: int) -> PoolState {
    PoolState { free: pool.free.remove(i), ..pool }
}

/// The pool after slot `i` was released.
pub open spec fn released(pool: PoolState, i: int) -> PoolState {
    PoolState {
        free: pool.free.insert(i),
        generations: pool.generations.update(
            i,
            ((pool.generations[i] + 1) % 0x1_0000_0000_0000_0000) as u64,
        ),
    }
}

/// Whether the call that `token` names is still in progress.
pub open spec fn current(pool: PoolState, token: EmbassyReplyToken) -> bool {
    &&& 0 <= token.0 < pool.generations.len()
    &&& !pool.free.contains(token.0 as int)
    &&& pool.generations[token.0 as int] == token.1
}

/// The pool after the call that `token` names ended, finished or cancelled.
pub open spec fn ended(pool: PoolState, token: EmbassyReplyToken) -> PoolState {
    if current(pool, token) {
        released(pool, token.0 as int)
    } else {
        pool
    }
}

/// The pool of reply slots: up to eight callers at a time.
pub struct ReplySlots<const MAX_CALLERS: usize> {
    /// Bit `i` is set while slot `i` is free.
    free_slots: u8,
    generations: Vec<u64>,
}

impl<const MAX_CALLERS: usize> View for ReplySlots<MAX_CALLERS> {
    type V = PoolState;

    closed spec fn view(&self) -> PoolState {
        PoolState {
            free: Set::new(|i: int| 0 <= i < 8 && slot_free(self.free_slots, i)),
            generations: self.generations@,
        }
    }
}

impl<const MAX_CALLERS: usize> ReplySlots<MAX_CALLERS> {
    /// Validity: every slot has a generation, and no slot beyond the last one
    /// is ever free.
    pub open spec fn wf(&self) -> bool {
        &&& MAX_CALLERS <= 8
        &&& self@.generations.len() == MAX_CALLERS
        &&& forall|i: int| #[trigger] self@.free.contains(i) ==> 0 <= i < MAX_CALLERS
    }

    /// A pool with all slots free.
    pub fn new() -> (slots: Self)
        requires
            MAX_CALLERS <= 8,
        ensures
            slots.wf(),
            slots@.free == Set::new(|i: int| 0 <= i < MAX_CALLERS),
            slots@.generations == Seq::new(MAX_CALLERS as nat, |i: int| 0u64),
    {
        let free_slots: u8 = if MAX_CALLERS == 8 {
            proof {
                assert forall|i: int| 0 <= i < 8 implies slot_free(u8::MAX, i) by {
                    let j = i as u8;
                    assert((0xffu8 >> j) & 1u8 == 1u8) by (bit_vector)
                        requires
                            j < 8,
                    ;
                }
            }
            u8::MAX
        } else {
            let n: u8 = MAX_CALLERS as u8;
            assert(1u8 << n >= 1u8) by (bit_vector)
                requires
                    n < 8,
            ;
            let mask: u8 = (1u8 << n) - 1;
            proof {
                assert forall|i: int| 0 <= i < 8 implies #[trigger] slot_free(mask, i) == (i < n) by {
                    let j = i as u8;
                    assert(((((1u8 << n) - 1) as u8 >> j) & 1u8 == 1u8) <==> j < n) by (bit_vector)
                        requires
                            n < 8,
                            j < 8,
                    ;
                }
            }
            mask
        };
        let generations: Vec<u64> = vec![0u64; MAX_CALLERS];
        let slots = ReplySlots { free_slots, generations };
        assert(slots@.free =~= Set::new(|i: int| 0 <= i < MAX_CALLERS));
        assert(slots@.generations =~= Seq::new(MAX_CALLERS as nat, |i: int| 0u64));
        slots
    }

    /// Takes the free slot with the lowest index.
    pub fn acquire_slot(&mut self) -> (slot: Option<u8>)
        requires
            old(self).wf(),
        ensures
            final(self).wf(),
            match slot {
                Some(i) => is_lowest(old(self)@, i as int) && final(self)@ == taken(
                    old(self)@,
                    i as int,
                ),
                None => old(self)@.free == Set::<int>::empty() && final(self)@ == old(self)@,
            },
    {
        let free: u8 = self.free_slots;
        proof {
            vstd::std_specs::bits::axiom_u8_trailing_zeros(free);
        }
        if free == 0 {
            proof {
                assert forall|i: int| 0 <= i < 8 implies !slot_free(0u8, i) by {
                    let j = i as u8;
                    assert((0u8 >> j) & 1u8 == 0u8) by (bit_vector);
                }
                assert(self@.free =~= Set::<int>::empty());
            }
            return None;
        }
        let slot: u8 = free.trailing_zeros() as u8;
        proof {
            assert(slot_free(free, slot as int));
            assert forall|j: int| 0 <= j < slot implies !self@.free.contains(j) by {
                let k = j as u8;
                assert((free >> k) & 1u8 == 0u8);
            }
        }
        self.free_slots = free & !(1u8 << slot);
        proof {
            let now = self.free_slots;
            assert forall|i: int| 0 <= i < 8 implies #[trigger] slot_free(now, i) == (i != slot
                && slot_free(free, i)) by {
                let j = i as u8;
                assert((((free & !(1u8 << slot)) >> j) & 1u8 == 1u8) <==> (j != slot && (free >> j)
                    & 1u8 == 1u8)) by (bit_vector)
                    requires
                        slot < 8,
                        j < 8,
                ;
            }
            assert(self@.free =~= old(self)@.free.remove(slot as int));
        }
        Some(slot)
    }

    /// Takes a slot for a call, or reports that there is none.
    pub fn begin_call(&mut self) -> (token: Result<EmbassyReplyToken, EmbassyLocalError>)
        requires
            old(self).wf(),
        ensures
            final(self).wf(),
            match token {
                Ok(t) => {
                    &&& is_lowest(old(self)@, t.0 as int)
                    &&& t.1 == old(self)@.generations[t.0 as int]
                    &&& final(self)@ == taken(old(self)@, t.0 as int)
                },
                Err(e) => {
                    &&& e == EmbassyLocalError::NoReplySlot
                    &&& old(self)@.free == Set::<int>::empty()
                    &&& final(self)@ == old(self)@
                },
            },
    {
        match self.acquire_slot() {
            Some(slot) => {
                assert(old(self)@.free.contains(slot as int));
                Ok(EmbassyReplyToken(slot, self.generations[slot as usize]))
            },
            None => Err(EmbassyLocalError::NoReplySlot),
        }
    }

    /// Whether the call that `token` names is still in progress, so that its
    /// reply is awaited. A reply to any other call is to be discarded.
    pub fn accepts(&self, token: EmbassyReplyToken) -> (awaited: bool)
        requires
            self.wf(),
        ensures
            awaited == current(self@, token),
    {
        if token.0 as usize >= MAX_CALLERS {
            return false;
        }
        let slot: u8 = token.0;
        let free: u8 = self.free_slots;
        assert((free & (1u8 << slot) == 0u8) <==> ((free >> slot) & 1u8 != 1u8)) by (bit_vector)
            requires
                slot < 8,
        ;
        free & (1u8 << slot) == 0 && self.generations[slot as usize] == token.1
    }

    /// Ends the call that `token` names, finished or cancelled: its slot is
    /// free again, and a reply that comes later is not accepted.
    pub fn end_call(&mut self, token: EmbassyReplyToken)
        requires
            old(self).wf(),
        ensures
            final(self).wf(),
            final(self)@ == ended(old(self)@, token),
    {
        if self.accepts(token) {
            self.release_slot(token.0);
        }
    }

    /// Gives a slot back.
    pub fn release_slot(&mut self, slot: u8)
        requires
            old(self).wf(),
            slot < MAX_CALLERS,
        ensures
            final(self).wf(),
            final(self)@ == released(old(self)@, slot as int),
    {
        let before: u8 = self.free_slots;
        self.free_slots = before | (1u8 << slot);
        let generation: u64 = self.generations[slot as usize].wrapping_add(1);
        self.generations.set(slot as usize, generation);
        proof {
            let now = self.free_slots;
            assert forall|i: int| 0 <= i < 8 implies #[trigger] slot_free(now, i) == (i == slot
                || slot_free(before, i)) by {
                let j = i as u8;
                assert((((before | (1u8 << slot)) >> j) & 1u8 == 1u8) <==> (j == slot || (before
                    >> j) & 1u8 == 1u8)) by (bit_vector)
                    requires
                        slot < 8,
                        j < 8,
                ;
            }
            assert(self@.free =~= old(self)@.free.insert(slot as int));
        }
    }
}

/// Guards the replies of a client that has one signal for all its calls: only the
/// reply to the call that began last is let through.
pub struct ReplyGate {
    latest: u64,
}

impl View for ReplyGate {
    type V = u64;

    /// The ticket of the call that began last.
    closed spec fn view(&self) -> u64 {
        self.latest
    }
}

impl ReplyGate {
    /// A gate for a client that has not called.
    pub fn new() -> (gate: Self)
        ensures
            gate@ == 0,
    {
        ReplyGate { latest: 0 }
    }

    /// Begins a call and returns its ticket, which differs from that of the
    /// call before.
    pub fn begin_call(&mut self) -> (ticket: u64)
        ensures
            ticket == final(self)@,
            final(self)@ == (old(self)@ + 1) % 0x1_0000_0000_0000_0000,
    {
        self.latest = self.latest.wrapping_add(1);
        self.latest
    }

    /// Whether the reply to the call with this ticket is let through.
    pub fn admits(&self, ticket: u64) -> (admitted: bool)
        ensures
            admitted == (ticket == self@),
    {
        self.latest == ticket
    }
}

/// Releasing the slot that was acquired makes the same slots free again.
pub proof fn law_release_undoes_acquire(pool: PoolState, slot: int)
    requires
        pool.free.contains(slot),
    ensures
        released(taken(pool, slot), slot).free == pool.free,
{
    assert(pool.free.remove(slot).insert(slot) =~= pool.free);
}

/// A call that ends, finished or cancelled, leaks no reply slot: the slots that
/// were free before it are free again, so the next call finds one.
pub proof fn law_cancelled_call_leaks_no_slot(pool: PoolState, slot: u8)
    requires
        is_lowest(pool, slot as int),
        slot < pool.generations.len(),
    ensures
        ({
            let token = EmbassyReplyToken(slot, pool.generations[slot as int]);
            let after = ended(taken(pool, slot as int), token);
            &&& after.free == pool.free
            &&& is_lowest(after, slot as int)
            &&& !current(after, token)
        }),
{
    law_release_undoes_acquire(pool, slot as int);
}

/// The pool after slot `i` was released and taken again `times` times.
pub open spec fn reused(pool: PoolState, i: int, times: nat) -> PoolState
    decreases times,
{
    if times == 0 {
        pool
    } else {
        taken(released(reused(pool, i, (times - 1) as nat), i), i)
    }
}

/// The late reply to a cancelled call is not accepted by the calls that have
/// taken its slot since. The generation has 2^64 values, so this holds of as
/// many calls but one.
pub proof fn law_late_reply_reaches_no_later_call(
    pool: PoolState,
    token: EmbassyReplyToken,
    times: nat,
)
    requires
        current(pool, token),
        1 <= times < 0x1_0000_0000_0000_0000,
    ensures
        !current(reused(pool, token.0 as int, times), token),
{
    lemma_reused(pool, token.0 as int, times);
    let g = token.1 as int;
    assert((g + times) % 0x1_0000_0000_0000_0000 != g);
}

proof fn lemma_reused(pool: PoolState, i: int, times: nat)
    requires
        0 <= i < pool.generations.len(),
    ensures
        reused(pool, i, times).generations.len() == pool.generations.len(),
        reused(pool, i, times).generations[i] == (pool.generations[i] + times)
            % 0x1_0000_0000_0000_0000,
    decreases times,
{
    if times > 0 {
        lemma_reused(pool, i, (times - 1) as nat);
    }
}

/// Taking a slot makes it busy and touches nothing else; releasing it makes it
/// free, moves it to another generation and touches nothing else.
pub proof fn law_slots_are_taken_one_by_one(pool: PoolState, i: int, j: int)
    requires
        0 <= i < pool.generations.len(),
        0 <= j < pool.generations.len(),
        i != j,
    ensures
        !taken(pool, i).free.contains(i),
        taken(pool, i).free.contains(j) == pool.free.contains(j),
        taken(pool, i).generations == pool.generations,
        released(pool, i).free.contains(i),
        released(pool, i).free.contains(j) == pool.free.contains(j),
        released(pool, i).generations.len() == pool.generations.len(),
        released(pool, i).generations[i] != pool.generations[i],
        released(pool, i).generations[j] == pool.generations[j],
{
}

/// A call owns its slot from when it takes it, and is over when it ends; a token
/// of a call that is over ends nothing.
pub proof fn law_call_owns_the_slot_that_it_took(pool: PoolState, slot: u8)
    requires
        slot < pool.generations.len(),
        pool.free.contains(slot as int),
    ensures
        ({
            let token = EmbassyReplyToken(slot, pool.generations[slot as int]);
            let busy = taken(pool, slot as int);
            &&& !current(pool, token)
            &&& current(busy, token)
            &&& !current(ended(busy, token), token)
            &&& ended(ended(busy, token), token) == ended(busy, token)
        }),
{
}

} // verus!
