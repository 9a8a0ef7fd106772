//! Reply routing.

use core::task::Waker;
use myelin::stream::routing::{
    MuxedReplyToken, MuxedSlots, MuxedSlots4, MuxedSlots8, ReplyRouter, RouterSlotHandle,
    Sequential, UNTAGGED,
};
use myelin::wake::PollState;
use std::sync::atomic::{AtomicUsize, Ordering};
use std::sync::Arc;
use std::task::Wake;

struct CountingWaker(AtomicUsize);

impl Wake for CountingWaker {
    fn wake(self: Arc<Self>) {
        self.0.fetch_add(1, Ordering::SeqCst);
    }
}

fn counting() -> (Arc<CountingWaker>, Waker) {
    let counter = Arc::new(CountingWaker(AtomicUsize::new(0)));
    (counter.clone(), Waker::from(counter))
}

fn woken(counter: &CountingWaker) -> usize {
    counter.0.load(Ordering::SeqCst)
}

#[test]
fn bitmap_alloc_free() {
    let mut router = MuxedSlots::<4, 64>::new();

    let s0 = router.try_acquire().expect("slot 0");
    let s1 = router.try_acquire().expect("slot 1");
    let s2 = router.try_acquire().expect("slot 2");
    let s3 = router.try_acquire().expect("slot 3");

    let mut ids = [s0.slot_id(), s1.slot_id(), s2.slot_id(), s3.slot_id()];
    ids.sort();
    assert_eq!(ids, [0, 1, 2, 3]);

    assert!(router.try_acquire().is_none());

    let id2 = s2.slot_id();
    router.release(s2);

    let s2b = router.try_acquire().expect("reacquired slot");
    assert_eq!(s2b.slot_id(), id2);

    assert!(router.try_acquire().is_none());

    router.release(s0);
    router.release(s1);
    router.release(s2b);
    router.release(s3);

    assert!(router.is_idle());
}

#[test]
fn sequential_zero_overhead() {
    assert_eq!(Sequential::HEADER_LEN, 0);
    let mut seq = Sequential;
    let slot = seq.try_acquire().unwrap();
    assert_eq!(slot.slot_id(), 0);
}

#[test]
fn muxed_header_round_trip() {
    let mut router = MuxedSlots::<8, 64>::new();
    let slot = router.try_acquire().unwrap();
    let mut buf = [0u8; 1];
    MuxedSlots::<8, 64>::write_header(&slot, &mut buf);
    let parsed = MuxedSlots::<8, 64>::parse_header(&buf);
    assert_eq!(parsed, slot.slot_id());
}

#[test]
fn deliver_and_recv() {
    let mut router = MuxedSlots::<4, 64>::new();
    let slot = router.try_acquire().unwrap();
    let id = slot.slot_id();

    router.deliver(id, b"hello");

    let (_, waker) = counting();
    match router.poll_reply(&slot, &waker) {
        PollState::Ready(reply) => assert_eq!(reply, b"hello"),
        PollState::Pending => panic!("reply expected"),
    }
}

#[test]
fn deliver_to_freed_slot_is_discarded() {
    let mut router = MuxedSlots::<4, 64>::new();
    let slot = router.try_acquire().unwrap();
    let id = slot.slot_id();
    router.release(slot);

    router.deliver(id, b"orphaned reply");

    assert!(router.is_idle());
    assert!(router.try_recv_slot(id).is_none());
}

#[test]
fn generation_counter_prevents_stale_delivery() {
    let mut router = MuxedSlots::<1, 64>::new();

    let slot1 = router.try_acquire().unwrap();
    let id = slot1.slot_id();
    let gen1 = slot1.generation();

    let stale = router.begin_delivery(id, UNTAGGED).unwrap();
    router.release(slot1);
    let slot2 = router.try_acquire().unwrap();
    assert_eq!(slot2.slot_id(), id);
    assert_eq!(slot2.generation(), gen1.wrapping_add(1));

    router.finish_delivery(stale, b"stale");
    assert!(router.try_recv_slot(id).is_none());

    router.release(slot2);
    let gen_now = router.generation_of(id);
    assert_eq!(gen_now, gen1.wrapping_add(2));
}

#[test]
fn concurrent_acquire_slots() {
    let mut router = MuxedSlots::<2, 64>::new();
    let (_, waker) = counting();
    let one = router.poll_acquire(&waker);
    let two = router.poll_acquire(&waker);
    match (one, two) {
        (PollState::Ready(Ok(a)), PollState::Ready(Ok(b))) => {
            assert_ne!(a.slot_id(), b.slot_id());
        }
        _ => panic!("two slots expected"),
    }
}

#[test]
fn acquire_blocks_when_full_then_wakes() {
    let mut router = MuxedSlots::<1, 64>::new();
    let (counter, waker) = counting();

    let slot = router.try_acquire().unwrap();
    let id = slot.slot_id();

    assert!(matches!(router.poll_acquire(&waker), PollState::Pending));
    assert_eq!(woken(&counter), 0);

    router.release(slot);
    assert_eq!(woken(&counter), 1);

    match router.poll_acquire(&waker) {
        PollState::Ready(Ok(s)) => assert_eq!(s.slot_id(), id),
        _ => panic!("slot expected"),
    }
}

#[test]
fn single_waiter_chain_works() {
    let mut router = MuxedSlots::<1, 64>::new();
    let (counter, waker) = counting();
    let mut slot = router.try_acquire().unwrap();
    for round in 1..=3 {
        assert!(matches!(router.poll_acquire(&waker), PollState::Pending));
        router.release(slot);
        assert_eq!(woken(&counter), round);
        slot = match router.poll_acquire(&waker) {
            PollState::Ready(Ok(s)) => s,
            _ => panic!("slot expected"),
        };
        assert_eq!(slot.slot_id(), 0);
    }
}

#[test]
fn cancel_safety_drop_after_acquire() {
    let mut router = MuxedSlots::<2, 64>::new();
    let slot = router.try_acquire().unwrap();
    router.release(slot);
    assert!(router.is_idle());
    let slot = router.try_acquire().unwrap();
    assert!(slot.slot_id() < 2);
}

#[test]
fn muxed_reply_token_round_trip() {
    let token = MuxedReplyToken::new(7);
    assert_eq!(token.slot_id(), 7);
}

#[test]
fn max_32_slots() {
    let mut router = MuxedSlots::<32, 16>::new();
    let mut guards = Vec::new();
    for _ in 0..32 {
        guards.push(router.try_acquire().unwrap());
    }
    assert!(router.try_acquire().is_none());

    let mut ids: Vec<u8> = guards.iter().map(|g| g.slot_id()).collect();
    ids.sort();
    let expected: Vec<u8> = (0..32).collect();
    assert_eq!(ids, expected);
}

#[test]
fn new_boxed_produces_equivalent_state() {
    let mut router: Box<MuxedSlots<4, 64>> = MuxedSlots::<4, 64>::new_boxed();

    assert!(router.is_idle());

    for i in 0..4 {
        assert!(router.try_recv_slot(i).is_none());
        assert_eq!(router.generation_of(i), 0);
    }

    let s0 = router.try_acquire().expect("slot 0");
    let s1 = router.try_acquire().expect("slot 1");
    let s2 = router.try_acquire().expect("slot 2");
    let s3 = router.try_acquire().expect("slot 3");
    assert!(router.try_acquire().is_none());

    let mut ids = [s0.slot_id(), s1.slot_id(), s2.slot_id(), s3.slot_id()];
    ids.sort();
    assert_eq!(ids, [0, 1, 2, 3]);

    router.deliver(s1.slot_id(), b"hello");
    let (_, waker) = counting();
    match router.poll_reply(&s1, &waker) {
        PollState::Ready(reply) => assert_eq!(reply, b"hello"),
        PollState::Pending => panic!("reply expected"),
    }

    router.release(s0);
    router.release(s1);
    router.release(s2);
    router.release(s3);
    assert!(router.is_idle());
}

#[test]
fn replies_are_cut_off_at_the_buffer() {
    let mut router = MuxedSlots::<2, 4>::new();
    let slot = router.try_acquire().unwrap();
    router.deliver(slot.slot_id(), b"abcdef");
    assert_eq!(router.try_recv_slot(slot.slot_id()).unwrap(), b"abcd");
}

#[test]
fn long_replies_keep_their_length() {
    let mut router = MuxedSlots::<1, 131_072>::new();
    let slot = router.try_acquire().unwrap();
    let reply = vec![7u8; 70_000];
    router.deliver(slot.slot_id(), &reply);
    assert_eq!(router.try_recv_slot(slot.slot_id()).unwrap(), &reply[..]);
}

#[test]
fn empty_replies_go_unnoticed() {
    let mut router = MuxedSlots::<1, 16>::new();
    let slot = router.try_acquire().unwrap();
    router.deliver(slot.slot_id(), b"");
    assert!(router.try_recv_slot(slot.slot_id()).is_none());
}

#[test]
fn slots_out_of_range_are_ignored() {
    let mut router = MuxedSlots::<2, 16>::new();
    let _slot = router.try_acquire().unwrap();
    router.deliver(2, b"x");
    router.deliver(255, b"x");
    assert!(router.try_recv_slot(0).is_none());
    assert!(router.try_recv_slot(2).is_none());
    assert!(router.begin_delivery(2, UNTAGGED).is_none());
}

#[test]
fn deliveries_touch_their_slot_alone() {
    let mut router = MuxedSlots::<3, 16>::new();
    let a = router.try_acquire().unwrap();
    let b = router.try_acquire().unwrap();
    router.deliver(a.slot_id(), b"for a");
    assert!(router.try_recv_slot(b.slot_id()).is_none());
    router.deliver(b.slot_id(), b"for b");
    assert_eq!(router.try_recv_slot(a.slot_id()).unwrap(), b"for a");
    assert_eq!(router.try_recv_slot(b.slot_id()).unwrap(), b"for b");
}

#[test]
fn delivery_wakes_the_waiting_caller() {
    let mut router = MuxedSlots::<1, 16>::new();
    let (counter, waker) = counting();
    let slot = router.try_acquire().unwrap();
    assert!(matches!(router.poll_reply(&slot, &waker), PollState::Pending));
    assert_eq!(woken(&counter), 0);
    router.deliver(slot.slot_id(), b"!");
    assert_eq!(woken(&counter), 1);
    assert!(matches!(router.poll_reply(&slot, &waker), PollState::Ready(r) if r == b"!"));
}

#[test]
fn reacquired_slots_are_empty() {
    let mut router = MuxedSlots::<1, 16>::new();
    let slot = router.try_acquire().unwrap();
    router.deliver(slot.slot_id(), b"old");
    router.release(slot);
    let slot = router.try_acquire().unwrap();
    assert!(router.try_recv_slot(slot.slot_id()).is_none());
}

#[test]
fn lowest_free_slot_comes_first() {
    let mut router: MuxedSlots8<4> = MuxedSlots8::default();
    let mut guards: Vec<_> = (0..6).map(|_| router.try_acquire().unwrap()).collect();
    let four = guards.remove(4);
    let one = guards.remove(1);
    router.release(four);
    router.release(one);
    assert_eq!(router.try_acquire().unwrap().slot_id(), 1);
    assert_eq!(router.try_acquire().unwrap().slot_id(), 4);
    assert_eq!(router.try_acquire().unwrap().slot_id(), 6);
}

#[test]
fn common_configurations_have_their_number_of_slots() {
    let mut four: MuxedSlots4<8> = MuxedSlots::new();
    let mut n = 0;
    while four.try_acquire().is_some() {
        n += 1;
    }
    assert_eq!(n, 4);
    assert_eq!(MuxedSlots4::<8>::HEADER_LEN, 1);
}

#[test]
fn sequential_ignores_deliveries() {
    let mut seq = Sequential;
    let (_, waker) = counting();
    assert!(matches!(seq.poll_acquire(&waker), PollState::Ready(Ok(_))));
    seq.deliver(3, b"x");
    let slot = seq.try_acquire().unwrap();
    let mut buf = [9u8; 2];
    Sequential::write_header(&slot, &mut buf);
    assert_eq!(buf, [9, 9]);
    assert_eq!(Sequential::parse_header(&buf), 0);
    seq.release(slot);
}

#[test]
fn late_reply_is_discarded() {
    let mut router = MuxedSlots::<1, 64>::new();
    let first = router.try_acquire().unwrap();
    router.abandon(first, UNTAGGED);
    assert!(router.is_idle());
    let second = router.try_acquire().unwrap();
    router.deliver(0, b"late");
    assert!(router.try_recv_slot(second.slot_id()).is_none());
    router.deliver(0, b"own");
    assert_eq!(router.try_recv_slot(second.slot_id()), Some(&b"own"[..]));
}

#[test]
fn every_late_reply_is_discarded() {
    let mut router = MuxedSlots::<2, 64>::new();
    for _ in 0..3 {
        let slot = router.try_acquire().unwrap();
        assert_eq!(slot.slot_id(), 0);
        router.abandon(slot, UNTAGGED);
    }
    let slot = router.try_acquire().unwrap();
    for _ in 0..3 {
        router.deliver(0, b"late");
        assert!(router.try_recv_slot(slot.slot_id()).is_none());
    }
    router.deliver(0, b"own");
    assert_eq!(router.try_recv_slot(slot.slot_id()), Some(&b"own"[..]));
}

#[test]
fn late_reply_comes_before_the_slot_is_taken_again() {
    let mut router = MuxedSlots::<1, 64>::new();
    let first = router.try_acquire().unwrap();
    router.abandon(first, UNTAGGED);
    router.deliver(0, b"late");
    assert!(!router.settle(0, UNTAGGED));
    let second = router.try_acquire().unwrap();
    router.deliver(0, b"own");
    assert_eq!(router.try_recv_slot(second.slot_id()), Some(&b"own"[..]));
}

#[test]
fn answered_call_owes_no_reply() {
    let mut router = MuxedSlots::<1, 64>::new();
    let first = router.try_acquire().unwrap();
    router.deliver(0, b"answer");
    router.abandon(first, UNTAGGED);
    assert!(!router.settle(0, UNTAGGED));
    assert!(!router.settle(9, UNTAGGED));
    let second = router.try_acquire().unwrap();
    assert!(router.try_recv_slot(second.slot_id()).is_none());
    router.deliver(0, b"own");
    assert_eq!(router.try_recv_slot(second.slot_id()), Some(&b"own"[..]));
}

#[test]
fn replies_with_other_tags_are_told_apart() {
    for own_first in [true, false] {
        let mut router = MuxedSlots::<1, 64>::new();
        let first = router.try_acquire().unwrap();
        router.abandon(first, 7);
        let second = router.try_acquire().unwrap();
        if own_first {
            router.deliver_tagged(0, 8, b"own");
            router.deliver_tagged(0, 7, b"late");
        } else {
            router.deliver_tagged(0, 7, b"late");
            assert!(router.try_recv_slot(second.slot_id()).is_none());
            router.deliver_tagged(0, 8, b"own");
        }
        assert_eq!(router.try_recv_slot(second.slot_id()), Some(&b"own"[..]));
        assert!(!router.settle(0, 7));
    }
}
