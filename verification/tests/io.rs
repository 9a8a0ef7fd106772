//! Byte streams and the lock around them.

use core::task::Waker;
use myelin::error::ErrorText;
use myelin::io::blocking::BlockingIo;
use myelin::io::cursor::{cursor_read, cursor_write, UnexpectedEnd};
use myelin::io::futures_io::{
    FuturesIoReader, FuturesIoWriter, Polled, Transfer, TransferStep, READ_EXHAUSTED,
    WRITE_EXHAUSTED,
};
use myelin::io::local_lock::{LocalLock, LocalLockGuard};
use myelin::io::mem_pipe::{duplex, pipe, Pipe, PipeError, Side};
use myelin::io::tokio_io::{TokioIoReader, TokioIoWriter};
use myelin::io::{AsyncBytesRead, AsyncBytesWrite};
use myelin::wake::PollState;
use std::sync::atomic::{AtomicUsize, Ordering};
use std::sync::Arc;
use std::task::Wake;

struct Counter(AtomicUsize);

impl Wake for Counter {
    fn wake(self: Arc<Self>) {
        self.0.fetch_add(1, Ordering::SeqCst);
    }
}

fn counting() -> (Arc<Counter>, Waker) {
    let counter = Arc::new(Counter(AtomicUsize::new(0)));
    (counter.clone(), Waker::from(counter))
}

fn woken(counter: &Counter) -> usize {
    counter.0.load(Ordering::SeqCst)
}

fn run_lock<T>(lock: &mut LocalLock<T>) -> LocalLockGuard<T> {
    let (_, waker) = counting();
    loop {
        if let PollState::Ready(g) = lock.poll_lock(&waker) {
            return g;
        }
    }
}

#[test]
fn lock_and_unlock() {
    let mut lock = LocalLock::new(42i32);
    {
        let mut g = run_lock(&mut lock);
        *g.get_mut() += 1;
        lock.unlock(g);
    }
    let g = run_lock(&mut lock);
    assert_eq!(*g.get(), 43);
}

#[test]
fn try_lock_returns_none_when_held() {
    let mut lock = LocalLock::new(0u8);
    let g = lock.try_lock().unwrap();
    assert!(lock.try_lock().is_none());
    lock.unlock(g);
    assert!(lock.try_lock().is_some());
}

#[test]
fn lock_future_becomes_ready_after_drop() {
    let mut lock = LocalLock::new(0u8);
    let g = lock.try_lock().unwrap();

    let (counter, waker) = counting();
    assert!(matches!(lock.poll_lock(&waker), PollState::Pending));
    assert_eq!(woken(&counter), 0);

    lock.unlock(g);
    assert_eq!(woken(&counter), 1);

    match lock.poll_lock(&waker) {
        PollState::Ready(_) => {}
        PollState::Pending => panic!("expected ready after unlock"),
    }
}

#[test]
fn last_waiter_is_woken() {
    let mut lock = LocalLock::new(());
    let g = lock.try_lock().unwrap();
    let (first, first_waker) = counting();
    let (second, second_waker) = counting();
    assert!(matches!(lock.poll_lock(&first_waker), PollState::Pending));
    assert!(matches!(lock.poll_lock(&second_waker), PollState::Pending));
    lock.unlock(g);
    assert_eq!(woken(&first), 0);
    assert_eq!(woken(&second), 1);
}

#[test]
fn lock_gives_its_value_back() {
    let lock = LocalLock::new(String::from("inside"));
    assert_eq!(lock.into_inner(), "inside");
}

fn write(pipe: &mut Pipe, bytes: &[u8]) {
    let (_, waker) = counting();
    let mut written = 0;
    assert!(matches!(
        pipe.poll_write_all(bytes, &mut written, &waker),
        PollState::Ready(Ok(()))
    ));
    assert_eq!(written, bytes.len());
    assert!(matches!(pipe.poll_flush(&waker), PollState::Ready(Ok(()))));
}

#[test]
fn pipe_is_first_in_first_out() {
    let mut pipe = pipe();
    write(&mut pipe, b"abc");
    write(&mut pipe, b"def");
    let (_, waker) = counting();
    let mut buf = [0u8; 4];
    let mut filled = 0;
    assert!(matches!(
        pipe.poll_read_exact(&mut buf, &mut filled, &waker),
        PollState::Ready(Ok(()))
    ));
    assert_eq!(&buf, b"abcd");
    assert_eq!(filled, 4);
}

#[test]
fn short_read_waits_and_resumes() {
    let mut pipe = pipe();
    write(&mut pipe, b"ab");
    let (counter, waker) = counting();
    let mut buf = [0u8; 4];
    let mut filled = 0;
    assert!(matches!(
        pipe.poll_read_exact(&mut buf, &mut filled, &waker),
        PollState::Pending
    ));
    assert_eq!(filled, 2);
    assert_eq!(woken(&counter), 0);
    write(&mut pipe, b"cdef");
    assert_eq!(woken(&counter), 1);
    assert!(matches!(
        pipe.poll_read_exact(&mut buf, &mut filled, &waker),
        PollState::Ready(Ok(()))
    ));
    assert_eq!(&buf, b"abcd");
}

#[test]
fn closed_pipe_drains_before_it_fails() {
    let mut pipe = pipe();
    write(&mut pipe, b"xy");
    let (counter, waker) = counting();
    let mut big = [0u8; 3];
    let mut big_filled = 0;
    assert!(matches!(
        pipe.poll_read_exact(&mut big, &mut big_filled, &waker),
        PollState::Pending
    ));
    pipe.close();
    assert_eq!(woken(&counter), 1);
    match pipe.poll_read_exact(&mut big, &mut big_filled, &waker) {
        PollState::Ready(Err(e)) => {
            assert!(matches!(e, PipeError::Closed));
            assert_eq!(e.to_text(), "pipe closed");
        }
        _ => panic!("expected an error"),
    }

    let mut pipe = self::pipe();
    write(&mut pipe, b"xy");
    pipe.close();
    let mut buf = [0u8; 2];
    let mut filled = 0;
    assert!(matches!(
        pipe.poll_read_exact(&mut buf, &mut filled, &waker),
        PollState::Ready(Ok(()))
    ));
    assert_eq!(&buf, b"xy");
}

#[test]
fn empty_read_is_ready_at_once() {
    let mut pipe = pipe();
    let (_, waker) = counting();
    let mut filled = 0;
    assert!(matches!(
        pipe.poll_read_exact(&mut [], &mut filled, &waker),
        PollState::Ready(Ok(()))
    ));
}

#[test]
fn duplex_sides_are_crossed() {
    let mut pair = duplex();
    write(pair.writer(Side::A), b"to b");
    write(pair.writer(Side::B), b"to a");
    let (_, waker) = counting();
    let mut at_b = [0u8; 4];
    let mut filled = 0;
    assert!(matches!(
        pair.reader(Side::B).poll_read_exact(&mut at_b, &mut filled, &waker),
        PollState::Ready(Ok(()))
    ));
    let mut at_a = [0u8; 4];
    let mut filled = 0;
    assert!(matches!(
        pair.reader(Side::A).poll_read_exact(&mut at_a, &mut filled, &waker),
        PollState::Ready(Ok(()))
    ));
    assert_eq!(&at_b, b"to b");
    assert_eq!(&at_a, b"to a");
}

fn read_all<R: AsyncBytesRead>(mut reader: R, len: usize) -> Option<Vec<u8>> {
    let (_, waker) = counting();
    let mut buf = vec![0u8; len];
    let mut filled = 0;
    match reader.poll_read_exact(&mut buf, &mut filled, &waker) {
        PollState::Ready(Ok(())) => Some(buf),
        _ => None,
    }
}

#[test]
fn borrowed_streams_act_like_their_owner() {
    let mut pipe = pipe();
    {
        let (_, waker) = counting();
        let mut borrowed = &mut pipe;
        let mut written = 1;
        assert!(matches!(
            AsyncBytesWrite::poll_write_all(&mut borrowed, b"-yes", &mut written, &waker),
            PollState::Ready(Ok(()))
        ));
        assert!(matches!(
            AsyncBytesWrite::poll_flush(&mut borrowed, &waker),
            PollState::Ready(Ok(()))
        ));
    }
    assert_eq!(read_all(&mut pipe, 3), Some(b"yes".to_vec()));
}

#[test]
fn cursor_reads_in_order_and_ends() {
    let mut reader = cursor_read(vec![1, 2, 3, 4, 5]);
    let (_, waker) = counting();
    let mut buf = [0u8; 2];
    let mut filled = 0;
    assert!(matches!(
        reader.poll_read_exact(&mut buf, &mut filled, &waker),
        PollState::Ready(Ok(()))
    ));
    assert_eq!(buf, [1, 2]);
    let mut buf = [9u8; 4];
    let mut filled = 0;
    match reader.poll_read_exact(&mut buf, &mut filled, &waker) {
        PollState::Ready(Err(e)) => {
            assert!(matches!(e, UnexpectedEnd));
            assert_eq!(e.to_text(), "failed to fill whole buffer");
        }
        _ => panic!("expected an error"),
    }
    assert_eq!(buf, [9, 9, 9, 9]);
    assert_eq!(read_all(&mut reader, 3), Some(vec![3, 4, 5]));
}

#[test]
fn cursor_writes_append() {
    let mut writer = cursor_write();
    let (_, waker) = counting();
    let mut written = 0;
    assert!(matches!(
        writer.poll_write_all(b"ab", &mut written, &waker),
        PollState::Ready(Ok(()))
    ));
    let mut written = 1;
    assert!(matches!(
        writer.poll_write_all(b"xcd", &mut written, &waker),
        PollState::Ready(Ok(()))
    ));
    assert_eq!(written, 3);
    assert!(matches!(writer.poll_flush(&waker), PollState::Ready(Ok(()))));
    assert_eq!(writer.into_inner(), b"abcd".to_vec());
}

#[test]
fn adapters_keep_what_they_wrap() {
    let mut io = BlockingIo::new(7u32);
    *io.get_mut() += 1;
    assert_eq!(io.into_inner(), 8);
    assert_eq!(TokioIoReader::new("r").into_inner(), "r");
    assert_eq!(TokioIoWriter::new("w").into_inner(), "w");
    assert_eq!(FuturesIoReader::new("r").into_inner(), "r");
    assert_eq!(FuturesIoWriter::new("w").into_inner(), "w");
}

#[test]
fn transfer_goes_on_until_all_is_done() {
    let mut transfer = Transfer::new(10);
    assert!(!transfer.is_complete());
    assert!(matches!(transfer.advance(Polled::<()>::Transferred(4)), TransferStep::Again));
    assert_eq!(transfer.done(), 4);
    assert!(matches!(transfer.advance(Polled::<()>::NotReady), TransferStep::Wait));
    assert_eq!(transfer.done(), 4);
    assert!(matches!(transfer.advance(Polled::<()>::Transferred(6)), TransferStep::Complete));
    assert!(transfer.is_complete());
    assert_eq!(transfer.done(), 10);
}

#[test]
fn transfer_reports_the_end_and_failures() {
    let mut transfer = Transfer::new(3);
    assert!(matches!(transfer.advance(Polled::Failed("broken")), TransferStep::Failed("broken")));
    assert_eq!(transfer.done(), 0);
    assert!(matches!(transfer.advance(Polled::<()>::Transferred(0)), TransferStep::Exhausted));
    assert_eq!(READ_EXHAUSTED, "read_exact: EOF");
    assert_eq!(WRITE_EXHAUSTED, "write_all: wrote zero");
    assert!(Transfer::new(0).is_complete());
}
