//! Length-prefixed framing.

use core::task::Waker;
use myelin::error::ErrorText;
use myelin::io::cursor::{cursor_read, cursor_write};
use myelin::io::mem_pipe::{pipe, Pipe, PipeError};
use myelin::io::{AsyncBytesRead, AsyncBytesWrite};
use myelin::stream::framing::{
    FrameReader, FrameReading, FrameWriter, FrameWriting, FramingError, LengthPrefixed,
    LengthProgress, LENGTH_LEN,
};
use myelin::wake::PollState;
use std::sync::Arc;
use std::task::Wake;

struct Idle;

impl Wake for Idle {
    fn wake(self: Arc<Self>) {}
}

fn idle() -> Waker {
    Waker::from(Arc::new(Idle))
}

#[test]
fn frames_start_with_their_length() {
    assert_eq!(LengthPrefixed.write_frame(b"hi"), vec![2, 0, 0, 0, b'h', b'i']);
    assert_eq!(LengthPrefixed.write_frame(b""), vec![0, 0, 0, 0]);
    let frame = LengthPrefixed.write_frame(&[7u8; 0x0102]);
    assert_eq!(&frame[..4], &[0x02, 0x01, 0, 0]);
    assert_eq!(frame.len(), 4 + 0x0102);
    let frame = LengthPrefixed.write_frame(&[0u8; 0x01_02_03]);
    assert_eq!(&frame[..4], &[0x03, 0x02, 0x01, 0]);
}

#[test]
fn frames_are_read_in_two_pieces() {
    let framer = LengthPrefixed;
    let start = framer.read_frame();
    assert_eq!(framer.want(&start), LENGTH_LEN);
    let middle = match framer.supply(start, vec![3, 0, 0, 0]) {
        Err(progress) => progress,
        Ok(_) => panic!("the message is still to come"),
    };
    assert_eq!(framer.want(&middle), 3);
    match framer.supply(middle, b"abc".to_vec()) {
        Ok(message) => assert_eq!(message, b"abc"),
        Err(_) => panic!("the frame is complete"),
    }
}

#[test]
fn announced_lengths_are_little_endian() {
    let framer = LengthPrefixed;
    match framer.supply(framer.read_frame(), vec![0x04, 0x03, 0x02, 0x01]) {
        Err(progress) => assert_eq!(framer.want(&progress), 0x0102_0304),
        Ok(_) => panic!("the message is still to come"),
    }
    match framer.supply(framer.read_frame(), vec![0xff, 0xff, 0xff, 0xff]) {
        Err(progress) => assert_eq!(framer.want(&progress), 0xffff_ffff),
        Ok(_) => panic!("the message is still to come"),
    }
}

fn send(pipe: &mut Pipe, message: &[u8]) {
    let mut writing = FrameWriting::new(&LengthPrefixed, message);
    assert!(matches!(writing.poll(pipe, &idle()), PollState::Ready(Ok(()))));
}

fn receive<R: AsyncBytesRead>(reader: &mut R) -> Option<Vec<u8>> {
    match FrameReading::new(&LengthPrefixed).poll(&LengthPrefixed, reader, &idle()) {
        (_, PollState::Ready(Ok(message))) => Some(message),
        _ => None,
    }
}

#[test]
fn written_frames_are_read_back() {
    let mut pipe = pipe();
    send(&mut pipe, b"first");
    send(&mut pipe, b"");
    send(&mut pipe, &[0xaa; 300]);
    assert_eq!(receive(&mut pipe), Some(b"first".to_vec()));
    assert_eq!(receive(&mut pipe), Some(vec![]));
    assert_eq!(receive(&mut pipe), Some(vec![0xaa; 300]));
    assert_eq!(receive(&mut pipe), None);
}

#[test]
fn reading_resumes_where_it_stopped() {
    let mut pipe = pipe();
    let frame = LengthPrefixed.write_frame(b"message");
    let mut reading = FrameReading::new(&LengthPrefixed);
    for (i, byte) in frame.iter().enumerate() {
        let mut written = 0;
        assert!(matches!(
            pipe.poll_write_all(&[*byte], &mut written, &idle()),
            PollState::Ready(Ok(()))
        ));
        let (next, outcome) = reading.poll(&LengthPrefixed, &mut pipe, &idle());
        reading = next;
        match outcome {
            PollState::Pending => assert!(i + 1 < frame.len()),
            PollState::Ready(Ok(message)) => {
                assert_eq!(i + 1, frame.len());
                assert_eq!(message, b"message");
            }
            PollState::Ready(Err(_)) => panic!("the pipe is open"),
        }
    }
    send(&mut pipe, b"next");
    match reading.poll(&LengthPrefixed, &mut pipe, &idle()) {
        (_, PollState::Ready(Ok(message))) => assert_eq!(message, b"next"),
        _ => panic!("the frame is complete"),
    }
}

#[test]
fn broken_stream_ends_the_read() {
    let mut pipe = pipe();
    pipe.close();
    match FrameReading::new(&LengthPrefixed).poll(&LengthPrefixed, &mut pipe, &idle()) {
        (_, PollState::Ready(Err(e))) => {
            assert!(matches!(e, FramingError::Io(PipeError::Closed)));
            assert_eq!(e.to_text(), "I/O error: pipe closed");
        }
        _ => panic!("the pipe is closed"),
    }
}

#[test]
fn truncated_frame_is_an_error() {
    let mut frame = LengthPrefixed.write_frame(b"message");
    frame.pop();
    assert_eq!(receive(&mut cursor_read(frame)), None);
}

#[test]
fn frames_are_written_whole() {
    let mut writer = cursor_write();
    let mut writing = FrameWriting::new(&LengthPrefixed, b"abc");
    assert!(matches!(writing.poll(&mut writer, &idle()), PollState::Ready(Ok(()))));
    assert_eq!(writer.into_inner(), vec![3, 0, 0, 0, b'a', b'b', b'c']);
}

/// Takes one byte per poll and then fails.
struct Reluctant {
    accepted: Vec<u8>,
    room: usize,
    flushes: usize,
}

impl AsyncBytesWrite for Reluctant {
    type Error = String;

    fn poll_write_all(
        &mut self,
        buf: &[u8],
        written: &mut usize,
        _waker: &Waker,
    ) -> PollState<Result<(), String>> {
        if *written == buf.len() {
            return PollState::Ready(Ok(()));
        }
        if self.accepted.len() == self.room {
            return PollState::Ready(Err("full".to_string()));
        }
        self.accepted.push(buf[*written]);
        *written += 1;
        if *written == buf.len() {
            PollState::Ready(Ok(()))
        } else {
            PollState::Pending
        }
    }

    fn poll_flush(&mut self, _waker: &Waker) -> PollState<Result<(), String>> {
        self.flushes += 1;
        if self.flushes == 1 {
            PollState::Pending
        } else {
            PollState::Ready(Ok(()))
        }
    }
}

#[test]
fn writing_resumes_where_it_stopped() {
    let mut writer = Reluctant { accepted: Vec::new(), room: 100, flushes: 0 };
    let mut writing = FrameWriting::new(&LengthPrefixed, b"xy");
    let mut polls = 0;
    loop {
        polls += 1;
        match writing.poll(&mut writer, &idle()) {
            PollState::Pending => {}
            PollState::Ready(result) => {
                assert!(result.is_ok());
                break;
            }
        }
    }
    assert_eq!(writer.accepted, vec![2, 0, 0, 0, b'x', b'y']);
    assert_eq!(writer.flushes, 2);
    assert_eq!(polls, 7);
}

#[test]
fn failed_write_is_reported() {
    let mut writer = Reluctant { accepted: Vec::new(), room: 1, flushes: 0 };
    let mut writing = FrameWriting::new(&LengthPrefixed, b"xy");
    assert!(matches!(writing.poll(&mut writer, &idle()), PollState::Pending));
    match writing.poll(&mut writer, &idle()) {
        PollState::Ready(Err(e)) => assert_eq!(e.to_text(), "I/O error: full"),
        _ => panic!("there is no room"),
    }
    assert_eq!(writer.flushes, 0);
}

#[test]
fn end_between_frames_closes_the_stream() {
    let start = LengthPrefixed.read_frame();
    assert!(matches!(start.interrupted("eof", true), FramingError::Closed));
    assert!(matches!(start.interrupted("io", false), FramingError::Io("io")));
    let inside = LengthProgress::Message(3);
    assert!(matches!(inside.interrupted("eof", true), FramingError::Io("eof")));
    assert!(matches!(FramingError::from_stream("eof", true), FramingError::Closed));
    assert!(matches!(FramingError::from_stream("io", false), FramingError::Io("io")));
    assert_eq!(FramingError::<String>::Closed.to_text(), "stream closed");
    assert_eq!(FramingError::Io("bad".to_string()).to_text(), "I/O error: bad");
}

#[test]
fn begun_frame_is_completed_before_the_next() {
    let mut writer = Reluctant { accepted: Vec::new(), room: 100, flushes: 1 };
    let mut writing = FrameWriting::idle();
    writing.push(&LengthPrefixed, b"a");
    assert!(matches!(writing.poll(&mut writer, &idle()), PollState::Pending));
    assert_eq!(writer.accepted, vec![1]);
    writing.push(&LengthPrefixed, b"b");
    loop {
        if let PollState::Ready(result) = writing.poll(&mut writer, &idle()) {
            assert!(result.is_ok());
            break;
        }
    }
    assert_eq!(writer.accepted, vec![1, 0, 0, 0, b'a', 1, 0, 0, 0, b'b']);

    writing.push(&LengthPrefixed, b"c");
    while let PollState::Pending = writing.poll(&mut writer, &idle()) {}
    assert_eq!(writer.accepted[10..], [1, 0, 0, 0, b'c']);
}

#[test]
fn frame_is_flushed_after_its_last_byte() {
    let mut writer = Reluctant { accepted: Vec::new(), room: 100, flushes: 1 };
    let mut writing = FrameWriting::new(&LengthPrefixed, b"hi");
    for _ in 0..5 {
        assert!(matches!(writing.poll(&mut writer, &idle()), PollState::Pending));
        assert_eq!(writer.flushes, 1);
    }
    assert!(matches!(writing.poll(&mut writer, &idle()), PollState::Ready(Ok(()))));
    assert_eq!(writer.flushes, 2);
    assert_eq!(writer.accepted, vec![2, 0, 0, 0, b'h', b'i']);
}

#[test]
fn whole_frame_is_read_at_once() {
    let mut bytes = LengthPrefixed.write_frame(b"hi");
    bytes.extend_from_slice(b"rest");
    let mut reader = cursor_read(bytes);
    assert_eq!(receive(&mut reader), Some(b"hi".to_vec()));
    assert_eq!(receive(&mut cursor_read(LengthPrefixed.write_frame(b""))), Some(vec![]));
    assert_eq!(receive(&mut cursor_read(vec![1, 0, 0])), None);
}
