//! Framing: how a byte stream is cut into messages.

use vstd::prelude::*;

use crate::error::{text_with, ErrorText};
use crate::io::{AsyncBytesRead, AsyncBytesWrite};
use crate::wake::PollState;
use core::task::Waker;

verus! {

/// Errors of the framing layer. `E` is the error of the byte stream.
#[derive(Debug)]
pub enum FramingError<E> {
    /// The stream failed.
    Io(E),
    /// The stream was closed.
    Closed,
}

impl<E: ErrorText> ErrorText for FramingError<E> {
    open spec fn text(&self) -> Seq<char> {
        match self {
            FramingError::Io(e) => "I/O error: "@ + e.text(),
            FramingError::Closed => "stream closed"@,
        }
    }

    fn to_text(&self) -> (text: String) {
        match self {
            FramingError::Io(e) => text_with("I/O error: ", e.to_text().as_str()),
            FramingError::Closed => "stream closed".to_owned(),
        }
    }
}

impl<E> FramingError<E> {
    /// The framing error for an error of the stream: the end of the stream
    /// closes it, everything else is passed on.
    pub fn from_stream(e: E, at_end: bool) -> (error: Self)
        ensures
            error == if at_end {
                FramingError::<E>::Closed
            } else {
                FramingError::Io(e)
            },
    {
        if at_end {
            FramingError::Closed
        } else {
            FramingError::Io(e)
        }
    }
}

/// Turns messages into frames.
pub trait FrameWriter {
    /// The frame of `data`.
    spec fn frame(&self, data: Seq<u8>) -> Seq<u8>;

    /// The frame of `data`.
    fn write_frame(&self, data: &[u8]) -> (frame: Vec<u8>)
        ensures
            frame@ == self.frame(data@),
    ;
}

/// Reads one frame piece by piece.
pub trait FrameReader {
    /// How far the frame has been read.
    type Progress;

    /// The progress before the first byte of a frame.
    spec fn start(&self) -> Self::Progress;

    /// How many bytes the next piece has.
    spec fn wanted(&self, progress: Self::Progress) -> int;

    /// Whether a frame can have been read as far as this.
    spec fn reachable(&self, progress: Self::Progress) -> bool;

    /// The bytes of the frame before the next piece.
    spec fn behind(&self, progress: Self::Progress) -> Seq<u8>;

    /// A bound on the number of pieces that are still to come.
    spec fn pieces(&self, progress: Self::Progress) -> nat;

    /// The bytes that `message` is read from.
    spec fn framed(&self, message: Seq<u8>) -> Seq<u8>;

    /// The progress after the next piece, or the message if it was the last.
    spec fn supplied(&self, progress: Self::Progress, piece: Seq<u8>) -> Result<
        Seq<u8>,
        Self::Progress,
    >;

    /// Starts to read a frame.
    fn read_frame(&self) -> (progress: Self::Progress)
        ensures
            progress == self.start(),
            self.reachable(progress),
            self.behind(progress) == Seq::<u8>::empty(),
    ;

    /// The length of the next piece.
    fn want(&self, progress: &Self::Progress) -> (len: usize)
        ensures
            len == self.wanted(*progress),
    ;

    /// Takes in the next piece: the complete message, or the progress so far.
    fn supply(&self, progress: Self::Progress, piece: Vec<u8>) -> (next: Result<
        Vec<u8>,
        Self::Progress,
    >)
        requires
            self.reachable(progress),
            piece@.len() == self.wanted(progress),
        ensures
            match self.supplied(progress, piece@) {
                Ok(message) => {
                    &&& next matches Ok(m) && m@ == message
                    &&& self.framed(message) == self.behind(progress) + piece@
                },
                Err(p) => {
                    &&& next == Err::<Vec<u8>, Self::Progress>(p)
                    &&& self.reachable(p)
                    &&& self.behind(p) == self.behind(progress) + piece@
                    &&& self.pieces(p) < self.pieces(progress)
                },
            },
    ;
}

/// Number of bytes of a length prefix.
pub const LENGTH_LEN: usize = 4;

/// Frames with a 32-bit little-endian length in front of the message.
#[derive(Debug, Default, Clone, Copy)]
pub struct LengthPrefixed;

/// How far a length-prefixed frame has been read.
#[derive(Clone, Copy)]
pub enum LengthProgress {
    /// Nothing has been read.
    Length,
    /// The length has been read; the message has this many bytes.
    Message(usize),
}

/// The length prefix of a message of `len` bytes: four bytes, least
/// significant first. Longer messages are announced modulo 2^32.
pub open spec fn length_prefix(len: int) -> Seq<u8> {
    let n = len % 0x1_0000_0000;
    seq![
        (n % 256) as u8,
        (n / 0x100 % 256) as u8,
        (n / 0x1_0000 % 256) as u8,
        (n / 0x100_0000) as u8,
    ]
}

/// The length that four prefix bytes announce.
pub open spec fn announced_length(prefix: Seq<u8>) -> int {
    prefix[0] + 0x100 * prefix[1] + 0x1_0000 * prefix[2] + 0x100_0000 * prefix[3]
}

/// `data` with its length prefix.
pub open spec fn length_prefixed(data: Seq<u8>) -> Seq<u8> {
    length_prefix(data.len() as int) + data
}

/// The length prefix of a message of `len` bytes.
fn length_bytes(len: usize) -> (prefix: Vec<u8>)
    ensures
        prefix@ == length_prefix(len as int),
{
    let n: u64 = len as u64 % 0x1_0000_0000;
    let mut prefix: Vec<u8> = Vec::new();
    prefix.push((n % 256) as u8);
    prefix.push((n / 0x100 % 256) as u8);
    prefix.push((n / 0x1_0000 % 256) as u8);
    prefix.push((n / 0x100_0000) as u8);
    assert(prefix@ =~= length_prefix(len as int));
    prefix
}

/// The length that a prefix announces.
fn read_length(prefix: &[u8]) -> (len: usize)
    requires
        prefix@.len() == 4,
    ensures
        len == announced_length(prefix@),
{
    let n: u32 = prefix[0] as u32 + 0x100 * (prefix[1] as u32) + 0x1_0000 * (prefix[2] as u32)
        + 0x100_0000 * (prefix[3] as u32);
    n as usize
}

impl FrameWriter for LengthPrefixed {
    open spec fn frame(&self, data: Seq<u8>) -> Seq<u8> {
        length_prefixed(data)
    }

    fn write_frame(&self, data: &[u8]) -> (frame: Vec<u8>) {
        let mut frame = length_bytes(data.len());
        frame.extend_from_slice(data);
        frame
    }
}

impl FrameReader for LengthPrefixed {
    type Progress = LengthProgress;

    open spec fn start(&self) -> LengthProgress {
        LengthProgress::Length
    }

    open spec fn wanted(&self, progress: LengthProgress) -> int {
        match progress {
            LengthProgress::Length => 4,
            LengthProgress::Message(len) => len as int,
        }
    }

    open spec fn reachable(&self, progress: LengthProgress) -> bool {
        progress matches LengthProgress::Message(len) ==> len < 0x1_0000_0000
    }

    open spec fn behind(&self, progress: LengthProgress) -> Seq<u8> {
        match progress {
            LengthProgress::Length => Seq::empty(),
            LengthProgress::Message(len) => length_prefix(len as int),
        }
    }

    open spec fn pieces(&self, progress: LengthProgress) -> nat {
        match progress {
            LengthProgress::Length => 2,
            LengthProgress::Message(_) => 1,
        }
    }

    open spec fn framed(&self, message: Seq<u8>) -> Seq<u8> {
        length_prefixed(message)
    }

    open spec fn supplied(&self, progress: LengthProgress, piece: Seq<u8>) -> Result<
        Seq<u8>,
        LengthProgress,
    > {
        match progress {
            LengthProgress::Length => Err(
                LengthProgress::Message(announced_length(piece) as usize),
            ),
            LengthProgress::Message(_) => Ok(piece),
        }
    }

    fn read_frame(&self) -> (progress: LengthProgress) {
        LengthProgress::Length
    }

    fn want(&self, progress: &LengthProgress) -> (len: usize) {
        match progress {
            LengthProgress::Length => LENGTH_LEN,
            LengthProgress::Message(len) => *len,
        }
    }

    fn supply(&self, progress: LengthProgress, piece: Vec<u8>) -> (next: Result<
        Vec<u8>,
        LengthProgress,
    >) {
        match progress {
            LengthProgress::Length => {
                proof {
                    lemma_length_prefix(piece@);
                    assert(Seq::<u8>::empty() + piece@ =~= piece@);
                }
                Err(LengthProgress::Message(read_length(piece.as_slice())))
            },
            LengthProgress::Message(_) => Ok(piece),
        }
    }
}

/// Four bytes are the prefix of the length that they announce.
proof fn lemma_length_prefix(prefix: Seq<u8>)
    requires
        prefix.len() == 4,
    ensures
        0 <= announced_length(prefix) < 0x1_0000_0000,
        length_prefix(announced_length(prefix)) == prefix,
{
    let n = announced_length(prefix);
    let (a, b, c, d) = (prefix[0] as int, prefix[1] as int, prefix[2] as int, prefix[3] as int);
    vstd::arithmetic::div_mod::lemma_fundamental_div_mod_converse(
        n,
        0x100,
        b + 0x100 * c + 0x1_0000 * d,
        a,
    );
    vstd::arithmetic::div_mod::lemma_fundamental_div_mod_converse(
        b + 0x100 * c + 0x1_0000 * d,
        0x100,
        c + 0x100 * d,
        b,
    );
    vstd::arithmetic::div_mod::lemma_fundamental_div_mod_converse(
        n,
        0x1_0000,
        c + 0x100 * d,
        a + 0x100 * b,
    );
    vstd::arithmetic::div_mod::lemma_fundamental_div_mod_converse(c + 0x100 * d, 0x100, d, c);
    vstd::arithmetic::div_mod::lemma_fundamental_div_mod_converse(
        n,
        0x100_0000,
        d,
        a + 0x100 * b + 0x1_0000 * c,
    );
    assert(length_prefix(n) =~= prefix);
}

/// Taking `first` and then `second` is taking them together.
proof fn lemma_takes(
    before: Option<Seq<u8>>,
    first: Seq<u8>,
    between: Option<Seq<u8>>,
    second: Seq<u8>,
    after: Option<Seq<u8>>,
)
    requires
        crate::io::takes(before, first, between),
        crate::io::takes(between, second, after),
    ensures
        crate::io::takes(before, first + second, after),
{
    if before is Some {
        let left = after->Some_0;
        assert(first + (second + left) =~= (first + second) + left);
    }
}

/// A frame that is being read.
pub struct FrameReading<P> {
    progress: P,
    piece: Vec<u8>,
    filled: usize,
}

impl<P> FrameReading<P> {
    /// Validity: the current piece has the length that the framing wants.
    pub closed spec fn wf<F: FrameReader<Progress = P>>(&self, framer: &F) -> bool {
        &&& framer.reachable(self.progress)
        &&& self.piece@.len() == framer.wanted(self.progress)
        &&& self.filled <= self.piece@.len()
    }

    /// The bytes of the frame that have been read.
    pub closed spec fn taken<F: FrameReader<Progress = P>>(&self, framer: &F) -> Seq<u8> {
        framer.behind(self.progress) + self.piece@.subrange(0, self.filled as int)
    }

    /// How many bytes of the current piece are still to come.
    pub closed spec fn missing<F: FrameReader<Progress = P>>(&self, framer: &F) -> int {
        framer.wanted(self.progress) - self.filled
    }

    /// A frame of which nothing has been read.
    pub fn new<F: FrameReader<Progress = P>>(framer: &F) -> (reading: Self)
        ensures
            reading.wf(framer),
            reading.taken(framer) == Seq::<u8>::empty(),
    {
        let progress = framer.read_frame();
        let piece: Vec<u8> = vec![0u8; framer.want(&progress)];
        let reading = FrameReading { progress, piece, filled: 0 };
        assert(reading.taken(framer) =~= Seq::<u8>::empty());
        reading
    }

    /// One poll of the read: takes bytes off the stream until the frame is
    /// complete, the stream fails or there is nothing to take. The bytes that
    /// were taken are never lost: they are part of the message, or of the
    /// frame that is still being read.
    pub fn poll<F: FrameReader<Progress = P>, R: AsyncBytesRead>(
        self,
        framer: &F,
        reader: &mut R,
        waker: &Waker,
    ) -> (next: (Self, PollState<Result<Vec<u8>, FramingError<R::Error>>>))
        requires
            self.wf(framer),
        ensures
            next.0.wf(framer),
            exists|bytes: Seq<u8>| #[trigger]
                crate::io::takes((*old(reader)).incoming(), bytes, (*final(reader)).incoming())
                    && match next.1 {
                    PollState::Ready(Ok(message)) => {
                        &&& framer.framed(message@) == self.taken(framer) + bytes
                        &&& next.0.taken(framer) == Seq::<u8>::empty()
                    },
                    PollState::Ready(Err(e)) => {
                        &&& e is Io
                        &&& next.0.taken(framer) == self.taken(framer) + bytes
                    },
                    PollState::Pending => next.0.taken(framer) == self.taken(framer) + bytes,
                },
            next.1 is Pending ==> next.0.missing(framer) > 0 && crate::io::read_reported(
                &*final(reader),
                next.0.missing(framer),
                PollState::Pending,
            ),
            next.1 matches PollState::Ready(Err(FramingError::Io(e))) ==> next.0.missing(framer) > 0
                && crate::io::read_reported(
                &*final(reader),
                next.0.missing(framer),
                PollState::Ready(Err(e)),
            ),
    {
        let ghost taken0 = self.taken(framer);
        let mut progress = self.progress;
        let mut piece: Vec<u8> = self.piece;
        let mut filled: usize = self.filled;
        let ghost mut bytes = Seq::<u8>::empty();
        proof {
            assert(taken0 =~= taken0 + bytes);
            let known = (*reader).incoming();
            assert(known matches Some(waiting) ==> waiting =~= bytes + waiting);
        }
        loop
            invariant
                taken0 == self.taken(framer),
                framer.reachable(progress),
                piece@.len() == framer.wanted(progress),
                filled <= piece@.len(),
                crate::io::takes((*old(reader)).incoming(), bytes, (*reader).incoming()),
                framer.behind(progress) + piece@.subrange(0, filled as int) == taken0 + bytes,
            decreases framer.pieces(progress),
        {
            let ghost polled = *reader;
            let ghost between = (*reader).incoming();
            let ghost piece0 = piece@;
            let ghost filled0 = filled as int;
            let outcome = reader.poll_read_exact(piece.as_mut_slice(), &mut filled, waker);
            let ghost chunk = piece@.subrange(filled0, filled as int);
            proof {
                lemma_takes((*old(reader)).incoming(), bytes, between, chunk, (*reader).incoming());
                assert(piece@.subrange(0, filled as int) =~= piece0.subrange(0, filled0) + chunk);
                assert(framer.behind(progress) + piece@.subrange(0, filled as int) =~= (
                framer.behind(progress) + piece0.subrange(0, filled0)) + chunk);
                assert((taken0 + bytes) + chunk =~= taken0 + (bytes + chunk));
                bytes = bytes + chunk;
            }
            assert(polled.reads(&*reader, piece@.len() - filled0, outcome));
            assert(crate::io::takes(polled.incoming(), chunk, (*reader).incoming()));
            assert(crate::io::read_reported(&*reader, piece@.len() - filled, outcome));
            match outcome {
                PollState::Ready(Ok(_)) => {
                    assert(piece@.subrange(0, filled as int) =~= piece@);
                    match framer.supply(progress, piece) {
                        Ok(message) => {
                            return (Self::new(framer), PollState::Ready(Ok(message)));
                        },
                        Err(further) => {
                            progress = further;
                            piece = vec![0u8; framer.want(&progress)];
                            filled = 0;
                            assert(framer.behind(progress) + piece@.subrange(0, 0) =~= taken0
                                + bytes);
                        },
                    }
                },
                PollState::Ready(Err(e)) => {
                    assert(crate::io::read_reported(
                        &*reader,
                        piece@.len() - filled,
                        PollState::Ready(Err::<(), R::Error>(e)),
                    ));
                    return (
                        FrameReading { progress, piece, filled },
                        PollState::Ready(Err(FramingError::Io(e))),
                    );
                },
                PollState::Pending => {
                    return (FrameReading { progress, piece, filled }, PollState::Pending);
                },
            }
        }
    }
}

impl FrameReading<LengthProgress> {
    /// A frame of which a piece is missing is not complete: what was read of it
    /// and fewer bytes than the piece lacks do not hold a frame. So a reader
    /// that stops short of a piece although it has all the bytes of a frame has
    /// not stopped for want of bytes.
    pub proof fn law_short_piece_is_no_frame(&self, left: Seq<u8>)
        requires
            self.wf(&LengthPrefixed),
            left.len() < self.missing(&LengthPrefixed),
        ensures
            first_frame(self.taken(&LengthPrefixed) + left) is None,
    {
        let stream = self.taken(&LengthPrefixed) + left;
        match self.progress {
            LengthProgress::Length => {},
            LengthProgress::Message(len) => {
                law_length_round_trip(len as int);
                assert(stream.subrange(0, 4) =~= length_prefix(len as int));
            },
        }
    }
}

/// A frame that is being written.
pub struct FrameWriting {
    frame: Vec<u8>,
    written: usize,
}

impl FrameWriting {
    /// Validity: no more was written than there is.
    pub closed spec fn wf(&self) -> bool {
        self.written <= self.frame@.len()
    }

    /// The bytes of the frame that have not been written.
    pub closed spec fn rest(&self) -> Seq<u8> {
        self.frame@.skip(self.written as int)
    }

    /// The frame of `data`, of which nothing has been written.
    pub fn new<F: FrameWriter>(framer: &F, data: &[u8]) -> (writing: Self)
        ensures
            writing.wf(),
            writing.rest() == framer.frame(data@),
    {
        let writing = FrameWriting { frame: framer.write_frame(data), written: 0 };
        assert(writing.rest() =~= framer.frame(data@));
        writing
    }

    /// Nothing to write.
    pub fn idle() -> (writing: Self)
        ensures
            writing.wf(),
            writing.rest() == Seq::<u8>::empty(),
    {
        let writing = FrameWriting { frame: Vec::new(), written: 0 };
        assert(writing.rest() =~= Seq::<u8>::empty());
        writing
    }

    /// Puts the frame of `data` behind what is still to be written. A frame
    /// that was begun is so always completed before the next one.
    pub fn push<F: FrameWriter>(&mut self, framer: &F, data: &[u8])
        requires
            old(self).wf(),
        ensures
            final(self).wf(),
            final(self).rest() == old(self).rest() + framer.frame(data@),
    {
        let frame = framer.write_frame(data);
        if self.written >= self.frame.len() {
            self.frame = frame;
            self.written = 0;
        } else {
            self.frame.extend_from_slice(frame.as_slice());
        }
        assert(self.rest() =~= old(self).rest() + framer.frame(data@));
    }

    /// One poll of the write: puts bytes onto the stream until the frame is
    /// complete and flushed, the stream fails or takes no more. No byte of
    /// the frame is put twice or left out.
    pub fn poll<W: AsyncBytesWrite>(&mut self, writer: &mut W, waker: &Waker) -> (outcome:
        PollState<Result<(), FramingError<W::Error>>>)
        requires
            old(self).wf(),
        ensures
            final(self).wf(),
            exists|bytes: Seq<u8>|
                {
                    &&& #[trigger] crate::io::puts(
                        (*old(writer)).outgoing(),
                        bytes,
                        (*final(writer)).outgoing(),
                    )
                    &&& old(self).rest() == bytes + final(self).rest()
                },
            outcome matches PollState::Ready(Ok(_)) ==> final(self).rest() == Seq::<u8>::empty(),
            outcome matches PollState::Ready(Ok(_)) ==> crate::io::flush_reported(
                &*final(writer),
                PollState::Ready(Ok(())),
            ),
            outcome matches PollState::Ready(Err(e)) ==> e is Io,
            outcome matches PollState::Ready(Err(FramingError::Io(e))) ==> {
                ||| crate::io::write_reported(&*final(writer), PollState::Ready(Err(e)))
                ||| crate::io::flush_reported(&*final(writer), PollState::Ready(Err(e)))
            },
            outcome is Pending ==> {
                ||| crate::io::write_reported(&*final(writer), PollState::Pending)
                ||| crate::io::flush_reported(&*final(writer), PollState::Pending)
            },
    {
        let ghost start = self.written as int;
        let ghost asked = *writer;
        let put = writer.poll_write_all(self.frame.as_slice(), &mut self.written, waker);
        let ghost bytes = self.frame@.subrange(start, self.written as int);
        assert(old(self).rest() =~= bytes + self.rest());
        assert(asked.writes(&*writer, put));
        match put {
            PollState::Ready(Ok(_)) => {},
            PollState::Ready(Err(e)) => {
                assert(crate::io::write_reported(
                    &*writer,
                    PollState::Ready(Err::<(), W::Error>(e)),
                ));
                return PollState::Ready(Err(FramingError::Io(e)));
            },
            PollState::Pending => {
                return PollState::Pending;
            },
        }
        let ghost asked = *writer;
        let flushed = writer.poll_flush(waker);
        assert(asked.flushes(&*writer, flushed));
        proof {
            assert(self.rest() =~= Seq::<u8>::empty());
        }
        let ghost said = flushed;
        match flushed {
            PollState::Ready(Ok(done)) => {
                assert(done == ());
                assert(said == PollState::Ready(Ok::<(), W::Error>(())));
                PollState::Ready(Ok(()))
            },
            PollState::Ready(Err(e)) => {
                assert(crate::io::flush_reported(
                    &*writer,
                    PollState::Ready(Err::<(), W::Error>(e)),
                ));
                PollState::Ready(Err(FramingError::Io(e)))
            },
            PollState::Pending => PollState::Pending,
        }
    }
}

impl LengthProgress {
    /// The framing error when the stream fails here. A stream that ends
    /// between two frames was closed; one that ends inside a frame is broken.
    pub fn interrupted<E>(&self, e: E, at_end: bool) -> (error: FramingError<E>)
        ensures
            error == if at_end && self is Length {
                FramingError::<E>::Closed
            } else {
                FramingError::Io(e)
            },
    {
        match self {
            LengthProgress::Length => FramingError::from_stream(e, at_end),
            LengthProgress::Message(_) => FramingError::Io(e),
        }
    }
}

/// The message of the first frame in `stream`, and what follows the frame;
/// `None` if the stream does not hold a complete frame.
pub open spec fn first_frame(stream: Seq<u8>) -> Option<(Seq<u8>, Seq<u8>)> {
    if stream.len() < 4 {
        None
    } else {
        let len = announced_length(stream.subrange(0, 4));
        if stream.len() < 4 + len {
            None
        } else {
            Some((stream.subrange(4, 4 + len), stream.skip(4 + len)))
        }
    }
}

/// The messages of all complete frames at the head of `stream`.
pub open spec fn all_frames(stream: Seq<u8>) -> Seq<Seq<u8>>
    decreases stream.len(),
{
    match first_frame(stream) {
        Some((message, rest)) if rest.len() < stream.len() => seq![message] + all_frames(rest),
        _ => Seq::empty(),
    }
}

/// The frames of `messages`, one after the other.
pub open spec fn frame_all(messages: Seq<Seq<u8>>) -> Seq<u8>
    decreases messages.len(),
{
    if messages.len() == 0 {
        Seq::empty()
    } else {
        length_prefixed(messages[0]) + frame_all(messages.skip(1))
    }
}

/// A length prefix announces the length that it was made for.
pub proof fn law_length_round_trip(len: int)
    requires
        0 <= len < 0x1_0000_0000,
    ensures
        announced_length(length_prefix(len)) == len,
        length_prefix(len).len() == 4,
{
}

/// Reading the frame of a message gives back the message and leaves what
/// follows the frame. A message of 2^32 bytes or more cannot be announced.
pub proof fn law_frame_round_trip(data: Seq<u8>, rest: Seq<u8>)
    requires
        data.len() < 0x1_0000_0000,
    ensures
        first_frame(length_prefixed(data) + rest) == Some((data, rest)),
{
    law_length_round_trip(data.len() as int);
    let stream = length_prefixed(data) + rest;
    assert(stream.subrange(0, 4) =~= length_prefix(data.len() as int));
    assert(stream.subrange(4, 4 + data.len() as int) =~= data);
    assert(stream.skip(4 + data.len() as int) =~= rest);
}

/// A stream of frames is read back as the messages that were framed.
pub proof fn law_frames_round_trip(messages: Seq<Seq<u8>>)
    requires
        forall|i: int| 0 <= i < messages.len() ==> (#[trigger] messages[i]).len() < 0x1_0000_0000,
    ensures
        all_frames(frame_all(messages)) == messages,
    decreases messages.len(),
{
    if messages.len() == 0 {
        assert(all_frames(frame_all(messages)) =~= messages);
    } else {
        let tail = messages.skip(1);
        law_frames_round_trip(tail);
        law_frame_round_trip(messages[0], frame_all(tail));
        assert(seq![messages[0]] + tail =~= messages);
    }
}

/// What is read as a message from the frames of a stream is the message that
/// was framed first, and what follows its frame stays on the stream.
pub proof fn law_written_frame_is_read_back(
    message: Seq<u8>,
    rest: Seq<u8>,
    read: Seq<u8>,
    left: Seq<u8>,
)
    requires
        message.len() < 0x1_0000_0000,
        read.len() < 0x1_0000_0000,
        length_prefixed(message) + rest == length_prefixed(read) + left,
    ensures
        read == message,
        left == rest,
{
    law_frame_round_trip(message, rest);
    law_frame_round_trip(read, left);
}

/// Reading piece by piece is reading the first frame: a reader that is fed
/// from `stream` ends up with the first frame's message.
pub proof fn law_pieces_make_the_frame(stream: Seq<u8>)
    requires
        first_frame(stream) is Some,
    ensures
        ({
            let framer = LengthPrefixed;
            let head = stream.subrange(0, framer.wanted(framer.start()));
            let middle = framer.supplied(framer.start(), head);
            let message = stream.skip(4).subrange(0, framer.wanted(middle->Err_0));
            &&& middle is Err
            &&& first_frame(stream) matches Some((first, _)) && framer.supplied(
                middle->Err_0,
                message,
            ) == Ok::<Seq<u8>, LengthProgress>(first)
        }),
{
    let len = announced_length(stream.subrange(0, 4));
    assert(stream.skip(4).subrange(0, len) =~= stream.subrange(4, 4 + len));
}

/// The length stands in front of the message in four bytes, the low one first.
pub proof fn law_length_comes_low_byte_first(data: Seq<u8>)
    requires
        data.len() < 0x1_0000_0000,
    ensures
        length_prefixed(data).len() == 4 + data.len(),
        length_prefixed(data)[0] + 0x100 * length_prefixed(data)[1] + 0x1_0000 * length_prefixed(
            data,
        )[2] + 0x100_0000 * length_prefixed(data)[3] == data.len(),
        forall|i: int|
            0 <= i < data.len() ==> #[trigger] length_prefixed(data)[4 + i] == data[i],
{
    law_length_round_trip(data.len() as int);
}

} // verus!
