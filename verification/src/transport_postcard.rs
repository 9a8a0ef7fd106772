//! Postcard messages over a blocking byte stream, one request at a time.

use vstd::prelude::*;

use crate::error::{text_with, CallError, ErrorText, TransportResult};
use crate::io::BlockingIo;
use crate::stream::codec::PostcardCodec;
use crate::stream::framing::{FramingError, LengthPrefixed};
use crate::stream::routing::Sequential;
use crate::stream::transport::{StreamReplyToken, StreamTransport};

verus! {

/// A stream with length-prefixed postcard messages.
pub type PostcardStream<R, W, Incoming, Outgoing> = StreamTransport<
    BlockingIo<R>,
    BlockingIo<W>,
    LengthPrefixed,
    PostcardCodec,
    Sequential,
    Incoming,
    Outgoing,
>;

/// Answers a request of a [`PostcardStream`].
pub type PostcardReplyToken = StreamReplyToken<Sequential>;

/// A [`PostcardStream`] over the two halves of a byte stream.
pub fn new_postcard_stream<R, W, Incoming, Outgoing>(reader: R, writer: W) -> (stream:
    PostcardStream<R, W, Incoming, Outgoing>)
    ensures
        stream.idle_reader() == Some(BlockingIo(reader)),
        stream.idle_writer() == Some(BlockingIo(writer)),
        stream.layers() == (LengthPrefixed, PostcardCodec),
        stream.stored_router() == Sequential,
        stream.backlog() == crate::stream::transport::no_backlog(),
        !stream.reader_waiting(),
        !stream.writer_waiting(),
{
    StreamTransport::with_layers(
        BlockingIo::new(reader),
        BlockingIo::new(writer),
        LengthPrefixed,
        PostcardCodec,
        Sequential,
    )
}

/// Errors of a postcard stream. `I` is the error of the byte stream, `P` that
/// of the codec.
#[derive(Debug)]
pub enum PostcardStreamError<I, P> {
    /// The byte stream failed.
    Io(I),
    /// A message could not be encoded or decoded.
    Postcard(P),
    /// The byte stream has ended.
    Closed,
}

impl<I: ErrorText, P: ErrorText> ErrorText for PostcardStreamError<I, P> {
    open spec fn text(&self) -> Seq<char> {
        match self {
            PostcardStreamError::Io(e) => "I/O error: "@ + e.text(),
            PostcardStreamError::Postcard(e) => "postcard error: "@ + e.text(),
            PostcardStreamError::Closed => "stream closed"@,
        }
    }

    fn to_text(&self) -> (text: String) {
        match self {
            PostcardStreamError::Io(e) => text_with("I/O error: ", e.to_text().as_str()),
            PostcardStreamError::Postcard(e) => text_with("postcard error: ", e.to_text().as_str()),
            PostcardStreamError::Closed => "stream closed".to_owned(),
        }
    }
}

impl<I, P> PostcardStreamError<I, P> {
    /// The error of the stream for an error of its framing.
    pub fn from_framing(e: FramingError<I>) -> (error: Self)
        ensures
            error == match e {
                FramingError::Io(io) => PostcardStreamError::<I, P>::Io(io),
                FramingError::Closed => PostcardStreamError::Closed,
            },
    {
        match e {
            FramingError::Io(io) => PostcardStreamError::Io(io),
            FramingError::Closed => PostcardStreamError::Closed,
        }
    }
}

impl<T, I, P> TransportResult<T> for PostcardStreamError<I, P> {
    type Output = Result<T, CallError<PostcardStreamError<I, P>>>;

    open spec fn output(result: Result<T, Self>) -> Self::Output {
        crate::error::call_result(result)
    }

    fn into_output(result: Result<T, Self>) -> (output: Self::Output) {
        crate::error::into_call_result(result)
    }
}

} // verus!
