//! Calls over byte streams.

pub mod call;
pub mod codec;
pub mod duplex;
pub mod framing;
pub mod mux;
pub mod reply;
pub mod routing;
pub mod transport;

pub use codec::{CborCodec, CborCodecError, PostcardCodec};
pub use duplex::{
    DuplexClientHalf, DuplexPumpError, DuplexServerHalf, DuplexShared, DuplexStreamTransport,
};
pub use framing::{FrameReader, FrameWriter, FramingError, LengthPrefixed};
pub use routing::{MuxedSlots, ReplyRouter, Sequential};
pub use transport::{StreamReplyToken, StreamTransport, StreamTransportError};
