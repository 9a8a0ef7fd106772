//! Names for the message encodings.

use vstd::prelude::*;

use crate::error::{text_with, ErrorText};

verus! {

/// Messages in the postcard encoding.
#[derive(Debug, Default, Clone, Copy)]
pub struct PostcardCodec;

/// Messages in the CBOR encoding.
#[derive(Debug, Default, Clone, Copy)]
pub struct CborCodec;

/// Errors of the CBOR encoding. `E` is the encoder's error, `D` the decoder's.
#[derive(Debug)]
pub enum CborCodecError<E, D> {
    /// A message could not be encoded.
    Encode(E),
    /// A message could not be decoded.
    Decode(D),
}

impl<E: ErrorText, D: ErrorText> ErrorText for CborCodecError<E, D> {
    open spec fn text(&self) -> Seq<char> {
        match self {
            CborCodecError::Encode(e) => "cbor encode error: "@ + e.text(),
            CborCodecError::Decode(e) => "cbor decode error: "@ + e.text(),
        }
    }

    fn to_text(&self) -> (text: String) {
        match self {
            CborCodecError::Encode(e) => text_with("cbor encode error: ", e.to_text().as_str()),
            CborCodecError::Decode(e) => text_with("cbor decode error: ", e.to_text().as_str()),
        }
    }
}

} // verus!
