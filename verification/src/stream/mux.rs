//! Multiplexing of several APIs over one framed byte stream.
//!
//! Every frame starts with the 16-bit id of the API that it belongs to, in
//! little-endian order; the framing layer delimits the whole message.
//!
//! The server side keeps an [`ApiRouter`], which peels off the id, hands the
//! rest to the handler of that API and tags the response with the same id.
//! The client side uses [`prefix_api_id`] and [`strip_api_id`].

use vstd::prelude::*;

use crate::error::{text_with, ErrorText};
use crate::text::hex4_text;
use std::collections::HashMap;

verus! {

broadcast use vstd::std_specs::hash::group_hash_axioms;

/// Number of bytes that an api id takes at the head of a frame.
pub const API_ID_LEN: usize = 2;

/// Errors of the multiplexing layer.
#[derive(Debug)]
pub enum MuxError {
    /// No handler is registered for this api id.
    UnknownApiId(u16),
    /// The frame is too short to hold an api id.
    FrameTooShort,
    /// The handler of the API failed with this message.
    Handler(String),
}

impl ErrorText for MuxError {
    open spec fn text(&self) -> Seq<char> {
        match self {
            MuxError::UnknownApiId(id) => "unknown api_id: 0x"@ + crate::text::hex4(*id),
            MuxError::FrameTooShort => "frame too short for api_id (< 2 bytes)"@,
            MuxError::Handler(e) => "handler error: "@ + e@,
        }
    }

    fn to_text(&self) -> (text: String) {
        match self {
            MuxError::UnknownApiId(id) => text_with("unknown api_id: 0x", hex4_text(*id).as_str()),
            MuxError::FrameTooShort => "frame too short for api_id (< 2 bytes)".to_owned(),
            MuxError::Handler(e) => text_with("handler error: ", e.as_str()),
        }
    }
}

/// A service with an api id of its own.
pub trait ServiceApiId {
    /// The id that names the service on the wire.
    const API_ID: u16;
}

/// `api_id` in little-endian order.
pub open spec fn api_id_bytes(api_id: u16) -> Seq<u8> {
    seq![(api_id % 256) as u8, (api_id / 256) as u8]
}

/// The api id at the head of `frame`, if the frame is long enough.
pub open spec fn frame_api_id(frame: Seq<u8>) -> Option<u16> {
    if frame.len() < 2 {
        None
    } else {
        Some((frame[0] + 256 * frame[1]) as u16)
    }
}

/// `api_id` followed by `payload`.
pub fn prefix_api_id(api_id: u16, payload: &[u8]) -> (frame: Vec<u8>)
    ensures
        frame@ == api_id_bytes(api_id) + payload@,
{
    let mut frame: Vec<u8> = Vec::new();
    frame.push((api_id % 256) as u8);
    frame.push((api_id / 256) as u8);
    frame.extend_from_slice(payload);
    frame
}

/// Splits a frame into its api id and its payload.
pub fn parse_api_id(frame: &[u8]) -> (parsed: Result<(u16, &[u8]), MuxError>)
    ensures
        match frame_api_id(frame@) {
            Some(id) => parsed matches Ok((i, payload)) && i == id && payload@ == frame@.skip(2),
            None => parsed == Err::<(u16, &[u8]), _>(MuxError::FrameTooShort),
        },
{
    if frame.len() < API_ID_LEN {
        return Err(MuxError::FrameTooShort);
    }
    let api_id: u16 = frame[0] as u16 + 256 * (frame[1] as u16);
    let payload = vstd::slice::slice_subrange(frame, API_ID_LEN, frame.len());
    assert(payload@ =~= frame@.skip(2));
    Ok((api_id, payload))
}

/// The payload of a frame that belongs to API `expected_api_id`.
pub fn strip_api_id(expected_api_id: u16, frame: &[u8]) -> (stripped: Result<&[u8], MuxError>)
    ensures
        match frame_api_id(frame@) {
            Some(id) if id == expected_api_id => stripped matches Ok(payload) && payload@
                == frame@.skip(2),
            Some(id) => stripped == Err::<&[u8], _>(MuxError::UnknownApiId(id)),
            None => stripped == Err::<&[u8], _>(MuxError::FrameTooShort),
        },
{
    match parse_api_id(frame) {
        Ok((api_id, payload)) => {
            if api_id != expected_api_id {
                Err(MuxError::UnknownApiId(api_id))
            } else {
                Ok(payload)
            }
        },
        Err(e) => Err(e),
    }
}

/// A handler for the requests of one API. It sees the bytes that follow the
/// api id and is in charge of their encoding.
pub trait ApiHandler: Send + Sync {
    /// Whether the handler can be called on every request.
    open spec fn ready(&self) -> bool {
        true
    }

    /// Whether the handler may answer `request` with `response`.
    open spec fn answers(&self, request: &[u8], response: Result<Vec<u8>, String>) -> bool {
        true
    }

    /// Handles a request: the bytes of the response, or an error message.
    fn handle(&self, request: &[u8]) -> (response: Result<Vec<u8>, String>)
        requires
            self.ready(),
        ensures
            self.answers(request, response),
    ;
}

/// A plain function on bytes is a handler.
impl<F> ApiHandler for F where F: Fn(&[u8]) -> Result<Vec<u8>, String> + Send + Sync {
    open spec fn ready(&self) -> bool {
        forall|request: &[u8]| #[trigger] call_requires(*self, (request,))
    }

    open spec fn answers(&self, request: &[u8], response: Result<Vec<u8>, String>) -> bool {
        call_ensures(*self, (request,), response)
    }

    fn handle(&self, request: &[u8]) -> (response: Result<Vec<u8>, String>) {
        self(request)
    }
}

/// What the router sends back when the handler of `api_id` answered with
/// `response`.
pub open spec fn tagged_response(
    api_id: u16,
    response: Result<Vec<u8>, String>,
    frame: Result<Vec<u8>, MuxError>,
) -> bool {
    match response {
        Ok(bytes) => frame matches Ok(f) && f@ == api_id_bytes(api_id) + bytes@,
        Err(message) => frame == Err::<Vec<u8>, _>(MuxError::Handler(message)),
    }
}

/// Tags a handler's answer with the id of its API.
pub fn tag_response(api_id: u16, response: Result<Vec<u8>, String>) -> (frame: Result<
    Vec<u8>,
    MuxError,
>)
    ensures
        tagged_response(api_id, response, frame),
{
    match response {
        Ok(bytes) => Ok(prefix_api_id(api_id, bytes.as_slice())),
        Err(message) => Err(MuxError::Handler(message)),
    }
}

/// Server-side registry of handlers by api id.
///
/// Handlers of different types share a router as boxed functions.
pub struct ApiRouter<H> {
    handlers: HashMap<u16, H>,
}

impl<H> View for ApiRouter<H> {
    type V = Map<u16, H>;

    closed spec fn view(&self) -> Map<u16, H> {
        self.handlers@
    }
}

impl<H: ApiHandler> ApiRouter<H> {
    /// Validity: every registered handler can be called.
    pub open spec fn wf(&self) -> bool {
        forall|api_id: u16| #[trigger] self@.contains_key(api_id) ==> self@[api_id].ready()
    }

    /// A router without handlers.
    pub fn new() -> (router: Self)
        ensures
            router.wf(),
            router@ == Map::<u16, H>::empty(),
    {
        ApiRouter { handlers: HashMap::new() }
    }

    /// Registers the handler for `api_id`; it replaces an earlier one. The
    /// router is returned for chaining.
    pub fn register(&mut self, api_id: u16, handler: H) -> (router: &mut Self)
        requires
            old(self).wf(),
            handler.ready(),
        ensures
            router.wf(),
            router@ == old(self)@.insert(api_id, handler),
            *final(self) == *final(router),
    {
        let ghost before = self@;
        self.handlers.insert(api_id, handler);
        assert forall|id: u16| #[trigger] self@.contains_key(id) implies self@[id].ready() by {
            assert(id == api_id || before.contains_key(id));
        }
        self
    }

    /// Handles a complete frame and returns the complete response frame.
    pub fn dispatch(&self, frame: &[u8]) -> (response: Result<Vec<u8>, MuxError>)
        requires
            self.wf(),
        ensures
            match frame_api_id(frame@) {
                None => response == Err::<Vec<u8>, _>(MuxError::FrameTooShort),
                Some(id) if !self@.contains_key(id) => response == Err::<Vec<u8>, _>(
                    MuxError::UnknownApiId(id),
                ),
                Some(id) => exists|request: &[u8], answer: Result<Vec<u8>, String>|
                    request@ == frame@.skip(2) && #[trigger] self@[id].answers(request, answer)
                        && tagged_response(id, answer, response),
            },
    {
        match parse_api_id(frame) {
            Ok((api_id, payload)) => {
                match self.handlers.get(&api_id) {
                    Some(handler) => {
                        assert(self@.contains_key(api_id));
                        let answer = handler.handle(payload);
                        tag_response(api_id, answer)
                    },
                    None => Err(MuxError::UnknownApiId(api_id)),
                }
            },
            Err(e) => Err(e),
        }
    }

    /// The handler for `api_id`, if there is one.
    pub fn handler(&self, api_id: u16) -> (handler: Option<&H>)
        ensures
            match handler {
                Some(h) => self@.contains_key(api_id) && *h == self@[api_id],
                None => !self@.contains_key(api_id),
            },
    {
        self.handlers.get(&api_id)
    }

    /// Number of registered handlers.
    pub fn len(&self) -> (len: usize)
        ensures
            len == self@.dom().len(),
    {
        self.handlers.len()
    }

    /// Whether no handler is registered.
    pub fn is_empty(&self) -> (empty: bool)
        ensures
            empty == self@.dom().is_empty(),
    {
        self.handlers.is_empty()
    }

    /// Whether a handler is registered for `api_id`.
    pub fn has_handler(&self, api_id: u16) -> (found: bool)
        ensures
            found == self@.contains_key(api_id),
    {
        self.handlers.contains_key(&api_id)
    }
}

impl<H: ApiHandler> Default for ApiRouter<H> {
    fn default() -> (router: Self)
        ensures
            router.wf(),
            router@ == Map::<u16, H>::empty(),
    {
        Self::new()
    }
}

/// What was prefixed can be parsed and stripped again.
pub proof fn law_parse_inverts_prefix(api_id: u16, payload: Seq<u8>)
    ensures
        frame_api_id(api_id_bytes(api_id) + payload) == Some(api_id),
        (api_id_bytes(api_id) + payload).skip(2) == payload,
{
    assert((api_id_bytes(api_id) + payload).skip(2) =~= payload);
}

/// Every frame that holds an api id is the prefix of its payload.
pub proof fn law_prefix_inverts_parse(frame: Seq<u8>)
    requires
        frame_api_id(frame) is Some,
    ensures
        frame == api_id_bytes(frame_api_id(frame)->0) + frame.skip(2),
{
    assert(frame =~= api_id_bytes(frame_api_id(frame)->0) + frame.skip(2));
}

/// A successful response carries the api id of its request.
pub proof fn law_response_carries_request_id(
    api_id: u16,
    answer: Result<Vec<u8>, String>,
    response: Result<Vec<u8>, MuxError>,
)
    requires
        tagged_response(api_id, answer, response),
        response is Ok,
    ensures
        frame_api_id(response->Ok_0@) == Some(api_id),
        answer matches Ok(bytes) && response->Ok_0@.skip(2) == bytes@,
{
    law_parse_inverts_prefix(api_id, answer->Ok_0@);
}

/// The api id stands in front of the payload in two bytes, the low one first.
/// Exactly the frames that are shorter than that hold none.
pub proof fn law_api_id_comes_low_byte_first(api_id: u16, frame: Seq<u8>)
    ensures
        api_id_bytes(api_id).len() == 2,
        api_id_bytes(api_id)[0] + 256 * api_id_bytes(api_id)[1] == api_id,
        frame_api_id(frame) is None <==> frame.len() < 2,
        frame.len() >= 2 ==> frame_api_id(frame)->0 == frame[0] + 256 * frame[1],
{
}

/// The error of a handler is handed on as it is, and is the only error of a
/// request that reached its handler.
pub proof fn law_handler_error_is_handed_on(
    api_id: u16,
    answer: Result<Vec<u8>, String>,
    response: Result<Vec<u8>, MuxError>,
)
    requires
        tagged_response(api_id, answer, response),
    ensures
        answer is Ok <==> response is Ok,
        answer matches Err(message) ==> response == Err::<Vec<u8>, _>(MuxError::Handler(message)),
{
}

} // verus!
