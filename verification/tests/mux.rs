//! Multiplexing by api id.

use myelin::error::ErrorText;
use myelin::stream::mux::{
    parse_api_id, prefix_api_id, strip_api_id, tag_response, ApiRouter, MuxError, ServiceApiId,
};

type Handler = Box<dyn Fn(&[u8]) -> Result<Vec<u8>, String> + Send + Sync>;

fn echo_handler(req: &[u8]) -> Result<Vec<u8>, String> {
    Ok(req.to_vec())
}

fn reverse_handler(req: &[u8]) -> Result<Vec<u8>, String> {
    let mut v = req.to_vec();
    v.reverse();
    Ok(v)
}

fn error_handler(_req: &[u8]) -> Result<Vec<u8>, String> {
    Err("handler failed".into())
}

fn boxed(f: fn(&[u8]) -> Result<Vec<u8>, String>) -> Handler {
    Box::new(f)
}

#[test]
fn test_prefix_api_id() {
    let frame = prefix_api_id(0x0001, b"hello");
    assert_eq!(frame.len(), 2 + 5);
    assert_eq!(&frame[..2], &[0x01, 0x00]);
    assert_eq!(&frame[2..], b"hello");
}

#[test]
fn test_prefix_api_id_empty_payload() {
    let frame = prefix_api_id(0xABCD, &[]);
    assert_eq!(frame.len(), 2);
    assert_eq!(&frame, &[0xCD, 0xAB]);
}

#[test]
fn test_prefix_api_id_large_id() {
    let frame = prefix_api_id(0xFFFF, &[42]);
    assert_eq!(&frame[..2], &[0xFF, 0xFF]);
    assert_eq!(frame[2], 42);
}

#[test]
fn test_strip_api_id_success() {
    let frame = prefix_api_id(0x0001, b"hello");
    let payload = strip_api_id(0x0001, &frame).unwrap();
    assert_eq!(payload, b"hello");
}

#[test]
fn test_strip_api_id_wrong_id() {
    let frame = prefix_api_id(0x0001, b"hello");
    let err = strip_api_id(0x0002, &frame).unwrap_err();
    match err {
        MuxError::UnknownApiId(id) => assert_eq!(id, 0x0001),
        other => panic!("expected UnknownApiId, got: {}", other.to_text()),
    }
}

#[test]
fn test_strip_api_id_too_short_empty() {
    let err = strip_api_id(0x0001, &[]).unwrap_err();
    assert!(matches!(err, MuxError::FrameTooShort));
}

#[test]
fn test_strip_api_id_too_short_one_byte() {
    let err = strip_api_id(0x0001, &[0x01]).unwrap_err();
    assert!(matches!(err, MuxError::FrameTooShort));
}

#[test]
fn test_strip_api_id_exact_header() {
    let frame = prefix_api_id(0x0042, &[]);
    let payload = strip_api_id(0x0042, &frame).unwrap();
    assert!(payload.is_empty());
}

#[test]
fn test_parse_api_id() {
    let frame = prefix_api_id(0x1234, b"data");
    let (api_id, payload) = parse_api_id(&frame).unwrap();
    assert_eq!(api_id, 0x1234);
    assert_eq!(payload, b"data");
}

#[test]
fn test_parse_api_id_too_short() {
    let err = parse_api_id(&[0x01]).unwrap_err();
    assert!(matches!(err, MuxError::FrameTooShort));
}

#[test]
fn test_router_dispatch() {
    let mut router = ApiRouter::new();
    router.register(0x0001, boxed(echo_handler));

    let frame = prefix_api_id(0x0001, b"test");
    let response = router.dispatch(&frame).unwrap();

    let (api_id, payload) = parse_api_id(&response).unwrap();
    assert_eq!(api_id, 0x0001);
    assert_eq!(payload, b"test");
}

#[test]
fn test_router_unknown_api_id() {
    let router: ApiRouter<Handler> = ApiRouter::new();

    let frame = prefix_api_id(0x0099, b"test");
    let err = router.dispatch(&frame).unwrap_err();
    match err {
        MuxError::UnknownApiId(id) => assert_eq!(id, 0x0099),
        other => panic!("expected UnknownApiId, got: {}", other.to_text()),
    }
}

#[test]
fn test_router_multiple_apis() {
    let mut router = ApiRouter::new();
    router.register(0x0001, boxed(echo_handler));
    router.register(0x0002, boxed(reverse_handler));

    let frame1 = prefix_api_id(0x0001, b"abc");
    let resp1 = router.dispatch(&frame1).unwrap();
    let (id1, payload1) = parse_api_id(&resp1).unwrap();
    assert_eq!(id1, 0x0001);
    assert_eq!(payload1, b"abc");

    let frame2 = prefix_api_id(0x0002, b"abc");
    let resp2 = router.dispatch(&frame2).unwrap();
    let (id2, payload2) = parse_api_id(&resp2).unwrap();
    assert_eq!(id2, 0x0002);
    assert_eq!(payload2, b"cba");
}

#[test]
fn test_router_handler_error() {
    let mut router = ApiRouter::new();
    router.register(0x0001, boxed(error_handler));

    let frame = prefix_api_id(0x0001, b"test");
    let err = router.dispatch(&frame).unwrap_err();
    assert!(matches!(err, MuxError::Handler(_)));
    assert_eq!(err.to_text(), "handler error: handler failed");
}

#[test]
fn test_router_frame_too_short() {
    let router: ApiRouter<Handler> = ApiRouter::new();

    let err = router.dispatch(&[]).unwrap_err();
    assert!(matches!(err, MuxError::FrameTooShort));

    let err = router.dispatch(&[0x01]).unwrap_err();
    assert!(matches!(err, MuxError::FrameTooShort));
}

#[test]
fn test_router_builder_chain() {
    let mut router = ApiRouter::new();
    router
        .register(0x0001, boxed(echo_handler))
        .register(0x0002, boxed(reverse_handler));

    assert_eq!(router.len(), 2);
    assert!(!router.is_empty());
    assert!(router.has_handler(0x0001));
    assert!(router.has_handler(0x0002));
    assert!(!router.has_handler(0x0003));
}

#[test]
fn test_router_replace_handler() {
    let mut router = ApiRouter::new();
    router.register(0x0001, boxed(echo_handler));
    router.register(0x0001, boxed(reverse_handler));

    assert_eq!(router.len(), 1);
    let response = router.dispatch(&prefix_api_id(0x0001, b"ab")).unwrap();
    assert_eq!(response, prefix_api_id(0x0001, b"ba"));
}

#[test]
fn test_router_default() {
    let router: ApiRouter<Handler> = ApiRouter::default();
    assert!(router.is_empty());
}

#[test]
fn test_prefix_strip_round_trip() {
    let api_id = 0x1234u16;
    let payload = b"hello world";

    let frame = prefix_api_id(api_id, payload);
    let stripped = strip_api_id(api_id, &frame).unwrap();
    assert_eq!(stripped, payload);
}

#[test]
fn test_mux_error_display() {
    let err = MuxError::UnknownApiId(0x0042);
    assert_eq!(err.to_text(), "unknown api_id: 0x0042");

    let err = MuxError::FrameTooShort;
    assert_eq!(err.to_text(), "frame too short for api_id (< 2 bytes)");

    let err = MuxError::Handler("test error".into());
    assert_eq!(err.to_text(), "handler error: test error");
}

struct TestService;

impl ServiceApiId for TestService {
    const API_ID: u16 = 0x0042;
}

#[test]
fn test_service_api_id() {
    assert_eq!(TestService::API_ID, 0x0042);
}

#[test]
fn hexadecimal_digits_are_lower_case() {
    assert_eq!(MuxError::UnknownApiId(0xABCF).to_text(), "unknown api_id: 0xabcf");
    assert_eq!(MuxError::UnknownApiId(0x1234).to_text(), "unknown api_id: 0x1234");
    assert_eq!(MuxError::UnknownApiId(0x56de).to_text(), "unknown api_id: 0x56de");
    assert_eq!(MuxError::UnknownApiId(0x9870).to_text(), "unknown api_id: 0x9870");
}

#[test]
fn a_frame_is_the_prefix_of_its_payload() {
    let frame = [0xCD, 0xAB, 1, 2, 3];
    let (api_id, payload) = parse_api_id(&frame).unwrap();
    assert_eq!(prefix_api_id(api_id, payload), frame);
}

#[test]
fn responses_are_tagged() {
    assert_eq!(tag_response(0x0102, Ok(vec![9])).unwrap(), vec![0x02, 0x01, 9]);
    assert!(matches!(tag_response(1, Err("no".into())), Err(MuxError::Handler(m)) if m == "no"));
}

#[test]
fn handlers_can_be_looked_up() {
    let mut router = ApiRouter::new();
    router.register(7, boxed(reverse_handler));
    let handler = router.handler(7).unwrap();
    assert_eq!(handler(b"xyz").unwrap(), b"zyx");
    assert!(router.handler(8).is_none());
}
