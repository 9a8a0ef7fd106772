//! In-process transports, error texts and small helpers.

use core::convert::Infallible;
use myelin::channel::{reply_pair, ReplyReceiver, ReplySender};
use myelin::error::{into_call_result, text_with, CallError, ErrorText, TransportResult};
use myelin::text::{
    concat_texts, decimal_text, hex4_text, join_texts, strip_suffix, text_is,
};
use myelin::transport_embassy::{
    EmbassyLocalError, EmbassyReplyToken, ReplyGate, ReplySlots,
};
use myelin::transport_local::LocalService;
use myelin::transport_smol::SmolLocalError;
use myelin::transport_tokio::TokioLocalError;

#[test]
fn reply_slots_are_taken_from_the_lowest() {
    let mut slots: ReplySlots<3> = ReplySlots::new();
    assert_eq!(slots.acquire_slot(), Some(0));
    assert_eq!(slots.acquire_slot(), Some(1));
    assert_eq!(slots.acquire_slot(), Some(2));
    assert_eq!(slots.acquire_slot(), None);
    slots.release_slot(1);
    assert_eq!(slots.acquire_slot(), Some(1));
    assert_eq!(slots.acquire_slot(), None);
}

#[test]
fn released_reply_slot_is_available_again() {
    let mut slots: ReplySlots<2> = ReplySlots::new();
    let token = slots.begin_call().unwrap();
    assert!(token == EmbassyReplyToken(0, 0));
    slots.release_slot(token.0);
    assert_eq!(slots.acquire_slot(), Some(0));
    assert_eq!(slots.acquire_slot(), Some(1));
    assert_eq!(slots.acquire_slot(), None);
}

#[test]
fn eight_callers_fit() {
    let mut slots: ReplySlots<8> = ReplySlots::new();
    for i in 0..8u8 {
        assert_eq!(slots.acquire_slot(), Some(i));
    }
    match slots.begin_call() {
        Err(e) => {
            assert!(matches!(e, EmbassyLocalError::NoReplySlot));
            assert_eq!(e.to_text(), "no reply slot available");
        }
        Ok(_) => panic!("all slots are in use"),
    }
    slots.release_slot(7);
    assert_eq!(slots.acquire_slot(), Some(7));
}

#[test]
fn no_callers_means_no_slots() {
    let mut slots: ReplySlots<0> = ReplySlots::new();
    assert_eq!(slots.acquire_slot(), None);
}

#[test]
fn service_is_served_once() {
    let mut service = LocalService::new("tx", vec![1, 2]);
    assert!(!service.is_served());
    assert_eq!(*service.client(), "tx");
    assert_eq!(service.server(), vec![1, 2]);
    assert!(service.is_served());
    assert_eq!(*service.client(), "tx");
}

#[test]
fn closed_tokio_channel_fails_the_call() {
    assert!(matches!(TokioLocalError::from_channel::<u8, &str>(Ok(3)), Ok(3)));
    assert!(matches!(
        TokioLocalError::from_channel::<u8, &str>(Err("closed")),
        Err(TokioLocalError::ChannelClosed)
    ));
    assert!(matches!(TokioLocalError::from_receipt(Some(3)), Ok(3)));
    assert!(matches!(
        TokioLocalError::from_receipt::<u8>(None),
        Err(TokioLocalError::ChannelClosed)
    ));
    assert_eq!(TokioLocalError::ChannelClosed.to_text(), "channel closed");
    match <TokioLocalError as TransportResult<u8>>::into_output(Err(
        TokioLocalError::ChannelClosed,
    )) {
        Err(e) => assert_eq!(e.to_text(), "transport error: channel closed"),
        Ok(_) => panic!("there is no value"),
    }
}

#[test]
fn closed_smol_channel_fails_the_call() {
    assert!(matches!(SmolLocalError::from_channel::<u8, &str>(Ok(3)), Ok(3)));
    assert!(matches!(
        SmolLocalError::from_channel::<u8, &str>(Err("closed")),
        Err(SmolLocalError::ChannelClosed)
    ));
    assert_eq!(SmolLocalError::ChannelClosed.to_text(), "channel closed");
    assert!(matches!(<SmolLocalError as TransportResult<u8>>::into_output(Ok(9)), Ok(9)));
}

#[test]
fn call_errors_read_well() {
    let e: CallError<String> = CallError::Transport("gone".to_string());
    assert_eq!(e.to_text(), "transport error: gone");
    assert_eq!(CallError::<String>::Cancelled.to_text(), "request cancelled by service");
    assert!(matches!(into_call_result::<u8, u8>(Err(4)), Err(CallError::Transport(4))));
    assert!(matches!(into_call_result::<u8, u8>(Ok(5)), Ok(5)));
    assert_eq!(text_with("a: ", "b"), "a: b");
}

#[test]
fn infallible_transport_hands_out_the_value() {
    let value: u8 = <Infallible as TransportResult<u8>>::into_output(Ok(6));
    assert_eq!(value, 6);
}

#[test]
fn reply_has_two_ends() {
    let (_tx, _rx): (ReplySender<u8>, ReplyReceiver<u8>) = reply_pair();
}

#[test]
fn numbers_are_spelled_out() {
    assert_eq!(decimal_text(0), "0");
    assert_eq!(decimal_text(70000), "70000");
    assert_eq!(decimal_text(u64::MAX), "18446744073709551615");
    assert_eq!(hex4_text(0), "0000");
    assert_eq!(hex4_text(0xBEEF), "beef");
    assert_eq!(hex4_text(0x1a), "001a");
}

#[test]
fn texts_are_put_together_and_cut() {
    let parts = vec!["a".to_string(), "".to_string(), "c".to_string()];
    assert_eq!(join_texts(&parts, ", "), "a, , c");
    assert_eq!(concat_texts(&parts), "ac");
    assert_eq!(join_texts(&vec![], ", "), "");
    assert_eq!(join_texts(&vec!["x".to_string()], ", "), "x");
    assert_eq!(strip_suffix(&"GreeterService".to_string(), "Service"), Some("Greeter".to_string()));
    assert_eq!(strip_suffix(&"Service".to_string(), "Service"), Some("".to_string()));
    assert_eq!(strip_suffix(&"ServiceX".to_string(), "Service"), None);
    assert_eq!(strip_suffix(&"ice".to_string(), "Service"), None);
    assert!(text_is(&"abc".to_string(), "abc"));
    assert!(!text_is(&"abc".to_string(), "abd"));
}

#[test]
fn cancelled_call_leaks_no_reply_slot() {
    let mut slots: ReplySlots<1> = ReplySlots::new();
    let cancelled = slots.begin_call().unwrap();
    assert!(slots.accepts(cancelled));
    assert!(slots.begin_call().is_err());
    slots.end_call(cancelled);
    assert!(!slots.accepts(cancelled));

    let next = slots.begin_call().unwrap();
    assert_eq!(next, EmbassyReplyToken(0, 1));
    assert!(!slots.accepts(cancelled));
    assert!(slots.accepts(next));

    // Ending the cancelled call again does not touch the new one.
    slots.end_call(cancelled);
    assert!(slots.accepts(next));
    assert!(!slots.accepts(EmbassyReplyToken(5, 0)));
}

#[test]
fn gate_lets_the_latest_reply_through() {
    let mut gate = ReplyGate::new();
    let first = gate.begin_call();
    assert!(gate.admits(first));
    let second = gate.begin_call();
    assert!(!gate.admits(first));
    assert!(gate.admits(second));
    assert_eq!((first, second), (1, 2));
}
