use directmessages::chat::{
    read_failure, receive_frame, ChatEvent, ChatLine, ChatSession, ReadFailure,
};
use directmessages::crypto::{CryptoError, SessionReceiver, SessionSender};
use directmessages::protocol::{read_frame, ByteReader};

fn session() -> ChatSession {
    ChatSession::new(SessionSender::at([9u8; 32], 0), "fp:abc".to_string())
}

fn shown(session: &ChatSession) -> Vec<String> {
    session
        .history
        .iter()
        .map(|line| match line {
            ChatLine::Me(t) => format!("me {t}"),
            ChatLine::Peer(t) => format!("peer {t}"),
            ChatLine::System(t) => format!("system {t}"),
        })
        .collect()
}

#[test]
fn chat_begins_empty() {
    let session = session();
    assert!(session.history.is_empty());
    assert_eq!(session.input, "");
    assert_eq!(session.scroll, 0);
    assert_eq!(session.peer_short_fp, "fp:abc");
    assert!(!session.ended);
}

#[test]
fn sent_text_is_trimmed_at_its_end_and_framed() {
    let mut session = session();
    session.input = "hi \u{3000}\n".to_string();
    let out = session.send().unwrap().unwrap();
    assert_eq!(out.text, "hi");
    assert_eq!(
        hex::encode(&out.frame),
        "00000012f66d27e5bce5cec932ad0df2deb2f2a966ff"
    );
    // Until the frame is sent the input stays.
    assert_eq!(session.input, "hi \u{3000}\n");
    session.sent(out.text);
    assert_eq!(session.input, "");
    assert_eq!(shown(&session), ["me hi"]);
}

#[test]
fn leading_white_space_is_sent() {
    let mut session = session();
    session.input = "  hi".to_string();
    assert_eq!(session.send().unwrap().unwrap().text, "  hi");
}

#[test]
fn blank_input_is_not_sent() {
    let mut session = session();
    session.input = " \t".to_string();
    assert!(session.send().unwrap().is_none());
    session.input = "hi".to_string();
    // Nothing was encrypted, so this is still the first message.
    let out = session.send().unwrap().unwrap();
    assert_eq!(
        hex::encode(&out.frame),
        "00000012f66d27e5bce5cec932ad0df2deb2f2a966ff"
    );
}

#[test]
fn used_up_counter_stops_sending() {
    let mut session = ChatSession::new(SessionSender::at([9u8; 32], u64::MAX), String::new());
    session.input = "hi".to_string();
    assert_eq!(session.send().err(), Some(CryptoError::CounterOverflow));
}

#[test]
fn text_arrives_at_the_other_side() {
    let mut session = session();
    let mut receiver = SessionReceiver::at([9u8; 32], 0);
    for text in ["hello", "héllo", "日本語", "🦀"] {
        session.input = text.to_string();
        let out = session.send().unwrap().unwrap();
        let frame = read_frame(&mut ByteReader::new(out.frame)).unwrap();
        match receive_frame(&mut receiver, &frame) {
            ChatEvent::Message(received) => assert_eq!(received, text),
            _ => panic!("a message was sent"),
        }
    }
}

#[test]
fn bytes_that_are_no_text_are_replaced() {
    let mut receiver = SessionReceiver::at([9u8; 32], 0);
    let frame = hex::decode("fffbdc6620d54983506f4f717f376f5552c1c3").unwrap();
    match receive_frame(&mut receiver, &frame) {
        ChatEvent::Message(text) => assert_eq!(text, "a\u{fffd}b"),
        _ => panic!("a message was sent"),
    }
}

#[test]
fn undecryptable_frame_is_an_error() {
    let mut receiver = SessionReceiver::at([9u8; 32], 0);
    match receive_frame(&mut receiver, b"garbage of some length") {
        ChatEvent::Error(e) => {
            assert_eq!(e, "decrypt failed: decryption failed: aead::Error");
        }
        _ => panic!("the frame was garbage"),
    }
}

#[test]
fn read_failures_end_the_session() {
    for kind in [ReadFailure::UnexpectedEof, ReadFailure::ConnectionReset] {
        assert!(matches!(
            read_failure(kind, "failed to fill whole buffer"),
            ChatEvent::Disconnected
        ));
    }
    match read_failure(ReadFailure::Other, "frame too large: 65537 bytes") {
        ChatEvent::Error(e) => assert_eq!(e, "connection error: frame too large: 65537 bytes"),
        _ => panic!("the connection has failed"),
    }
    assert!(ChatEvent::Disconnected.ends_session());
    assert!(ChatEvent::Error(String::new()).ends_session());
    assert!(!ChatEvent::Message(String::new()).ends_session());
}

#[test]
fn events_become_lines_in_order() {
    let mut session = session();
    session.push_system("start".to_string());
    session.drain_events(vec![
        ChatEvent::Message("one".to_string()),
        ChatEvent::Message("two".to_string()),
    ]);
    assert!(!session.ended);
    session.drain_events(Vec::new());
    session.drain_events(vec![ChatEvent::Disconnected]);
    assert!(session.ended);
    session.drain_events(vec![ChatEvent::Error("boom".to_string())]);
    assert!(session.ended);
    assert_eq!(
        shown(&session),
        [
            "system start",
            "peer one",
            "peer two",
            "system [peer disconnected]",
            "system error: boom"
        ]
    );
}
