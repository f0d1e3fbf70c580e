use miniredis_server::echo::{echo_step, reader_step, EchoAction, ReadResult, ReaderAction};
use miniredis_server::ws::{reply_to, ws_step, FromClientMessage, FromServerMessage, WsAction, WsEvent};

#[test]
fn echo_writes_back_what_was_read() {
    let buf = b"hello world".to_vec();
    assert_eq!(echo_step(&buf, ReadResult::Filled(5)), EchoAction::WriteBack(b"hello".to_vec()));
    assert_eq!(echo_step(&buf, ReadResult::Filled(11)), EchoAction::WriteBack(buf.clone()));
}

#[test]
fn echo_closes_on_end_or_failure() {
    let buf = vec![0u8; 16];
    assert_eq!(echo_step(&buf, ReadResult::Filled(0)), EchoAction::Close);
    assert_eq!(echo_step(&buf, ReadResult::Failed), EchoAction::Close);
}

#[test]
fn reader_reports_until_end() {
    let buf = b"abc\r\n".to_vec();
    assert_eq!(reader_step(&buf, ReadResult::Filled(3)), ReaderAction::Report(b"abc".to_vec()));
    assert_eq!(reader_step(&buf, ReadResult::Filled(0)), ReaderAction::Finish);
    assert_eq!(reader_step(&buf, ReadResult::Failed), ReaderAction::Exit);
}

#[test]
fn start_message_is_answered_with_its_name() {
    let msg = FromClientMessage::StartAll { name_s: "jc".to_string() };
    assert_eq!(
        reply_to(msg),
        Some(FromServerMessage::ReplyMessage { content_message: "jc".to_string() })
    );
}

#[test]
fn other_client_messages_get_no_reply() {
    assert_eq!(reply_to(FromClientMessage::Stop), None);
    assert_eq!(reply_to(FromClientMessage::Text { content: "x".to_string() }), None);
    assert_eq!(reply_to(FromClientMessage::Chat { message: "x".to_string() }), None);
}

#[test]
fn websocket_steps() {
    let start = FromClientMessage::StartAll { name_s: "jc".to_string() };
    assert_eq!(
        ws_step(WsEvent::Text(Some(start))),
        WsAction::Send(FromServerMessage::ReplyMessage { content_message: "jc".to_string() })
    );
    assert_eq!(ws_step(WsEvent::Text(Some(FromClientMessage::Stop))), WsAction::Continue);
    assert_eq!(ws_step(WsEvent::Text(None)), WsAction::Continue);
    assert_eq!(ws_step(WsEvent::Binary), WsAction::Continue);
    assert_eq!(ws_step(WsEvent::Ping), WsAction::Continue);
    assert_eq!(ws_step(WsEvent::Pong), WsAction::Continue);
    assert_eq!(ws_step(WsEvent::Close), WsAction::Stop);
    assert_eq!(ws_step(WsEvent::RawFrame), WsAction::Stop);
    assert_eq!(ws_step(WsEvent::Failed), WsAction::Stop);
}
