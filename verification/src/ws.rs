use vstd::prelude::*;

verus! {

/// A message that a websocket client sends, once its JSON text is decoded.
#[derive(Debug, Clone, PartialEq, Eq)]
pub enum FromClientMessage {
    StartAll { name_s: String },
    Text { content: String },
    Stop,
    Chat { message: String },
}

/// A message that the server sends to a websocket client, before it is encoded as JSON.
#[derive(Debug, Clone, PartialEq, Eq)]
pub enum FromServerMessage {
    ReplyMessage { content_message: String },
    Stop { fields: String },
}

/// What one read of a websocket stream gave.
#[derive(Debug, Clone, PartialEq, Eq)]
pub enum WsEvent {
    /// A text message: the client message its JSON decodes to, or `None` where it does
    /// not decode.
    Text(Option<FromClientMessage>),
    Binary,
    /// A close message, with or without a reason.
    Close,
    Ping,
    Pong,
    /// A raw frame, which the server does not expect.
    RawFrame,
    /// The stream failed.
    Failed,
}

/// What the websocket server does after a read.
#[derive(Debug, Clone, PartialEq, Eq)]
pub enum WsAction {
    /// Read the next message.
    Continue,
    /// Send this message, then read the next one.
    Send(FromServerMessage),
    /// End the connection.
    Stop,
}

/// The server's reply to a client message: a start message is answered with a reply that
/// carries its name; the other messages get none.
pub fn reply_to(message: FromClientMessage) -> (reply: Option<FromServerMessage>)
    ensures
        match message {
            FromClientMessage::StartAll { name_s } => reply matches Some(
                FromServerMessage::ReplyMessage { content_message },
            ) && content_message@ == name_s@,
            _ => reply is None,
        },
{
    match message {
        FromClientMessage::StartAll { name_s } => Some(
            FromServerMessage::ReplyMessage { content_message: name_s },
        ),
        _ => None,
    }
}

/// The server's decision after a read: text messages are answered as `reply_to` says;
/// binary messages, pings, pongs and text that does not decode are passed over; a close,
/// a raw frame or a failure ends the connection.
pub fn ws_step(event: WsEvent) -> (action: WsAction)
    ensures
        match event {
            WsEvent::Text(Some(FromClientMessage::StartAll { name_s })) => action matches WsAction::Send(
                FromServerMessage::ReplyMessage { content_message },
            ) && content_message@ == name_s@,
            WsEvent::Text(_) => action is Continue,
            WsEvent::Binary => action is Continue,
            WsEvent::Ping => action is Continue,
            WsEvent::Pong => action is Continue,
            WsEvent::Close => action is Stop,
            WsEvent::RawFrame => action is Stop,
            WsEvent::Failed => action is Stop,
        },
{
    match event {
        WsEvent::Text(Some(message)) => match reply_to(message) {
            Some(reply) => WsAction::Send(reply),
            None => WsAction::Continue,
        },
        WsEvent::Text(None) => WsAction::Continue,
        WsEvent::Binary => WsAction::Continue,
        WsEvent::Ping => WsAction::Continue,
        WsEvent::Pong => WsAction::Continue,
        WsEvent::Close => WsAction::Stop,
        WsEvent::RawFrame => WsAction::Stop,
        WsEvent::Failed => WsAction::Stop,
    }
}

} // verus!
