//! The boundary between websocket frames and the messages of a GraphQL
//! subscription: what is sent for a message, and what a received frame means.

use vstd::prelude::*;

verus! {

/// A websocket frame, as far as a subscription looks at it.
#[derive(Debug)]
pub enum WsFrame {
    /// Text.
    Text(String),
    /// Bytes.
    Binary(Vec<u8>),
    /// A sign of life that wants an answer, with bytes of its own.
    Ping(Vec<u8>),
    /// A sign of life, with bytes of its own.
    Pong(Vec<u8>),
    /// The end, with a code and a reason or without.
    Close(Option<(u16, String)>),
    /// A frame that was not taken apart.
    Frame,
}

/// A message of a subscription.
#[derive(Debug)]
pub enum Message {
    /// Text.
    Text(String),
    /// A sign of life that wants an answer.
    Ping,
    /// A sign of life.
    Pong,
    /// The end.
    Close { code: Option<u16>, reason: Option<String> },
}

/// What to do about what the websocket brought.
#[derive(Debug)]
pub enum Received {
    /// Hand the message on.
    Deliver(Message),
    /// Wait for the next frame.
    Skip,
    /// There is nothing more to come.
    End,
}

/// What a frame means: bytes and raw frames mean nothing to a subscription.
pub open spec fn frame_meaning(frame: WsFrame) -> Received {
    match frame {
        WsFrame::Text(text) => Received::Deliver(Message::Text(text)),
        WsFrame::Ping(_) => Received::Deliver(Message::Ping),
        WsFrame::Pong(_) => Received::Deliver(Message::Pong),
        WsFrame::Close(Some((code, reason))) => Received::Deliver(
            Message::Close { code: Some(code), reason: Some(reason) },
        ),
        WsFrame::Close(None) => Received::Deliver(Message::Close { code: None, reason: None }),
        WsFrame::Binary(_) => Received::Skip,
        WsFrame::Frame => Received::Skip,
    }
}

/// What the websocket brought means: its end and its failures end the
/// subscription.
pub open spec fn meaning(event: Option<Result<WsFrame, String>>) -> Received {
    match event {
        Some(Ok(frame)) => frame_meaning(frame),
        Some(Err(_)) => Received::End,
        None => Received::End,
    }
}

/// The frame for a message: a sign of life has no bytes of its own, and an end
/// says why only if it has both a code and a reason.
pub open spec fn is_frame_of(frame: WsFrame, message: Message) -> bool {
    match message {
        Message::Text(text) => frame == WsFrame::Text(text),
        Message::Ping => frame matches WsFrame::Ping(bytes) && bytes@.len() == 0,
        Message::Pong => frame matches WsFrame::Pong(bytes) && bytes@.len() == 0,
        Message::Close { code: Some(code), reason: Some(reason) } => frame == WsFrame::Close(
            Some((code, reason)),
        ),
        Message::Close { .. } => frame == WsFrame::Close(None),
    }
}

/// Decides on what the websocket brought; see [`meaning`].
pub fn receive(event: Option<Result<WsFrame, String>>) -> (step: Received)
    ensures
        step == meaning(event),
{
    match event {
        Some(Ok(WsFrame::Text(text))) => Received::Deliver(Message::Text(text)),
        Some(Ok(WsFrame::Ping(_))) => Received::Deliver(Message::Ping),
        Some(Ok(WsFrame::Pong(_))) => Received::Deliver(Message::Pong),
        Some(Ok(WsFrame::Close(frame))) => match frame {
            Some((code, reason)) => Received::Deliver(
                Message::Close { code: Some(code), reason: Some(reason) },
            ),
            None => Received::Deliver(Message::Close { code: None, reason: None }),
        },
        Some(Ok(WsFrame::Binary(_))) => Received::Skip,
        Some(Ok(WsFrame::Frame)) => Received::Skip,
        Some(Err(_)) => Received::End,
        None => Received::End,
    }
}

/// The frame to send for a message; see [`is_frame_of`].
pub fn send(message: Message) -> (frame: WsFrame)
    ensures
        is_frame_of(frame, message),
{
    match message {
        Message::Text(text) => WsFrame::Text(text),
        Message::Ping => WsFrame::Ping(Vec::new()),
        Message::Pong => WsFrame::Pong(Vec::new()),
        Message::Close { code, reason } => match (code, reason) {
            (Some(code), Some(reason)) => WsFrame::Close(Some((code, reason))),
            _ => WsFrame::Close(None),
        },
    }
}

/// What is sent for a message means that message to the other side.
///
/// An end with a code and no reason, or with a reason and no code, arrives with
/// neither.
pub proof fn what_is_sent_is_what_is_received(message: Message, frame: WsFrame)
    requires
        is_frame_of(frame, message),
        message matches Message::Close { code, reason } ==> code is Some == reason is Some,
    ensures
        frame_meaning(frame) == Received::Deliver(message),
{
}

/// Text reaches a subscription as it was sent, signs of life as what they are, and an end
/// with its code and its reason, or with neither. Bytes and raw frames do not reach it,
/// and it ends when the websocket does or fails.
pub proof fn frames_mean_what_they_are(
    text: String,
    bytes: Vec<u8>,
    code: u16,
    reason: String,
    failure: String,
)
    ensures
        meaning(Some(Ok(WsFrame::Text(text)))) == Received::Deliver(Message::Text(text)),
        meaning(Some(Ok(WsFrame::Ping(bytes)))) == Received::Deliver(Message::Ping),
        meaning(Some(Ok(WsFrame::Pong(bytes)))) == Received::Deliver(Message::Pong),
        meaning(Some(Ok(WsFrame::Close(Some((code, reason)))))) matches Received::Deliver(
            Message::Close { code: Some(given), reason: Some(words) },
        ) && given == code && words == reason,
        meaning(Some(Ok(WsFrame::Close(None)))) matches Received::Deliver(
            Message::Close { code: None, reason: None },
        ),
        meaning(Some(Ok(WsFrame::Binary(bytes)))) == Received::Skip,
        meaning(Some(Ok(WsFrame::Frame))) == Received::Skip,
        meaning(Some(Err(failure))) == Received::End,
        meaning(None) == Received::End,
{
}

/// A message is sent as a frame of its own kind: text as the same text, a sign of life
/// without bytes, and an end with a code and a reason only if it has both.
pub proof fn messages_are_sent_as_what_they_are(message: Message, frame: WsFrame)
    requires
        is_frame_of(frame, message),
    ensures
        message matches Message::Text(text) ==> frame == WsFrame::Text(text),
        message is Ping ==> (frame matches WsFrame::Ping(bytes) && bytes@.len() == 0),
        message is Pong ==> (frame matches WsFrame::Pong(bytes) && bytes@.len() == 0),
        message matches Message::Close { code, reason } ==> (frame matches WsFrame::Close(given)
            && given == (if code is Some && reason is Some {
            Some((code->0, reason->0))
        } else {
            None
        })),
{
}

} // verus!
