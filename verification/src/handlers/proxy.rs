//! The realtime channel: how frames cross between the client's socket and
//! the upstream socket, and when a relay loop ends.

use vstd::prelude::*;

verus! {

/// The reason a peer gives for closing.
#[derive(Debug)]
pub struct CloseFrame {
    pub code: u16,
    pub reason: String,
}

/// A message on the client's socket.
#[derive(Debug)]
pub enum Message {
    Text(String),
    Binary(Vec<u8>),
    Ping(Vec<u8>),
    Pong(Vec<u8>),
    Close(Option<CloseFrame>),
}

/// A message on the upstream socket.
#[derive(Debug)]
pub enum UpstreamMessage {
    Text(String),
    Binary(Vec<u8>),
    Ping(Vec<u8>),
    Pong(Vec<u8>),
    Close(Option<CloseFrame>),
    /// A raw frame, which has no meaning across implementations.
    Frame(Vec<u8>),
}

/// The client-side form of an upstream message; none for a raw frame.
pub open spec fn downstream_of(message: UpstreamMessage) -> Option<Message> {
    match message {
        UpstreamMessage::Text(text) => Some(Message::Text(text)),
        UpstreamMessage::Binary(binary) => Some(Message::Binary(binary)),
        UpstreamMessage::Ping(ping) => Some(Message::Ping(ping)),
        UpstreamMessage::Pong(pong) => Some(Message::Pong(pong)),
        UpstreamMessage::Close(close) => Some(Message::Close(close)),
        UpstreamMessage::Frame(_) => None,
    }
}

/// The upstream form of a client message.
pub open spec fn upstream_of(message: Message) -> UpstreamMessage {
    match message {
        Message::Text(text) => UpstreamMessage::Text(text),
        Message::Binary(binary) => UpstreamMessage::Binary(binary),
        Message::Ping(ping) => UpstreamMessage::Ping(ping),
        Message::Pong(pong) => UpstreamMessage::Pong(pong),
        Message::Close(close) => UpstreamMessage::Close(close),
    }
}

/// Maps an upstream message to what is sent to the client. Raw frames are
/// dropped; everything else crosses unchanged.
pub fn from_tungstenite(message: UpstreamMessage) -> (r: Option<Message>)
    ensures
        r == downstream_of(message),
{
    match message {
        UpstreamMessage::Text(text) => Some(Message::Text(text)),
        UpstreamMessage::Binary(binary) => Some(Message::Binary(binary)),
        UpstreamMessage::Ping(ping) => Some(Message::Ping(ping)),
        UpstreamMessage::Pong(pong) => Some(Message::Pong(pong)),
        UpstreamMessage::Close(Some(close)) => Some(
            Message::Close(Some(CloseFrame { code: close.code, reason: close.reason })),
        ),
        UpstreamMessage::Close(None) => Some(Message::Close(None)),
        UpstreamMessage::Frame(_) => None,
    }
}

/// Maps a client message to what is sent upstream, unchanged.
pub fn to_tungstenite(message: Message) -> (r: UpstreamMessage)
    ensures
        r == upstream_of(message),
{
    match message {
        Message::Text(text) => UpstreamMessage::Text(text),
        Message::Binary(binary) => UpstreamMessage::Binary(binary),
        Message::Ping(ping) => UpstreamMessage::Ping(ping),
        Message::Pong(pong) => UpstreamMessage::Pong(pong),
        Message::Close(Some(close)) => UpstreamMessage::Close(
            Some(CloseFrame { code: close.code, reason: close.reason }),
        ),
        Message::Close(None) => UpstreamMessage::Close(None),
    }
}

/// What a socket hands to a relay loop.
pub enum Received<M> {
    /// A message arrived.
    Message(M),
    /// Receiving failed.
    Failed,
    /// The peer is gone.
    Ended,
}

/// What a relay loop does next.
pub enum Relay<M> {
    /// Send this to the other side, then go on.
    Send(M),
    /// Go on without sending.
    Skip,
    /// End the loop; the other loop is then cancelled.
    Stop,
}

/// The next step of the loop that relays from the client to upstream: a
/// message is sent on, anything else ends the loop.
pub fn relay_incoming(received: Received<Message>) -> (r: Relay<UpstreamMessage>)
    ensures
        r == match received {
            Received::Message(m) => Relay::Send(upstream_of(m)),
            _ => Relay::Stop,
        },
{
    match received {
        Received::Message(message) => Relay::Send(to_tungstenite(message)),
        _ => Relay::Stop,
    }
}

/// The next step of the loop that relays from upstream to the client: a
/// message is sent on, a raw frame is skipped, anything else ends the loop.
pub fn relay_upstream(received: Received<UpstreamMessage>) -> (r: Relay<Message>)
    ensures
        r == match received {
            Received::Message(m) => match downstream_of(m) {
                Some(out) => Relay::Send(out),
                None => Relay::Skip,
            },
            _ => Relay::Stop,
        },
{
    match received {
        Received::Message(message) => match from_tungstenite(message) {
            Some(out) => Relay::Send(out),
            None => Relay::Skip,
        },
        _ => Relay::Stop,
    }
}

/// A message that went upstream and came back is the message that was sent.
pub proof fn lemma_frames_cross_unchanged(message: Message)
    ensures
        downstream_of(upstream_of(message)) == Some(message),
{
}

} // verus!
