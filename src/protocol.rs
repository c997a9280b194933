//! The decisions of the host and client connections: what a transport frame
//! means, how a host starts, and how messages are re-addressed when relayed.
use vstd::prelude::*;

use crate::message::{ChannelMessage, SocketMessage, SocketMessageData, HOST_ID};

verus! {

/// Why a connection ends with an error.
#[derive(Debug, Clone, Copy, PartialEq, Eq)]
pub enum ProtocolError {
    /// The transport failed.
    Transport,
    /// A binary frame arrived; only text frames carry messages.
    UnsupportedFrame,
    /// A text frame did not hold a well-formed message.
    Malformed,
    /// A host's first message was not a `ServerAnnounce`.
    WrongFirstMessage,
    /// A client addressed a message to someone other than the host.
    WrongTarget,
}

/// A frame as the transport delivers it.
#[derive(Debug, Clone, PartialEq, Eq)]
pub enum Frame {
    Text(String),
    Binary,
    Close,
    /// A ping or pong, which carries no message.
    Control,
    /// The transport reported an error instead of a frame.
    Failed,
}

/// What to do with one frame while waiting for the next message.
#[derive(Debug, Clone, PartialEq, Eq)]
pub enum FrameStep {
    /// Decode this text as a message.
    Decode(String),
    /// The stream has ended; there are no more messages.
    End,
    /// Ignore the frame and wait for the next one.
    Skip,
    /// Report this error as the next message.
    Fail(ProtocolError),
}

/// Classifies a frame: text is decoded, a close ends the stream, control
/// frames are skipped, and binary frames and transport errors fail.
pub fn classify_frame(frame: Frame) -> (r: FrameStep)
    ensures
        match frame {
            Frame::Text(t) => r == FrameStep::Decode(t),
            Frame::Binary => r == FrameStep::Fail(ProtocolError::UnsupportedFrame),
            Frame::Close => r == FrameStep::End,
            Frame::Control => r == FrameStep::Skip,
            Frame::Failed => r == FrameStep::Fail(ProtocolError::Transport),
        },
{
    match frame {
        Frame::Text(t) => FrameStep::Decode(t),
        Frame::Binary => FrameStep::Fail(ProtocolError::UnsupportedFrame),
        Frame::Close => FrameStep::End,
        Frame::Control => FrameStep::Skip,
        Frame::Failed => FrameStep::Fail(ProtocolError::Transport),
    }
}

/// The outcome of waiting on a fan-out channel.
#[derive(Debug, Clone, PartialEq, Eq)]
pub enum Received {
    Message(ChannelMessage),
    /// The receiver fell behind and the oldest messages were dropped.
    Lagged,
    /// Every sender is gone.
    Closed,
}

/// What a connection does with the outcome of waiting on its channel.
#[derive(Debug, Clone, PartialEq, Eq)]
pub enum ReceiveStep {
    /// Write this message to the transport.
    Deliver(SocketMessage),
    /// Skip past what was dropped and wait again.
    Skip,
    /// Stop forwarding: nothing more can arrive.
    End,
}

/// Decides a channel outcome: a message is re-addressed for the wire (see
/// `relay_to_socket`), a lag is tolerated by skipping ahead, and a closed
/// channel ends forwarding.
pub fn receive_step(received: Received) -> (r: ReceiveStep)
    ensures
        match received {
            Received::Message(m) => r == ReceiveStep::Deliver(
                SocketMessage { id: m.sender_id, data: m.message.data },
            ),
            Received::Lagged => r == ReceiveStep::Skip,
            Received::Closed => r == ReceiveStep::End,
        },
{
    match received {
        Received::Message(m) => ReceiveStep::Deliver(relay_to_socket(m)),
        Received::Lagged => ReceiveStep::Skip,
        Received::Closed => ReceiveStep::End,
    }
}

/// How a host connection proceeds after its first message.
#[derive(Debug, Clone, PartialEq, Eq)]
pub enum HostStart {
    /// The host left before saying anything; not an error.
    Closed,
    /// The connection ends with this error.
    Fail(ProtocolError),
    /// Register a lobby under this identity and start relaying.
    Register { host_uuid: String, desktop_uuid: String },
}

/// Decides what a host's first message (`None` when the transport closed
/// first) leads to. Only a `ServerAnnounce` registers a lobby.
pub fn host_first_message(first: Option<Result<SocketMessage, ProtocolError>>) -> (r: HostStart)
    ensures
        match first {
            None => r == HostStart::Closed,
            Some(Err(e)) => r == HostStart::Fail(e),
            Some(Ok(m)) => match m.data {
                SocketMessageData::ServerAnnounce { host_uuid, desktop_uuid } => r
                    == (HostStart::Register { host_uuid, desktop_uuid }),
                _ => r == HostStart::Fail(ProtocolError::WrongFirstMessage),
            },
        },
{
    match first {
        None => HostStart::Closed,
        Some(Err(e)) => HostStart::Fail(e),
        Some(Ok(m)) => match m.data {
            SocketMessageData::ServerAnnounce { host_uuid, desktop_uuid } => HostStart::Register {
                host_uuid,
                desktop_uuid,
            },
            _ => HostStart::Fail(ProtocolError::WrongFirstMessage),
        },
    }
}

/// Rewrites a relayed message for the wire: its `id` becomes the sender's id.
pub fn relay_to_socket(msg: ChannelMessage) -> (r: SocketMessage)
    ensures
        r.id == msg.sender_id,
        r.data == msg.message.data,
{
    SocketMessage { id: msg.sender_id, data: msg.message.data }
}

/// Accepts a message from client `client_id` for relay to the host. A
/// message not addressed to `HOST_ID` is a protocol violation.
pub fn client_inbound(client_id: i32, msg: SocketMessage) -> (r: Result<ChannelMessage, ProtocolError>)
    ensures
        msg.id == HOST_ID ==> r == Ok::<ChannelMessage, ProtocolError>(
            ChannelMessage { sender_id: client_id, message: msg },
        ),
        msg.id != HOST_ID ==> r == Err::<ChannelMessage, ProtocolError>(ProtocolError::WrongTarget),
{
    if msg.id == HOST_ID {
        Ok(ChannelMessage { sender_id: client_id, message: msg })
    } else {
        Err(ProtocolError::WrongTarget)
    }
}

} // verus!
