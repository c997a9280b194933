//! The signaling envelopes exchanged with hosts and clients.
use vstd::prelude::*;

verus! {

/// Sender id of the host, and the target id that clients must address.
pub const HOST_ID: i32 = 1;

/// The payload of a signaling message.
#[derive(Debug, Clone, PartialEq, Eq)]
pub enum SocketMessageData {
    ServerAnnounce { host_uuid: String, desktop_uuid: String },
    ClientAnnounce { client_id: i32 },
    Offer { sdp: String },
    Answer { sdp: String },
    IceCandidate { candidate: String },
}

/// A signaling message as it travels on the wire.
#[derive(Debug, Clone, PartialEq, Eq)]
pub struct SocketMessage {
    /// Target client id when sent by the host; `HOST_ID` when sent by a client.
    pub id: i32,
    /// Message data.
    pub data: SocketMessageData,
}

/// A message inside a fan-out channel, tagged with the id of its sender.
#[derive(Debug, Clone, PartialEq, Eq)]
pub struct ChannelMessage {
    /// Sender client id, or `HOST_ID` if sent by the host.
    pub sender_id: i32,
    pub message: SocketMessage,
}

/// The first message that a freshly joined client receives.
pub fn client_announce(client_id: i32) -> (r: SocketMessage)
    ensures
        r.id == HOST_ID,
        r.data == (SocketMessageData::ClientAnnounce { client_id }),
{
    SocketMessage { id: HOST_ID, data: SocketMessageData::ClientAnnounce { client_id } }
}

} // verus!
