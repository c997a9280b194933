//! The lobby's fan-out channels: opening them, and delivering relayed
//! messages into them.
use tokio::sync::broadcast::{Receiver, Sender};
use vstd::prelude::*;

use crate::lobby::{LobbyClientGuard, LobbyInfo, FIRST_CLIENT_ID};
use crate::message::{ChannelMessage, SocketMessage, HOST_ID};
use crate::protocol::{client_inbound, ProtocolError};

verus! {

#[verifier::external_type_specification]
#[verifier::external_body]
#[verifier::reject_recursive_types(T)]
pub struct ExSender<T>(Sender<T>);

#[verifier::external_type_specification]
#[verifier::external_body]
#[verifier::reject_recursive_types(T)]
pub struct ExReceiver<T>(Receiver<T>);

/// Relies on tokio's `Clone` for `broadcast::Sender`: the clone shares the
/// original's channel (it clones the one `Arc` that the sender holds).
pub assume_specification<T>[ <Sender<T> as Clone>::clone ](s: &Sender<T>) -> (r: Sender<T>)
    ensures
        r == *s,
;

/// Messages that a fan-out channel holds for a lagging receiver before the
/// oldest is dropped.
pub const CHANNEL_CAPACITY: usize = 8;

/// Relies on tokio's `broadcast::channel`: a new channel with one sender and
/// one receiver. It panics on a capacity of zero or above `usize::MAX / 2`.
#[verifier::external_body]
fn open_channel(capacity: usize) -> (Sender<ChannelMessage>, Receiver<ChannelMessage>)
    requires
        0 < capacity <= usize::MAX / 2,
{
    tokio::sync::broadcast::channel(capacity)
}

/// Opens the lobby that a host's announce of (`host_uuid`, `desktop_uuid`)
/// creates, with a new fan-out channel for the host; the receiver is the
/// host's end of it.
pub fn open_lobby(host_uuid: String, desktop_uuid: String) -> (r: (
    LobbyInfo<Sender<ChannelMessage>>,
    Receiver<ChannelMessage>,
))
    ensures
        r.0.wf(),
        r.0.host() == host_uuid@,
        r.0.desktop() == desktop_uuid@,
        r.0.clients() == Map::<i32, Sender<ChannelMessage>>::empty(),
        r.0.next_id() == FIRST_CLIENT_ID,
{
    let (tx, rx) = open_channel(CHANNEL_CAPACITY);
    (LobbyInfo::new(host_uuid, desktop_uuid, tx), rx)
}

/// Adds a client to `lobby` under the next id, with a new fan-out channel.
/// Returns the client's guard, the client's end of its channel, and the
/// host's channel, through which the client reaches the host.
pub fn join_lobby(lobby: &mut LobbyInfo<Sender<ChannelMessage>>) -> (r: (
    LobbyClientGuard,
    Receiver<ChannelMessage>,
    Sender<ChannelMessage>,
))
    requires
        old(lobby).wf(),
        old(lobby).has_free_id(),
    ensures
        final(lobby).wf(),
        r.0.client_id == old(lobby).next_id(),
        !old(lobby).allocated().contains(r.0.client_id),
        forall|id: i32| #[trigger] old(lobby).allocated().contains(id) ==> id < r.0.client_id,
        final(lobby).allocated() == old(lobby).allocated().insert(r.0.client_id),
        r.0.lobby_key@ == old(lobby).key(),
        final(lobby).next_id() == old(lobby).next_id() + 1,
        final(lobby).clients() == old(lobby).clients().insert(
            r.0.client_id,
            final(lobby).clients()[r.0.client_id],
        ),
        final(lobby).key() == old(lobby).key(),
        final(lobby).host_channel() == old(lobby).host_channel(),
        r.2 == old(lobby).host_channel(),
{
    let (tx, rx) = open_channel(CHANNEL_CAPACITY);
    let guard = lobby.add_lobby_client(tx);
    let host_tx = lobby.host_tx().clone();
    (guard, rx, host_tx)
}

/// Why a message could not be relayed.
#[derive(Debug, Clone, Copy, PartialEq, Eq)]
pub enum RelayError {
    /// The sender broke the protocol; its connection ends.
    Protocol(ProtocolError),
    /// The destination channel has no receiver left.
    Disconnected,
}

/// Relies on tokio's `broadcast::Sender::send`: on success it reports how
/// many receivers are subscribed, at least one; with no receiver left it
/// fails and hands the message back.
#[verifier::external_body]
fn send_relay(tx: &Sender<ChannelMessage>, msg: ChannelMessage) -> (r: Result<usize, ChannelMessage>)
    ensures
        match r {
            Ok(n) => n >= 1,
            Err(m) => m == msg,
        },
{
    tx.send(msg).map_err(|e| e.0)
}

/// What became of a message that the host addressed to a client. None of
/// these ends the host's connection.
#[derive(Debug, Clone, Copy, PartialEq, Eq)]
pub enum HostDelivery {
    /// The client's channel took the message.
    Delivered,
    /// No client with that id is present; the message is dropped.
    NoSuchClient,
    /// The client is still listed but its connection has closed; the
    /// message is dropped, and the client's entry leaves on its release.
    ClientGone,
}

/// Relays a message from the host to the client that `msg.id` addresses,
/// with `HOST_ID` as sender (see `LobbyInfo::route_from_host`). A message for
/// a client that is not present is dropped without sending anything.
pub fn relay_from_host(lobby: &LobbyInfo<Sender<ChannelMessage>>, msg: SocketMessage) -> (r:
    HostDelivery)
    ensures
        r == HostDelivery::NoSuchClient <==> !lobby.clients().contains_key(msg.id),
{
    match lobby.route_from_host(msg) {
        None => HostDelivery::NoSuchClient,
        Some((tx, cm)) => match send_relay(tx, cm) {
            Ok(_) => HostDelivery::Delivered,
            Err(_) => HostDelivery::ClientGone,
        },
    }
}

/// Relays a message from client `client_id` to its lobby's host channel
/// `host_tx`, with the client's id as sender (see `client_inbound`). A message
/// not addressed to `HOST_ID` is refused, and nothing is sent.
pub fn relay_from_client(host_tx: &Sender<ChannelMessage>, client_id: i32, msg: SocketMessage) -> (r:
    Result<(), RelayError>)
    ensures
        msg.id != HOST_ID <==> r == Err::<(), RelayError>(
            RelayError::Protocol(ProtocolError::WrongTarget),
        ),
        msg.id == HOST_ID && r.is_err() ==> r == Err::<(), RelayError>(RelayError::Disconnected),
{
    match client_inbound(client_id, msg) {
        Err(e) => Err(RelayError::Protocol(e)),
        Ok(cm) => match send_relay(host_tx, cm) {
            Ok(_) => Ok(()),
            Err(_) => Err(RelayError::Disconnected),
        },
    }
}

} // verus!
