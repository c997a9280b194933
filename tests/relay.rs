use lobby_server::appstate::AppState;
use lobby_server::key::LobbyKey;
use lobby_server::lobby::{LobbyInfo, FIRST_CLIENT_ID};
use lobby_server::message::{client_announce, ChannelMessage, SocketMessage, SocketMessageData, HOST_ID};
use lobby_server::protocol::{
    classify_frame, client_inbound, host_first_message, receive_step, relay_to_socket, Frame, FrameStep,
    HostStart, ProtocolError, ReceiveStep, Received,
};

fn offer(id: i32, sdp: &str) -> SocketMessage {
    SocketMessage { id, data: SocketMessageData::Offer { sdp: sdp.to_string() } }
}

fn lobby(host: &str, desktop: &str, tx: &'static str) -> LobbyInfo<&'static str> {
    LobbyInfo::new(host.to_string(), desktop.to_string(), tx)
}

#[test]
fn lobby_key_is_structural() {
    assert!(LobbyKey::new("h1", "d1") == LobbyKey::new("h1", "d1"));
    assert!(LobbyKey::new("h1", "d1") != LobbyKey::new("h1", "d2"));
    assert!(LobbyKey::new("h1", "d1") != LobbyKey::new("d1", "d1"));
    assert!(LobbyKey::new("a/b", "c") != LobbyKey::new("a", "b/c"));
    assert!(LobbyKey::new("a", "") != LobbyKey::new("", "a"));
    assert!(LobbyKey::new("h1", "d1").same_as(&LobbyKey::new("h1", "d1").duplicate()));
}

#[test]
fn announce_registers_exactly_one_lobby() {
    let mut state: AppState<&str> = AppState::new();
    let guard = state.add_lobby("h1", "d1", "first");
    assert!(*guard.lobby_key() == LobbyKey::new("h1", "d1"));
    assert_eq!(state.lookup_lobby("h1", "d1"), Some(&"first"));
    assert_eq!(state.lookup_lobby("h1", "d2"), None);
}

#[test]
fn second_announce_replaces_without_notice() {
    let mut state: AppState<&str> = AppState::new();
    let _first = state.add_lobby("h1", "d1", "first");
    let _second = state.add_lobby("h1", "d1", "second");
    assert_eq!(state.lookup_lobby("h1", "d1"), Some(&"second"));
}

#[test]
fn stale_guard_removes_the_newer_lobby() {
    let mut state: AppState<&str> = AppState::new();
    let first = state.add_lobby("h1", "d1", "first");
    let _second = state.add_lobby("h1", "d1", "second");
    state.remove_lobby(first);
    assert_eq!(state.lookup_lobby("h1", "d1"), None);
}

#[test]
fn join_of_unregistered_lobby_is_not_found() {
    let mut state: AppState<&str> = AppState::new();
    assert_eq!(state.lookup_lobby("h1", "d1"), None);
    let _guard = state.add_lobby("h2", "d1", "other");
    assert_eq!(state.lookup_lobby("h1", "d1"), None);
}

#[test]
fn client_ids_start_at_two_and_increase() {
    let mut info = lobby("h1", "d1", "host");
    assert_eq!(info.next_client_id(), FIRST_CLIENT_ID);
    let a = info.add_lobby_client("a");
    let b = info.add_lobby_client("b");
    let c = info.add_lobby_client("c");
    assert_eq!((a.client_id, b.client_id, c.client_id), (2, 3, 4));
    assert_eq!(info.client_tx(3), Some(&"b"));
}

#[test]
fn client_ids_are_never_reused() {
    let mut info = lobby("h1", "d1", "host");
    let a = info.add_lobby_client("a");
    let b = info.add_lobby_client("b");
    info.remove_client(a.client_id);
    info.remove_client(b.client_id);
    let c = info.add_lobby_client("c");
    assert_eq!(c.client_id, 4);
    assert!(!info.has_client(2));
    assert!(!info.has_client(3));
}

#[test]
fn client_guard_names_the_real_lobby() {
    let mut state: AppState<LobbyInfo<&str>> = AppState::new();
    let _host = state.add_lobby("h1", "d1", lobby("h1", "d1", "host"));
    let mut info = lobby("h1", "d1", "host");
    let guard = info.add_lobby_client("a");
    assert!(guard.lobby_key == LobbyKey::new("h1", "d1"));
    assert!(state.get(&guard.lobby_key).is_some());
}

#[test]
fn client_announce_is_addressed_from_host() {
    let m = client_announce(7);
    assert_eq!(m.id, HOST_ID);
    assert_eq!(m.data, SocketMessageData::ClientAnnounce { client_id: 7 });
}

#[test]
fn client_message_to_other_target_is_rejected() {
    assert_eq!(client_inbound(2, offer(3, "X")), Err(ProtocolError::WrongTarget));
    assert_eq!(client_inbound(2, offer(0, "X")), Err(ProtocolError::WrongTarget));
}

#[test]
fn client_message_to_host_is_tagged_with_sender() {
    let r = client_inbound(5, offer(HOST_ID, "X"));
    assert_eq!(r, Ok(ChannelMessage { sender_id: 5, message: offer(HOST_ID, "X") }));
}

#[test]
fn host_message_to_absent_client_goes_nowhere() {
    let mut info = lobby("h1", "d1", "host");
    let a = info.add_lobby_client("a");
    assert!(info.route_from_host(offer(9, "X")).is_none());
    info.remove_client(a.client_id);
    assert!(info.route_from_host(offer(2, "X")).is_none());
}

#[test]
fn host_message_to_present_client_is_delivered() {
    let mut info = lobby("h1", "d1", "host");
    let _a = info.add_lobby_client("a");
    let _b = info.add_lobby_client("b");
    let (tx, cm) = info.route_from_host(offer(3, "X")).unwrap();
    assert_eq!(*tx, "b");
    assert_eq!(cm, ChannelMessage { sender_id: HOST_ID, message: offer(3, "X") });
}

#[test]
fn relay_rewrites_id_to_sender() {
    let cm = ChannelMessage { sender_id: 4, message: offer(HOST_ID, "Z") };
    assert_eq!(relay_to_socket(cm), offer(4, "Z"));
}

#[test]
fn offer_and_candidate_round_between_host_and_client() {
    let mut state: AppState<LobbyInfo<&str>> = AppState::new();
    let announce = SocketMessage {
        id: HOST_ID,
        data: SocketMessageData::ServerAnnounce { host_uuid: "h1".to_string(), desktop_uuid: "d1".to_string() },
    };
    let (host_uuid, desktop_uuid) = match host_first_message(Some(Ok(announce))) {
        HostStart::Register { host_uuid, desktop_uuid } => (host_uuid, desktop_uuid),
        other => panic!("unexpected {:?}", other),
    };
    let _host_guard = state.add_lobby(&host_uuid, &desktop_uuid, LobbyInfo::new(host_uuid.clone(), desktop_uuid.clone(), "host"));

    let mut info = LobbyInfo::new(host_uuid.clone(), desktop_uuid.clone(), "host");
    assert!(state.lookup_lobby("h1", "d1").is_some());
    let client = info.add_lobby_client("client");
    let greeting = client_announce(client.client_id);
    assert_eq!(greeting, SocketMessage { id: 1, data: SocketMessageData::ClientAnnounce { client_id: 2 } });

    let (tx, cm) = info.route_from_host(offer(2, "X")).unwrap();
    assert_eq!(*tx, "client");
    assert_eq!(relay_to_socket(cm), offer(1, "X"));

    let candidate = SocketMessage { id: 1, data: SocketMessageData::IceCandidate { candidate: "Y".to_string() } };
    let cm = client_inbound(client.client_id, candidate).unwrap();
    assert_eq!(
        relay_to_socket(cm),
        SocketMessage { id: 2, data: SocketMessageData::IceCandidate { candidate: "Y".to_string() } }
    );
}

#[test]
fn host_release_makes_joins_not_found() {
    let mut state: AppState<&str> = AppState::new();
    let guard = state.add_lobby("h1", "d1", "host");
    let _other = state.add_lobby("h2", "d2", "other");
    state.remove_lobby(guard);
    assert_eq!(state.lookup_lobby("h1", "d1"), None);
    assert_eq!(state.lookup_lobby("h2", "d2"), Some(&"other"));
}

#[test]
fn client_departure_leaves_others_relaying() {
    let mut info = lobby("h1", "d1", "host");
    let a = info.add_lobby_client("a");
    let _b = info.add_lobby_client("b");
    info.remove_client(a.client_id);
    assert!(!info.has_client(2));
    assert_eq!(*info.host_tx(), "host");
    let (tx, _) = info.route_from_host(offer(3, "X")).unwrap();
    assert_eq!(*tx, "b");
    assert_eq!(info.host_uuid(), "h1");
    assert_eq!(info.desktop_uuid(), "d1");
}

#[test]
fn frames_are_classified() {
    assert_eq!(classify_frame(Frame::Text("{}".to_string())), FrameStep::Decode("{}".to_string()));
    assert_eq!(classify_frame(Frame::Binary), FrameStep::Fail(ProtocolError::UnsupportedFrame));
    assert_eq!(classify_frame(Frame::Close), FrameStep::End);
    assert_eq!(classify_frame(Frame::Control), FrameStep::Skip);
    assert_eq!(classify_frame(Frame::Failed), FrameStep::Fail(ProtocolError::Transport));
}

#[test]
fn host_first_message_outcomes() {
    assert_eq!(host_first_message(None), HostStart::Closed);
    assert_eq!(host_first_message(Some(Err(ProtocolError::Malformed))), HostStart::Fail(ProtocolError::Malformed));
    assert_eq!(host_first_message(Some(Ok(offer(1, "X")))), HostStart::Fail(ProtocolError::WrongFirstMessage));
}

#[test]
fn lobby_reports_when_ids_remain() {
    let info = lobby("h1", "d1", "host");
    assert!(info.can_add_client());
}

#[test]
fn registry_counts_lobbies() {
    let mut state: AppState<&str> = AppState::new();
    assert_eq!(state.len(), 0);
    let first = state.add_lobby("h1", "d1", "a");
    let _second = state.add_lobby("h1", "d2", "b");
    let _again = state.add_lobby("h1", "d1", "c");
    assert_eq!(state.len(), 2);
    state.remove_lobby(first);
    assert_eq!(state.len(), 1);
}

#[test]
fn lobbies_with_slashes_in_identifiers_stay_apart() {
    let mut state: AppState<&str> = AppState::new();
    let _first = state.add_lobby("a/b", "c", "first");
    let _second = state.add_lobby("a", "b/c", "second");
    assert_eq!(state.len(), 2);
    assert_eq!(state.lookup_lobby("a/b", "c"), Some(&"first"));
    assert_eq!(state.lookup_lobby("a", "b/c"), Some(&"second"));
}

#[test]
fn channel_outcomes_are_decided() {
    let cm = ChannelMessage { sender_id: 3, message: offer(HOST_ID, "Z") };
    assert_eq!(receive_step(Received::Message(cm)), ReceiveStep::Deliver(offer(3, "Z")));
    assert_eq!(receive_step(Received::Lagged), ReceiveStep::Skip);
    assert_eq!(receive_step(Received::Closed), ReceiveStep::End);
}
