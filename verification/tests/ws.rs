use haushalt_frontend::ws::{WsClient, WsConnectionState, WsServerEvent};

#[test]
fn connecting_is_ignored_while_a_connection_is_active() {
    let mut c = WsClient::new();
    assert_eq!(c.state(), WsConnectionState::Disconnected);
    assert!(c.connect());
    assert_eq!(c.state(), WsConnectionState::Connecting);
    assert!(!c.connect());
    c.socket_created(true);
    assert!(c.can_send());
    assert!(!c.on_open(false));
    assert_eq!(c.state(), WsConnectionState::Connected);
    assert!(!c.connect());
}

#[test]
fn a_socket_that_cannot_be_created_is_an_error() {
    let mut c = WsClient::new();
    c.connect();
    c.socket_created(false);
    assert_eq!(c.state(), WsConnectionState::Error);
    assert!(!c.can_send());
    assert!(c.connect());
}

#[test]
fn messages_move_the_state_and_the_room() {
    let mut c = WsClient::new();
    c.connect();
    c.socket_created(true);
    assert!(c.on_open(true));
    c.on_message(WsServerEvent::Authenticated);
    assert_eq!(c.state(), WsConnectionState::Authenticated);
    c.on_message(WsServerEvent::JoinedRoom(99));
    assert_eq!(c.state(), WsConnectionState::InRoom);
    assert_eq!(c.household_id, Some(99));
    assert!(c.is_ready());
    c.on_message(WsServerEvent::Error);
    assert!(c.is_ready());
    c.on_message(WsServerEvent::Other);
    assert!(c.is_ready());
    c.on_message(WsServerEvent::LeftRoom);
    assert_eq!(c.state(), WsConnectionState::Authenticated);
    assert_eq!(c.household_id, None);
    assert!(!c.is_ready());
}

#[test]
fn reconnections_back_off_and_give_up() {
    let mut c = WsClient::new();
    c.connect();
    c.socket_created(true);
    c.on_open(false);
    let mut delays = Vec::new();
    for _ in 0..5 {
        delays.push(c.on_close().expect("a reconnection is planned"));
        assert_eq!(c.state(), WsConnectionState::Reconnecting);
    }
    assert_eq!(delays, vec![1000, 2000, 4000, 8000, 16000]);
    assert_eq!(c.on_close(), None);
    assert_eq!(c.state(), WsConnectionState::Error);
    assert!(!c.can_send());
}

#[test]
fn opening_resets_the_attempts() {
    let mut c = WsClient::new();
    c.connect();
    c.socket_created(true);
    c.on_open(false);
    c.on_close();
    c.on_close();
    assert_eq!(c.reconnect_attempts, 2);
    c.on_open(true);
    assert_eq!(c.reconnect_attempts, 0);
    assert_eq!(c.on_close(), Some(1000));
}

#[test]
fn a_reconnect_timer_finds_the_client_waiting() {
    let mut c = WsClient::new();
    c.connect();
    c.socket_created(true);
    c.on_open(false);
    assert_eq!(c.on_close(), Some(1000));
    // The timer calls connect, which leaves a waiting client as it is.
    assert!(!c.connect());
    assert_eq!(c.state(), WsConnectionState::Reconnecting);
}

#[test]
fn disconnecting_prevents_reconnection() {
    let mut c = WsClient::new();
    c.connect();
    c.socket_created(true);
    c.on_open(true);
    c.on_message(WsServerEvent::JoinedRoom(1));
    assert!(c.disconnect());
    assert_eq!(c.state(), WsConnectionState::Disconnected);
    assert_eq!(c.household_id, None);
    assert!(!c.can_send());
    assert_eq!(c.on_close(), None);
    assert_eq!(c.state(), WsConnectionState::Error);
    c.on_error();
    assert_eq!(c.state(), WsConnectionState::Error);
}
