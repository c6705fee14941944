//! The chat socket's connection logic: which state each socket event leads to, when to
//! authenticate, and when and how long to wait before connecting again.
//!
//! The socket itself, its callbacks and the reconnect timer stay outside; they report each
//! event here and carry out what comes back.
use vstd::prelude::*;
use vstd::arithmetic::power2::{lemma2_to64, pow2};
use vstd::bits::lemma_u32_shl_is_mul;

verus! {

/// The socket connection's state.
#[derive(Debug, Clone, Copy, PartialEq, Eq, Structural)]
pub enum WsConnectionState {
    Disconnected,
    Connecting,
    Connected,
    Authenticated,
    InRoom,
    Reconnecting,
    Error,
}

/// The kinds of server message that move the connection's state.
#[derive(Debug, Clone, Copy, PartialEq, Eq, Structural)]
pub enum WsServerEvent {
    /// The server accepted the token.
    Authenticated,
    /// The client joined the chat room of this household.
    JoinedRoom(u128),
    /// The client left its room.
    LeftRoom,
    /// The server reported an error; the state is left for the page to judge.
    Error,
    /// Any other message, such as a chat message.
    Other,
}

/// How many times in a row the client reconnects before it gives up.
pub const MAX_RECONNECT_ATTEMPTS: u32 = 5;

/// The wait before a reconnection, after `attempts` earlier ones: one second, doubled each
/// time (1 s, 2 s, 4 s, 8 s, 16 s).
pub open spec fn backoff_ms(attempts: nat) -> nat {
    1000 * pow2(attempts)
}

/// The states in which a connection is already open or on its way, so that a request to
/// connect is ignored.
pub open spec fn connection_active(s: WsConnectionState) -> bool {
    s == WsConnectionState::Connecting || s == WsConnectionState::Connected || s
        == WsConnectionState::Authenticated || s == WsConnectionState::InRoom || s
        == WsConnectionState::Reconnecting
}

/// Whether a close event leads to another attempt: some reconnections are still allowed.
pub open spec fn reconnects_on_close(c: WsClient) -> bool {
    c.reconnect_attempts < c.max_reconnect_attempts
}

/// A client after `disconnect`: disconnected, in no room, without a socket, and with every
/// reconnection used up.
pub open spec fn disconnected(c: WsClient) -> WsClient {
    WsClient {
        state: WsConnectionState::Disconnected,
        household_id: None,
        has_socket: false,
        reconnect_attempts: c.max_reconnect_attempts,
        ..c
    }
}

/// The chat client's connection: its state, the room it is in, whether a socket exists, and
/// how many reconnections it has made since the socket last opened.
#[derive(Debug)]
pub struct WsClient {
    pub state: WsConnectionState,
    pub household_id: Option<u128>,
    pub has_socket: bool,
    pub reconnect_attempts: u32,
    pub max_reconnect_attempts: u32,
}

impl WsClient {
    /// The limits every client keeps: at most the fixed number of reconnections, and never
    /// more attempts counted than that.
    pub open spec fn wf(self) -> bool {
        &&& self.max_reconnect_attempts == MAX_RECONNECT_ATTEMPTS
        &&& self.reconnect_attempts <= self.max_reconnect_attempts
    }

    /// A client that has not connected yet.
    pub fn new() -> (r: WsClient)
        ensures
            r.wf(),
            r.state == WsConnectionState::Disconnected,
            r.household_id is None,
            !r.has_socket,
            r.reconnect_attempts == 0,
    {
        WsClient {
            state: WsConnectionState::Disconnected,
            household_id: None,
            has_socket: false,
            reconnect_attempts: 0,
            max_reconnect_attempts: MAX_RECONNECT_ATTEMPTS,
        }
    }

    /// The connection's state.
    pub fn state(&self) -> (r: WsConnectionState)
        ensures
            r == self.state,
    {
        self.state
    }

    /// A request to connect. While a connection is open or on its way (connecting, connected,
    /// authenticated, in a room, or waiting to reconnect) nothing happens and the answer is
    /// `false`. Otherwise the client starts connecting and the answer is `true`: open a
    /// socket to the chat URL and report with `socket_created`.
    pub fn connect(&mut self) -> (open: bool)
        requires
            old(self).wf(),
        ensures
            final(self).wf(),
            open == !connection_active(old(self).state),
            open ==> *final(self) == (WsClient { state: WsConnectionState::Connecting, ..*old(self) }),
            !open ==> *final(self) == *old(self),
    {
        let s = self.state;
        if s == WsConnectionState::Connecting || s == WsConnectionState::Connected || s
            == WsConnectionState::Authenticated || s == WsConnectionState::InRoom || s
            == WsConnectionState::Reconnecting {
            return false;
        }
        self.state = WsConnectionState::Connecting;
        true
    }

    /// Whether the socket could be created: if so the client holds it, and if not the
    /// connection is in error.
    pub fn socket_created(&mut self, ok: bool)
        requires
            old(self).wf(),
        ensures
            final(self).wf(),
            ok ==> *final(self) == (WsClient { has_socket: true, ..*old(self) }),
            !ok ==> *final(self) == (WsClient { state: WsConnectionState::Error, ..*old(self) }),
    {
        if ok {
            self.has_socket = true;
        } else {
            self.state = WsConnectionState::Error;
        }
    }

    /// The socket opened: the client is connected and its reconnection count starts over.
    /// The answer says whether to authenticate now, which it does when a token is stored.
    pub fn on_open(&mut self, has_token: bool) -> (authenticate: bool)
        requires
            old(self).wf(),
        ensures
            final(self).wf(),
            authenticate == has_token,
            *final(self) == (WsClient {
                state: WsConnectionState::Connected,
                reconnect_attempts: 0,
                ..*old(self)
            }),
    {
        self.state = WsConnectionState::Connected;
        self.reconnect_attempts = 0;
        has_token
    }

    /// A server message arrived. Being authenticated, joining a room and leaving it move the
    /// state; joining records the room and leaving forgets it. Errors and all other messages
    /// leave the connection as it is.
    pub fn on_message(&mut self, event: WsServerEvent)
        requires
            old(self).wf(),
        ensures
            final(self).wf(),
            *final(self) == match event {
                WsServerEvent::Authenticated => WsClient {
                    state: WsConnectionState::Authenticated,
                    ..*old(self)
                },
                WsServerEvent::JoinedRoom(id) => WsClient {
                    state: WsConnectionState::InRoom,
                    household_id: Some(id),
                    ..*old(self)
                },
                WsServerEvent::LeftRoom => WsClient {
                    state: WsConnectionState::Authenticated,
                    household_id: None,
                    ..*old(self)
                },
                _ => *old(self),
            },
    {
        match event {
            WsServerEvent::Authenticated => {
                self.state = WsConnectionState::Authenticated;
            },
            WsServerEvent::JoinedRoom(id) => {
                self.household_id = Some(id);
                self.state = WsConnectionState::InRoom;
            },
            WsServerEvent::LeftRoom => {
                self.household_id = None;
                self.state = WsConnectionState::Authenticated;
            },
            _ => {},
        }
    }

    /// The socket reported an error.
    pub fn on_error(&mut self)
        requires
            old(self).wf(),
        ensures
            final(self).wf(),
            *final(self) == (WsClient { state: WsConnectionState::Error, ..*old(self) }),
    {
        self.state = WsConnectionState::Error;
    }

    /// The socket closed: the client drops it and leaves its room, then plans a reconnection.
    /// After the last allowed attempt it gives up and the connection is in error (`None`).
    /// Otherwise it waits to reconnect, counts one more attempt, and the answer is how many
    /// milliseconds to wait before calling `connect` again.
    pub fn on_close(&mut self) -> (delay: Option<u32>)
        requires
            old(self).wf(),
        ensures
            final(self).wf(),
            !final(self).has_socket,
            final(self).household_id is None,
            !reconnects_on_close(*old(self)) ==> delay is None
                && final(self).state == WsConnectionState::Error
                && final(self).reconnect_attempts == old(self).reconnect_attempts,
            reconnects_on_close(*old(self)) ==> (delay matches Some(
                d,
            ) && d == backoff_ms(old(self).reconnect_attempts as nat))
                && final(self).state == WsConnectionState::Reconnecting
                && final(self).reconnect_attempts == old(self).reconnect_attempts + 1,
            final(self).max_reconnect_attempts == old(self).max_reconnect_attempts,
    {
        self.state = WsConnectionState::Disconnected;
        self.household_id = None;
        self.has_socket = false;
        let attempts = self.reconnect_attempts;
        if attempts >= self.max_reconnect_attempts {
            self.state = WsConnectionState::Error;
            return None;
        }
        self.state = WsConnectionState::Reconnecting;
        self.reconnect_attempts = attempts + 1;
        proof {
            lemma2_to64();
            lemma_u32_shl_is_mul(1, attempts);
        }
        let delay = 1000 * (1u32 << attempts);
        Some(delay)
    }

    /// Whether there is a socket to send a message through.
    pub fn can_send(&self) -> (r: bool)
        ensures
            r == self.has_socket,
    {
        self.has_socket
    }

    /// Disconnects for good: no further reconnection will be made, the socket is dropped
    /// (the answer says whether there was one to close), and the client is disconnected and
    /// in no room.
    pub fn disconnect(&mut self) -> (close_socket: bool)
        requires
            old(self).wf(),
        ensures
            final(self).wf(),
            close_socket == old(self).has_socket,
            *final(self) == disconnected(*old(self)),
    {
        self.reconnect_attempts = self.max_reconnect_attempts;
        let close_socket = self.has_socket;
        self.has_socket = false;
        self.state = WsConnectionState::Disconnected;
        self.household_id = None;
        close_socket
    }

    /// Connected and in a room, so that chat messages can flow.
    pub fn is_ready(&self) -> (r: bool)
        ensures
            r == (self.state == WsConnectionState::InRoom),
    {
        self.state == WsConnectionState::InRoom
    }
}

/// A request to connect opens a socket only from a client with none open or on its way:
/// disconnected or failed. Connecting, connected, authenticated, in a room or waiting to
/// reconnect, it is ignored and answered `false`.
pub proof fn lemma_connect_only_from_idle(c: WsClient)
    ensures
        !connection_active(c.state) <==> (c.state == WsConnectionState::Disconnected || c.state
            == WsConnectionState::Error),
        connection_active(WsConnectionState::Connecting),
        connection_active(WsConnectionState::Connected),
        connection_active(WsConnectionState::Authenticated),
        connection_active(WsConnectionState::InRoom),
        connection_active(WsConnectionState::Reconnecting),
{
}


/// The waits before reconnections double each time, from one second up to sixteen.
pub proof fn lemma_backoff_doubles(attempts: nat)
    requires
        attempts < MAX_RECONNECT_ATTEMPTS,
    ensures
        backoff_ms(attempts + 1) == 2 * backoff_ms(attempts),
        backoff_ms(0) == 1000,
        backoff_ms(attempts) <= 16000,
{
    lemma2_to64();
    vstd::arithmetic::power2::lemma_pow2_unfold(attempts + 1);
    if attempts < 4 {
        vstd::arithmetic::power2::lemma_pow2_strictly_increases(attempts, 4);
    }
}

/// A client that was told to disconnect stays disconnected: when its socket's close event
/// arrives, no reconnection is planned.
pub proof fn lemma_disconnect_prevents_reconnect(c: WsClient)
    requires
        c.wf(),
    ensures
        disconnected(c).wf(),
        !reconnects_on_close(disconnected(c)),
{
}

/// An opened socket earns the client its full number of reconnections again.
pub proof fn lemma_open_restores_reconnects(c: WsClient)
    requires
        c.wf(),
    ensures
        reconnects_on_close(WsClient { state: WsConnectionState::Connected, reconnect_attempts: 0, ..c }),
{
}

} // verus!
