//! What a session reports to the screen.
//!
//! Each kind of event is a case of its own, holding what that kind needs and
//! nothing else. The flat records that cross to the screen are made from
//! these cases in the modules of the single protocols.

use vstd::prelude::*;

verus! {

/// The kinds of event.
#[derive(Clone, Copy, Debug, PartialEq, Eq, Structural)]
pub enum EventKind {
    Connected,
    Disconnected,
    ClientConnected,
    ClientDisconnected,
    MessageReceived,
    BinaryReceived,
    Error,
}

/// The name under which a kind of event crosses to the screen.
pub open spec fn event_name(kind: EventKind) -> Seq<char> {
    match kind {
        EventKind::Connected => "connected"@,
        EventKind::Disconnected => "disconnected"@,
        EventKind::ClientConnected => "client_connected"@,
        EventKind::ClientDisconnected => "client_disconnected"@,
        EventKind::MessageReceived => "message_received"@,
        EventKind::BinaryReceived => "binary_received"@,
        EventKind::Error => "error"@,
    }
}

impl EventKind {
    /// The name under which this kind crosses to the screen.
    pub fn name(self) -> (name: String)
        ensures
            name@ == event_name(self),
    {
        match self {
            EventKind::Connected => String::from_str("connected"),
            EventKind::Disconnected => String::from_str("disconnected"),
            EventKind::ClientConnected => String::from_str("client_connected"),
            EventKind::ClientDisconnected => String::from_str("client_disconnected"),
            EventKind::MessageReceived => String::from_str("message_received"),
            EventKind::BinaryReceived => String::from_str("binary_received"),
            EventKind::Error => String::from_str("error"),
        }
    }
}

/// An event on one connection of a server session.
#[derive(Debug)]
pub enum ServerEvent {
    /// A peer was accepted from the address `peer`.
    ClientConnected { client_id: String, peer: String },
    /// The peer closed the connection.
    ClientDisconnected { client_id: String },
    /// The peer sent something that reads as `message`.
    MessageReceived { client_id: String, message: String },
    /// The peer sent bytes that are no text; `dump` is their hex dump.
    BinaryReceived { client_id: String, dump: String },
    /// Reading from the peer failed for `reason`.
    Error { client_id: String, reason: String },
}

impl ServerEvent {
    /// The kind of this event.
    pub open spec fn kind(self) -> EventKind {
        match self {
            ServerEvent::ClientConnected { .. } => EventKind::ClientConnected,
            ServerEvent::ClientDisconnected { .. } => EventKind::ClientDisconnected,
            ServerEvent::MessageReceived { .. } => EventKind::MessageReceived,
            ServerEvent::BinaryReceived { .. } => EventKind::BinaryReceived,
            ServerEvent::Error { .. } => EventKind::Error,
        }
    }

    /// The connection that this event is about.
    pub open spec fn client(self) -> Seq<char> {
        match self {
            ServerEvent::ClientConnected { client_id, .. } => client_id@,
            ServerEvent::ClientDisconnected { client_id } => client_id@,
            ServerEvent::MessageReceived { client_id, .. } => client_id@,
            ServerEvent::BinaryReceived { client_id, .. } => client_id@,
            ServerEvent::Error { client_id, .. } => client_id@,
        }
    }

    /// The line shown for this event.
    pub open spec fn line(self) -> Seq<char> {
        match self {
            ServerEvent::ClientConnected { peer, .. } => "Client connected from "@ + peer@,
            ServerEvent::ClientDisconnected { .. } => "Client disconnected"@,
            ServerEvent::MessageReceived { message, .. } => message@,
            ServerEvent::BinaryReceived { dump, .. } => dump@,
            ServerEvent::Error { reason, .. } => "Read error: "@ + reason@,
        }
    }

    /// Splits the event into its kind, its connection and its line.
    pub fn into_parts(self) -> (parts: (EventKind, String, String))
        ensures
            parts.0 == self.kind(),
            parts.1@ == self.client(),
            parts.2@ == self.line(),
    {
        match self {
            ServerEvent::ClientConnected { client_id, peer } => (
                EventKind::ClientConnected,
                client_id,
                crate::text::join2("Client connected from ", peer.as_str()),
            ),
            ServerEvent::ClientDisconnected { client_id } => (
                EventKind::ClientDisconnected,
                client_id,
                String::from_str("Client disconnected"),
            ),
            ServerEvent::MessageReceived { client_id, message } => (
                EventKind::MessageReceived,
                client_id,
                message,
            ),
            ServerEvent::BinaryReceived { client_id, dump } => (
                EventKind::BinaryReceived,
                client_id,
                dump,
            ),
            ServerEvent::Error { client_id, reason } => (
                EventKind::Error,
                client_id,
                crate::text::join2("Read error: ", reason.as_str()),
            ),
        }
    }
}

/// An event of a client session.
#[derive(Debug)]
pub enum ClientEvent {
    /// The session is up; `message` says where.
    Connected { message: String },
    /// The session is down; `message` says who ended it.
    Disconnected { message: String },
    /// Something arrived that reads as `message`.
    MessageReceived { message: String },
    /// Bytes arrived that are no text; `message` shows their hex dump.
    BinaryReceived { message: String },
    /// Reading failed for `reason`.
    Error { reason: String },
}

impl ClientEvent {
    /// The kind of this event.
    pub open spec fn kind(self) -> EventKind {
        match self {
            ClientEvent::Connected { .. } => EventKind::Connected,
            ClientEvent::Disconnected { .. } => EventKind::Disconnected,
            ClientEvent::MessageReceived { .. } => EventKind::MessageReceived,
            ClientEvent::BinaryReceived { .. } => EventKind::BinaryReceived,
            ClientEvent::Error { .. } => EventKind::Error,
        }
    }

    /// The line shown for this event.
    pub open spec fn line(self) -> Seq<char> {
        match self {
            ClientEvent::Connected { message } => message@,
            ClientEvent::Disconnected { message } => message@,
            ClientEvent::MessageReceived { message } => message@,
            ClientEvent::BinaryReceived { message } => message@,
            ClientEvent::Error { reason } => "Read error: "@ + reason@,
        }
    }

    /// Splits the event into its kind and its line.
    pub fn into_parts(self) -> (parts: (EventKind, String))
        ensures
            parts.0 == self.kind(),
            parts.1@ == self.line(),
    {
        match self {
            ClientEvent::Connected { message } => (EventKind::Connected, message),
            ClientEvent::Disconnected { message } => (EventKind::Disconnected, message),
            ClientEvent::MessageReceived { message } => (EventKind::MessageReceived, message),
            ClientEvent::BinaryReceived { message } => (EventKind::BinaryReceived, message),
            ClientEvent::Error { reason } => (
                EventKind::Error,
                crate::text::join2("Read error: ", reason.as_str()),
            ),
        }
    }
}

} // verus!
