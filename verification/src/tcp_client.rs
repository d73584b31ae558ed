//! TCP client sessions: one outbound connection each.

use crate::codec::{
    decode, encode, hex_dump, hex_refusal, mode_named, outbound, EncodingMode, Payload,
};
use crate::error::{codec_error_text, fails_with, ErrorKind, SessionError};
use crate::event::{event_name, ClientEvent};
use crate::handles::{announce, clock_text, offer, resolve_id};
use crate::pump::ReadOutcome;
use crate::registry::{registered, unregistered, Registry};
use crate::text::{address_of, address_text, join2, join3};
use tokio::sync::broadcast::Sender;
use tokio::sync::mpsc::UnboundedSender;
use tokio::task::JoinHandle;
use vstd::prelude::*;
use vstd::utf8::{encode_utf8, valid_utf8};

verus! {

/// Where a client session stands.
#[derive(Clone, Copy, Debug, PartialEq, Eq, Structural)]
pub enum TcpClientState {
    Disconnected,
    Connecting,
    Connected,
    Error,
}

/// What a connection that was made hands to its session: the reader and
/// writer tasks, the signal that ends both, and the queue that the writer
/// drains.
pub struct TcpClientTasks {
    pub receive_handle: JoinHandle<()>,
    pub send_handle: JoinHandle<()>,
    pub shutdown_sender: Sender<()>,
    pub message_sender: UnboundedSender<Vec<u8>>,
}

/// One TCP client session.
pub struct TcpClient {
    pub host: String,
    pub port: u16,
    pub client_id: String,
    pub state: TcpClientState,
    pub receive_handle: Option<JoinHandle<()>>,
    pub send_handle: Option<JoinHandle<()>>,
    pub shutdown_sender: Option<Sender<()>>,
    pub message_sender: Option<UnboundedSender<Vec<u8>>>,
}

/// The TCP client sessions, by id.
pub struct TcpClientManager {
    pub clients: Registry<TcpClient>,
}

impl TcpClientManager {
    /// A manager without sessions.
    pub fn new() -> (manager: Self)
        ensures
            manager.clients.keys() == Seq::<Seq<char>>::empty(),
            manager.clients.values() == Seq::<TcpClient>::empty(),
    {
        TcpClientManager { clients: Registry::new() }
    }
}

impl Default for TcpClientManager {
    fn default() -> (manager: Self)
        ensures
            manager.clients.keys() == Seq::<Seq<char>>::empty(),
            manager.clients.values() == Seq::<TcpClient>::empty(),
    {
        Self::new()
    }
}

/// What a connect command carries.
#[derive(Clone, Debug)]
pub struct ConnectTcpClientParams {
    pub host: String,
    pub port: u16,
    pub client_id: Option<String>,
}

/// What a send command carries. The message type is `text` or `hex`, and
/// text when it is missing.
#[derive(Clone, Debug)]
pub struct SendTcpClientMessageParams {
    pub client_id: String,
    pub message: String,
    pub message_type: Option<String>,
}

/// The state of one session, as the screen lists it.
#[derive(Clone, Debug)]
pub struct TcpClientInfo {
    pub client_id: String,
    pub host: String,
    pub port: u16,
    pub state: TcpClientState,
}

/// An event as it crosses to the screen.
#[derive(Clone, Debug)]
pub struct TcpClientEvent {
    pub client_id: String,
    pub event_type: String,
    pub message: String,
    pub timestamp: String,
}

impl TcpClientEvent {
    /// The record of `event` on session `client_id` at `timestamp`.
    pub fn new(client_id: String, event: ClientEvent, timestamp: String) -> (record: Self)
        ensures
            record.client_id == client_id,
            record.event_type@ == event_name(event.kind()),
            record.message@ == event.line(),
            record.timestamp == timestamp,
    {
        let (kind, message) = event.into_parts();
        TcpClientEvent { client_id, event_type: kind.name(), message, timestamp }
    }

    /// The record of `event` on session `client_id`, stamped with the present
    /// moment. The timestamp is whatever the clock says.
    pub fn stamped(client_id: String, event: ClientEvent) -> (record: Self)
        ensures
            record.client_id == client_id,
            record.event_type@ == event_name(event.kind()),
            record.message@ == event.line(),
    {
        Self::new(client_id, event, clock_text())
    }
}

impl TcpClient {
    /// Whether `other` has this session's id, host and port.
    pub open spec fn same_settings(&self, other: &TcpClient) -> bool {
        &&& self.host == other.host
        &&& self.port == other.port
        &&& self.client_id == other.client_id
    }

    /// Whether `other` holds the same tasks, signal and queue.
    pub open spec fn same_tasks(&self, other: &TcpClient) -> bool {
        &&& self.receive_handle == other.receive_handle
        &&& self.send_handle == other.send_handle
        &&& self.shutdown_sender == other.shutdown_sender
        &&& self.message_sender == other.message_sender
    }

    /// Whether the session holds no task, signal or queue.
    pub open spec fn idle(&self) -> bool {
        &&& self.receive_handle is None
        &&& self.send_handle is None
        &&& self.shutdown_sender is None
        &&& self.message_sender is None
    }

    /// This session once it is connected: with the tasks, signal and queue
    /// of `tasks`, and otherwise as it is.
    pub open spec fn connected(self, tasks: TcpClientTasks) -> TcpClient {
        TcpClient {
            host: self.host,
            port: self.port,
            client_id: self.client_id,
            state: TcpClientState::Connected,
            receive_handle: Some(tasks.receive_handle),
            send_handle: Some(tasks.send_handle),
            shutdown_sender: Some(tasks.shutdown_sender),
            message_sender: Some(tasks.message_sender),
        }
    }

    /// A session that is not connected.
    pub fn new(host: String, port: u16, client_id: String) -> (client: Self)
        ensures
            client.host == host,
            client.port == port,
            client.client_id == client_id,
            client.state == TcpClientState::Disconnected,
            client.idle(),
    {
        TcpClient {
            host,
            port,
            client_id,
            state: TcpClientState::Disconnected,
            receive_handle: None,
            send_handle: None,
            shutdown_sender: None,
            message_sender: None,
        }
    }

    /// The address that the session connects to.
    pub fn target_address(&self) -> (addr: String)
        ensures
            addr@ == address_text(self.host@, self.port),
    {
        address_of(self.host.as_str(), self.port)
    }

    /// Begins a connect and returns the address to connect to. A session
    /// that is connected refuses; any other becomes `Connecting`.
    pub fn begin_connect(&mut self) -> (r: Result<String, SessionError>)
        ensures
            final(self).same_settings(old(self)),
            final(self).same_tasks(old(self)),
            old(self).state == TcpClientState::Connected ==> {
                &&& fails_with(r, ErrorKind::AlreadyConnected, "Already connected"@)
                &&& final(self).state == TcpClientState::Connected
            },
            old(self).state != TcpClientState::Connected ==> {
                &&& r matches Ok(addr)
                &&& addr@ == address_text(old(self).host@, old(self).port)
                &&& final(self).state == TcpClientState::Connecting
            },
    {
        if self.state == TcpClientState::Connected {
            return Err(
                SessionError::new(
                    ErrorKind::AlreadyConnected,
                    String::from_str("Already connected"),
                ),
            );
        }
        self.state = TcpClientState::Connecting;
        Ok(self.target_address())
    }

    /// Completes a connect with its outcome: the tasks of the connection
    /// that was made, or the reason why none was. Success makes the session
    /// `Connected` and is reported; failure makes it `Error`.
    pub fn connect(&mut self, outcome: Result<TcpClientTasks, String>) -> (r: Result<
        ClientEvent,
        SessionError,
    >)
        ensures
            final(self).same_settings(old(self)),
            match outcome {
                Ok(tasks) => {
                    &&& r matches Ok(ClientEvent::Connected { message })
                    &&& message@ == "Connected to "@ + address_text(old(self).host@, old(self).port)
                    &&& *final(self) == old(self).connected(tasks)
                },
                Err(reason) => {
                    &&& fails_with(
                        r,
                        ErrorKind::ConnectError,
                        "Failed to connect to "@ + address_text(old(self).host@, old(self).port)
                            + ": "@ + reason@,
                    )
                    &&& final(self).state == TcpClientState::Error
                    &&& final(self).same_tasks(old(self))
                },
            },
    {
        let addr = self.target_address();
        match outcome {
            Ok(tasks) => {
                self.receive_handle = Some(tasks.receive_handle);
                self.send_handle = Some(tasks.send_handle);
                self.shutdown_sender = Some(tasks.shutdown_sender);
                self.message_sender = Some(tasks.message_sender);
                self.state = TcpClientState::Connected;
                Ok(ClientEvent::Connected { message: join2("Connected to ", addr.as_str()) })
            },
            Err(reason) => {
                self.state = TcpClientState::Error;
                let mut message = join3("Failed to connect to ", addr.as_str(), ": ");
                message.append(reason.as_str());
                Err(SessionError::new(ErrorKind::ConnectError, message))
            },
        }
    }

    /// Begins a disconnect: raises the shutdown signal and hands out the
    /// reader and the writer task to wait for. A session that is not
    /// connected hands out nothing and stays as it is.
    pub fn begin_disconnect(&mut self) -> (tasks: (Option<JoinHandle<()>>, Option<JoinHandle<()>>))
        ensures
            final(self).same_settings(old(self)),
            final(self).state == old(self).state,
            final(self).shutdown_sender == old(self).shutdown_sender,
            final(self).message_sender == old(self).message_sender,
            old(self).state != TcpClientState::Connected ==> {
                &&& tasks == (None::<JoinHandle<()>>, None::<JoinHandle<()>>)
                &&& *final(self) == *old(self)
            },
            old(self).state == TcpClientState::Connected ==> {
                &&& tasks == (old(self).receive_handle, old(self).send_handle)
                &&& final(self).receive_handle is None
                &&& final(self).send_handle is None
            },
    {
        if self.state != TcpClientState::Connected {
            return (None, None);
        }
        match &self.shutdown_sender {
            Some(signal) => {
                let _ = announce(signal);
            },
            None => {},
        }
        (self.receive_handle.take(), self.send_handle.take())
    }

    /// Completes a disconnect once both tasks have ended: the session lets
    /// go of signal and queue, becomes `Disconnected` and reports it. A
    /// session that is not connected stays as it is and reports nothing.
    pub fn disconnect(&mut self) -> (event: Option<ClientEvent>)
        ensures
            final(self).same_settings(old(self)),
            old(self).state != TcpClientState::Connected ==> event is None && *final(self) == *old(
                self,
            ),
            old(self).state == TcpClientState::Connected ==> {
                &&& event matches Some(ClientEvent::Disconnected { message })
                &&& message@ == "Disconnected from server"@
                &&& final(self).state == TcpClientState::Disconnected
                &&& final(self).shutdown_sender is None
                &&& final(self).message_sender is None
                &&& final(self).receive_handle == old(self).receive_handle
                &&& final(self).send_handle == old(self).send_handle
            },
    {
        if self.state != TcpClientState::Connected {
            return None;
        }
        self.shutdown_sender = None;
        self.message_sender = None;
        self.state = TcpClientState::Disconnected;
        Some(ClientEvent::Disconnected { message: String::from_str("Disconnected from server") })
    }

    /// Whether `r` is what a send reports on this session when the queue
    /// answered `outcome`.
    pub open spec fn send_reported(outcome: Result<(), String>, r: Result<(), SessionError>) -> bool {
        match outcome {
            Ok(()) => r is Ok,
            Err(reason) => fails_with(
                r,
                ErrorKind::SendFailure,
                "Failed to send message: "@ + reason@,
            ),
        }
    }

    /// What a send reports, given the answer of the queue.
    pub fn send_report(outcome: Result<(), String>) -> (r: Result<(), SessionError>)
        ensures
            Self::send_reported(outcome, r),
    {
        match outcome {
            Ok(()) => Ok(()),
            Err(reason) => Err(
                SessionError::new(
                    ErrorKind::SendFailure,
                    join2("Failed to send message: ", reason.as_str()),
                ),
            ),
        }
    }

    /// Whether `r` is what sending on this session reports: only a connected
    /// session sends, and only through its queue; then the report is that of
    /// `send_report` for whatever the queue answered.
    pub open spec fn sends(&self, r: Result<(), SessionError>) -> bool {
        if self.state != TcpClientState::Connected {
            fails_with(r, ErrorKind::NotConnected, "Not connected"@)
        } else if self.message_sender is None {
            fails_with(r, ErrorKind::NotConnected, "Message sender not available"@)
        } else {
            exists|outcome: Result<(), String>| Self::send_reported(outcome, r)
        }
    }

    /// Puts `message` on the outbound queue.
    pub fn send_message(&self, message: Vec<u8>) -> (r: Result<(), SessionError>)
        ensures
            self.sends(r),
            self.state == TcpClientState::Connected && self.message_sender is Some ==> r is Ok
                || fails_with(
                r,
                ErrorKind::SendFailure,
                "Failed to send message: "@ + "channel closed"@,
            ),
    {
        if self.state != TcpClientState::Connected {
            return Err(
                SessionError::new(ErrorKind::NotConnected, String::from_str("Not connected")),
            );
        }
        match &self.message_sender {
            Some(queue) => {
                let outcome = offer(queue, message);
                let r = Self::send_report(outcome);
                assert(Self::send_reported(outcome, r));
                r
            },
            None => Err(
                SessionError::new(
                    ErrorKind::NotConnected,
                    String::from_str("Message sender not available"),
                ),
            ),
        }
    }
}

/// Whether `step` is what the reader does with what woke it: the shutdown
/// signal ends it in silence; a closed stream and a failed read are reported
/// and end it; bytes are decoded and reported, as a message with their text
/// when they are UTF-8 and as binary with their hex dump when they are not,
/// and the reader reads on. The second component tells whether the reader
/// reads on.
pub open spec fn read_step_of(outcome: ReadOutcome, step: (Option<ClientEvent>, bool)) -> bool {
    match outcome {
        ReadOutcome::Shutdown => step.0 is None && !step.1,
        ReadOutcome::Closed => {
            &&& step.0 matches Some(ClientEvent::Disconnected { message })
            &&& message@ == "Connection closed by server"@
            &&& !step.1
        },
        ReadOutcome::Data(bytes) => {
            &&& step.1
            &&& if valid_utf8(bytes@) {
                &&& step.0 matches Some(ClientEvent::MessageReceived { message })
                &&& encode_utf8(message@) == bytes@
            } else {
                &&& step.0 matches Some(ClientEvent::BinaryReceived { message })
                &&& message@ == hex_dump(bytes@)
            }
        },
        ReadOutcome::Failed(cause) => {
            &&& step.0 matches Some(ClientEvent::Error { reason })
            &&& reason == cause
            &&& !step.1
        },
    }
}

/// The reader's decision.
pub fn receive_step(outcome: ReadOutcome) -> (step: (Option<ClientEvent>, bool))
    ensures
        read_step_of(outcome, step),
{
    match outcome {
        ReadOutcome::Shutdown => (None, false),
        ReadOutcome::Closed => (
            Some(
                ClientEvent::Disconnected {
                    message: String::from_str("Connection closed by server"),
                },
            ),
            false,
        ),
        ReadOutcome::Data(bytes) => match decode(bytes.as_slice()) {
            Payload::Text(message) => (Some(ClientEvent::MessageReceived { message }), true),
            Payload::Binary(message) => (Some(ClientEvent::BinaryReceived { message }), true),
        },
        ReadOutcome::Failed(reason) => (Some(ClientEvent::Error { reason }), false),
    }
}

/// Whether `info` is the listing of the session `client`.
pub open spec fn describes(info: TcpClientInfo, client: TcpClient) -> bool {
    &&& info.client_id@ == client.client_id@
    &&& info.host@ == client.host@
    &&& info.port == client.port
    &&& info.state == client.state
}

fn info_of(client: &TcpClient) -> (info: TcpClientInfo)
    ensures
        describes(info, *client),
{
    TcpClientInfo {
        client_id: client.client_id.clone(),
        host: client.host.clone(),
        port: client.port,
        state: client.state,
    }
}

fn not_found<T>(client_id: &str) -> (r: Result<T, SessionError>)
    ensures
        fails_with(r, ErrorKind::NotFound, "TCP client "@ + client_id@ + " not found"@),
{
    Err(SessionError::about(ErrorKind::NotFound, "TCP client ", client_id, " not found"))
}

/// Whether `r` is what asking for a new session under the id `client_id`
/// gives: an id that is registered is refused; otherwise the session is
/// made, not connected.
pub open spec fn prepares(
    manager: &TcpClientManager,
    host: String,
    port: u16,
    client_id: String,
    r: Result<TcpClient, SessionError>,
) -> bool {
    if manager.clients.contains_key(client_id@) {
        fails_with(r, ErrorKind::DuplicateId, "TCP client "@ + client_id@ + " already exists"@)
    } else {
        &&& r matches Ok(client)
        &&& client.host == host
        &&& client.port == port
        &&& client.client_id == client_id
        &&& client.state == TcpClientState::Disconnected
        &&& client.idle()
    }
}

/// Makes the session for a connect command under the id `client_id`.
pub fn prepare_tcp_client(
    manager: &TcpClientManager,
    host: String,
    port: u16,
    client_id: String,
) -> (r: Result<TcpClient, SessionError>)
    ensures
        prepares(manager, host, port, client_id, r),
{
    if manager.clients.contains(&client_id) {
        Err(
            SessionError::about(
                ErrorKind::DuplicateId,
                "TCP client ",
                client_id.as_str(),
                " already exists",
            ),
        )
    } else {
        Ok(TcpClient::new(host, port, client_id))
    }
}

/// Makes the session for a connect command: under the id that the command
/// names, or under a random one where it names none. A registered id is
/// refused before anything is connected.
pub fn new_tcp_client(manager: &TcpClientManager, params: ConnectTcpClientParams) -> (r: Result<
    TcpClient,
    SessionError,
>)
    ensures
        match r {
            Ok(client) => {
                &&& client.host == params.host
                &&& client.port == params.port
                &&& params.client_id matches Some(id) ==> client.client_id == id
                &&& params.client_id is None ==> client.client_id@.len() == 36
                &&& !manager.clients.contains_key(client.client_id@)
                &&& client.state == TcpClientState::Disconnected
                &&& client.idle()
            },
            Err(e) => e.kind == ErrorKind::DuplicateId,
        },
        params.client_id matches Some(id) ==> prepares(manager, params.host, params.port, id, r),
        exists|id: String| #[trigger] prepares(manager, params.host, params.port, id, r),
{
    let client_id = resolve_id(params.client_id);
    let r = prepare_tcp_client(manager, params.host, params.port, client_id);
    assert(prepares(manager, params.host, params.port, client_id, r));
    r
}

/// Whether `r` and `after` are what completing the connect of `client` gives
/// on the registry `before`, where `outcome` is the tasks of the connection
/// that was made, or the reason why none was.
///
/// An id that is registered and a failed connect are refused, in this order,
/// and the registry stays as it was: a session that is not connected is
/// never registered. Otherwise the session is registered as connected, and
/// its id comes back with the event that reports the connection.
pub open spec fn connects(
    before: &TcpClientManager,
    client: TcpClient,
    outcome: Result<TcpClientTasks, String>,
    after: &TcpClientManager,
    r: Result<(String, ClientEvent), SessionError>,
) -> bool {
    if before.clients.contains_key(client.client_id@) {
        fails_with(
            r,
            ErrorKind::DuplicateId,
            "TCP client "@ + client.client_id@ + " already exists"@,
        ) && *after == *before
    } else {
        match outcome {
            Err(reason) => fails_with(
                r,
                ErrorKind::ConnectError,
                "Failed to connect to "@ + address_text(client.host@, client.port) + ": "@
                    + reason@,
            ) && *after == *before,
            Ok(tasks) => {
                &&& r matches Ok((id, ClientEvent::Connected { message }))
                &&& id@ == client.client_id@
                &&& message@ == "Connected to "@ + address_text(client.host@, client.port)
                &&& after.clients.keys() == before.clients.keys().push(client.client_id@)
                &&& after.clients.values() == before.clients.values().push(client.connected(tasks))
                &&& after.clients.dom() == before.clients.dom().insert(client.client_id@)
            },
        }
    }
}

/// Completes the connect of a session and registers it.
pub fn connect_tcp_client(
    manager: &mut TcpClientManager,
    client: TcpClient,
    outcome: Result<TcpClientTasks, String>,
) -> (r: Result<(String, ClientEvent), SessionError>)
    ensures
        connects(old(manager), client, outcome, final(manager), r),
        r is Ok ==> final(manager).clients.keys() == registered(
            old(manager).clients.keys(),
            client.client_id@,
        ),
        r is Ok ==> final(manager).clients.contains_key(client.client_id@),
        r is Err ==> *final(manager) == *old(manager),
{
    if manager.clients.contains(&client.client_id) {
        return Err(
            SessionError::about(
                ErrorKind::DuplicateId,
                "TCP client ",
                client.client_id.as_str(),
                " already exists",
            ),
        );
    }
    let mut connected = client;
    let event = match connected.connect(outcome) {
        Ok(event) => event,
        Err(e) => {
            return Err(e);
        },
    };
    let id = connected.client_id.clone();
    manager.clients.insert(connected.client_id.clone(), connected);
    Ok((id, event))
}

/// Whether `r` and `after` are what a disconnect command for `client_id`
/// gives on the registry `before`: an unknown id fails and changes nothing;
/// otherwise the session leaves the registry at once and comes back with
/// its disconnect begun, together with the tasks that the caller has to wait
/// for.
pub open spec fn disconnects(
    before: &TcpClientManager,
    client_id: Seq<char>,
    after: &TcpClientManager,
    r: Result<(TcpClient, (Option<JoinHandle<()>>, Option<JoinHandle<()>>)), SessionError>,
) -> bool {
    if !before.clients.contains_key(client_id) {
        fails_with(r, ErrorKind::NotFound, "TCP client "@ + client_id + " not found"@) && *after
            == *before
    } else {
        let at = before.clients.position(client_id);
        let was = before.clients.values()[at];
        &&& r matches Ok((client, tasks))
        &&& client.same_settings(&was)
        &&& client.state == was.state
        &&& client.shutdown_sender == was.shutdown_sender
        &&& client.message_sender == was.message_sender
        &&& if was.state == TcpClientState::Connected {
            &&& tasks == (was.receive_handle, was.send_handle)
            &&& client.receive_handle is None
            &&& client.send_handle is None
        } else {
            &&& tasks == (None::<JoinHandle<()>>, None::<JoinHandle<()>>)
            &&& client == was
        }
        &&& after.clients.keys() == before.clients.keys().remove(at)
        &&& after.clients.values() == before.clients.values().remove(at)
        &&& after.clients.dom() == before.clients.dom().remove(client_id)
        &&& !after.clients.contains_key(client_id)
    }
}

/// Takes a session out of the registry and begins its disconnect.
///
/// The caller waits for the tasks that come back and then completes the
/// disconnect with `TcpClient::disconnect`.
pub fn disconnect_tcp_client(manager: &mut TcpClientManager, client_id: String) -> (r: Result<
    (TcpClient, (Option<JoinHandle<()>>, Option<JoinHandle<()>>)),
    SessionError,
>)
    ensures
        disconnects(old(manager), client_id@, final(manager), r),
        final(manager).clients.keys() == unregistered(old(manager).clients.keys(), client_id@),
{
    match manager.clients.remove(&client_id) {
        Some(client) => {
            let mut client = client;
            let tasks = client.begin_disconnect();
            Ok((client, tasks))
        },
        None => not_found(client_id.as_str()),
    }
}

/// Whether `r` is what a send command reports on the registry `manager`.
///
/// In this order: the message must stand for bytes in its encoding, so that
/// a message that does not is refused before anything is sent; the session
/// must be registered; then the report is that of the session's own send.
pub open spec fn send_reported(
    manager: &TcpClientManager,
    params: SendTcpClientMessageParams,
    r: Result<(), SessionError>,
) -> bool {
    let mode = mode_named(params.message_type);
    if outbound(params.message@, mode) is None {
        fails_with(r, ErrorKind::CodecError, codec_error_text(hex_refusal(params.message@)))
    } else if !manager.clients.contains_key(params.client_id@) {
        fails_with(r, ErrorKind::NotFound, "TCP client "@ + params.client_id@ + " not found"@)
    } else {
        manager.clients.value_of(params.client_id@).sends(r)
    }
}

/// Carries out a send command.
pub fn send_tcp_client_message(manager: &TcpClientManager, params: SendTcpClientMessageParams) -> (r:
    Result<(), SessionError>)
    ensures
        send_reported(manager, params, r),
{
    let mode = EncodingMode::named(&params.message_type);
    let data = match encode(params.message.as_str(), mode) {
        Ok(data) => data,
        Err(error) => {
            return Err(SessionError::from_codec(error));
        },
    };
    match manager.clients.get(&params.client_id) {
        Some(client) => client.send_message(data),
        None => not_found(params.client_id.as_str()),
    }
}

/// Lists every session, in registration order.
pub fn get_tcp_clients(manager: &TcpClientManager) -> (r: Result<Vec<TcpClientInfo>, SessionError>)
    ensures
        r matches Ok(infos) && infos@.len() == manager.clients.keys().len() && forall|i: int|
            0 <= i < infos@.len() ==> describes(#[trigger] infos@[i], manager.clients.values()[i]),
{
    let count = manager.clients.len();
    let mut infos: Vec<TcpClientInfo> = Vec::new();
    let mut i: usize = 0;
    while i < count
        invariant
            count == manager.clients.keys().len(),
            manager.clients.valid(),
            i <= count,
            infos@.len() == i,
            forall|j: int|
                0 <= j < i ==> describes(#[trigger] infos@[j], manager.clients.values()[j]),
        decreases count - i,
    {
        infos.push(info_of(manager.clients.value_at(i)));
        i += 1;
    }
    Ok(infos)
}

/// Describes one session.
pub fn get_tcp_client_info(manager: &TcpClientManager, client_id: String) -> (r: Result<
    TcpClientInfo,
    SessionError,
>)
    ensures
        !manager.clients.contains_key(client_id@) ==> fails_with(
            r,
            ErrorKind::NotFound,
            "TCP client "@ + client_id@ + " not found"@,
        ),
        manager.clients.contains_key(client_id@) ==> {
            &&& r matches Ok(info)
            &&& describes(info, manager.clients.value_of(client_id@))
        },
{
    match manager.clients.get(&client_id) {
        Some(client) => Ok(info_of(client)),
        None => not_found(client_id.as_str()),
    }
}

} // verus!
