//! UDP client sessions: one bound local endpoint each.
//!
//! A UDP session is "connected" when its endpoint is bound and its tasks
//! run; it is not paired to one peer. It takes datagrams from anyone, and
//! every send names its destination. `A` is the type of a destination.

use crate::codec::{
    decode, encode, hex_dump, hex_refusal, mode_named, outbound, EncodingMode, Payload,
};
use crate::error::{codec_error_text, fails_with, ErrorKind, SessionError};
use crate::event::{event_name, ClientEvent};
use crate::handles::{announce, clock_text, offer, resolve_id};
use crate::registry::{registered, unregistered, Registry};
use crate::text::{address_of, address_text, decimal, join2, join3, push_decimal};
use tokio::sync::broadcast::Sender;
use tokio::sync::mpsc::UnboundedSender;
use tokio::task::JoinHandle;
use vstd::prelude::*;
use vstd::utf8::{encode_utf8, valid_utf8};

verus! {

/// Where a client session stands.
#[derive(Clone, Copy, Debug, PartialEq, Eq, Structural)]
pub enum UdpClientState {
    Disconnected,
    Connecting,
    Connected,
    Error,
}

/// What an endpoint that was bound hands to its session: the port it got,
/// the reader and writer tasks, the signal that ends both, and the queue
/// that the writer drains.
#[verifier::reject_recursive_types(A)]
pub struct UdpClientTasks<A> {
    pub actual_port: u16,
    pub receive_handle: JoinHandle<()>,
    pub send_handle: JoinHandle<()>,
    pub shutdown_sender: Sender<()>,
    pub message_sender: UnboundedSender<(Vec<u8>, A)>,
}

/// One UDP client session. `local_port` is the port asked for, if any;
/// `actual_port` the port that was bound, and 0 before that.
#[verifier::reject_recursive_types(A)]
pub struct UdpClient<A> {
    pub local_port: Option<u16>,
    pub actual_port: u16,
    pub client_id: String,
    pub state: UdpClientState,
    pub receive_handle: Option<JoinHandle<()>>,
    pub send_handle: Option<JoinHandle<()>>,
    pub shutdown_sender: Option<Sender<()>>,
    pub message_sender: Option<UnboundedSender<(Vec<u8>, A)>>,
}

/// The UDP client sessions, by id.
#[verifier::reject_recursive_types(A)]
pub struct UdpClientManager<A> {
    pub clients: Registry<UdpClient<A>>,
}

impl<A> UdpClientManager<A> {
    /// A manager without sessions.
    pub fn new() -> (manager: Self)
        ensures
            manager.clients.keys() == Seq::<Seq<char>>::empty(),
            manager.clients.values() == Seq::<UdpClient<A>>::empty(),
    {
        UdpClientManager { clients: Registry::new() }
    }
}

impl<A> Default for UdpClientManager<A> {
    fn default() -> (manager: Self)
        ensures
            manager.clients.keys() == Seq::<Seq<char>>::empty(),
            manager.clients.values() == Seq::<UdpClient<A>>::empty(),
    {
        Self::new()
    }
}

/// What a start command carries. Without a port the system picks one.
#[derive(Clone, Debug)]
pub struct StartUdpClientParams {
    pub local_port: Option<u16>,
    pub client_id: Option<String>,
}

/// What a send command carries. The message type is `text` or `hex`, and
/// text when it is missing.
#[derive(Clone, Debug)]
pub struct SendUdpClientMessageParams {
    pub client_id: String,
    pub target_host: String,
    pub target_port: u16,
    pub message: String,
    pub message_type: Option<String>,
}

/// The state of one session, as the screen lists it.
#[derive(Clone, Debug)]
pub struct UdpClientInfo {
    pub client_id: String,
    pub local_port: u16,
    pub state: UdpClientState,
}

/// What woke the reader of a UDP session.
#[derive(Debug)]
pub enum DatagramOutcome {
    /// The shutdown signal.
    Shutdown,
    /// A datagram of these bytes from the address `from`. A datagram may be
    /// empty; that ends nothing.
    Datagram { data: Vec<u8>, from: String },
    /// A failed read, with the reason in words.
    Failed(String),
}

/// An event as it crosses to the screen.
#[derive(Clone, Debug)]
pub struct UdpClientEvent {
    pub client_id: String,
    pub event_type: String,
    pub message: String,
    pub timestamp: String,
}

impl UdpClientEvent {
    /// The record of `event` on session `client_id` at `timestamp`.
    pub fn new(client_id: String, event: ClientEvent, timestamp: String) -> (record: Self)
        ensures
            record.client_id == client_id,
            record.event_type@ == event_name(event.kind()),
            record.message@ == event.line(),
            record.timestamp == timestamp,
    {
        let (kind, message) = event.into_parts();
        UdpClientEvent { client_id, event_type: kind.name(), message, timestamp }
    }

    /// The record of `event` on session `client_id`, stamped with the present
    /// moment. The timestamp is whatever the clock says.
    pub fn stamped(client_id: String, event: ClientEvent) -> (record: Self)
        ensures
            record.client_id == client_id,
            record.event_type@ == event_name(event.kind()),
            record.message@ == event.line(),
    {
        Self::new(client_id, event, clock_text())
    }
}

/// The port that a session binds when it was asked for `local_port`: that
/// port, or 0, which lets the system pick one.
pub open spec fn port_to_bind(local_port: Option<u16>) -> u16 {
    match local_port {
        Some(port) => port,
        None => 0,
    }
}

/// The text of the local address that a session binds.
pub open spec fn bind_text(local_port: Option<u16>) -> Seq<char> {
    address_text("0.0.0.0"@, port_to_bind(local_port))
}

impl<A> UdpClient<A> {
    /// Whether `other` has this session's id and the port it asked for.
    pub open spec fn same_settings(&self, other: &UdpClient<A>) -> bool {
        &&& self.local_port == other.local_port
        &&& self.client_id == other.client_id
    }

    /// Whether `other` holds the same tasks, signal and queue.
    pub open spec fn same_tasks(&self, other: &UdpClient<A>) -> bool {
        &&& self.receive_handle == other.receive_handle
        &&& self.send_handle == other.send_handle
        &&& self.shutdown_sender == other.shutdown_sender
        &&& self.message_sender == other.message_sender
    }

    /// Whether the session holds no task, signal or queue.
    pub open spec fn idle(&self) -> bool {
        &&& self.receive_handle is None
        &&& self.send_handle is None
        &&& self.shutdown_sender is None
        &&& self.message_sender is None
    }

    /// This session once it has started: with the port, tasks, signal and
    /// queue of `tasks`, and otherwise as it is.
    pub open spec fn started(self, tasks: UdpClientTasks<A>) -> UdpClient<A> {
        UdpClient {
            local_port: self.local_port,
            actual_port: tasks.actual_port,
            client_id: self.client_id,
            state: UdpClientState::Connected,
            receive_handle: Some(tasks.receive_handle),
            send_handle: Some(tasks.send_handle),
            shutdown_sender: Some(tasks.shutdown_sender),
            message_sender: Some(tasks.message_sender),
        }
    }

    /// A session that has not started.
    pub fn new(local_port: Option<u16>, client_id: String) -> (client: Self)
        ensures
            client.local_port == local_port,
            client.actual_port == 0,
            client.client_id == client_id,
            client.state == UdpClientState::Disconnected,
            client.idle(),
    {
        UdpClient {
            local_port,
            actual_port: 0,
            client_id,
            state: UdpClientState::Disconnected,
            receive_handle: None,
            send_handle: None,
            shutdown_sender: None,
            message_sender: None,
        }
    }

    /// The local address that the session binds: every interface, at the
    /// port asked for or at one the system picks.
    pub fn bind_address(&self) -> (addr: String)
        ensures
            addr@ == bind_text(self.local_port),
    {
        let port: u16 = match self.local_port {
            Some(port) => port,
            None => 0,
        };
        address_of("0.0.0.0", port)
    }

    /// Begins a start and returns the address to bind. A session that has
    /// started refuses; any other becomes `Connecting`.
    pub fn begin_start(&mut self) -> (r: Result<String, SessionError>)
        ensures
            final(self).same_settings(old(self)),
            final(self).same_tasks(old(self)),
            final(self).actual_port == old(self).actual_port,
            old(self).state == UdpClientState::Connected ==> {
                &&& fails_with(r, ErrorKind::AlreadyConnected, "Already started"@)
                &&& final(self).state == UdpClientState::Connected
            },
            old(self).state != UdpClientState::Connected ==> {
                &&& r matches Ok(addr)
                &&& addr@ == bind_text(old(self).local_port)
                &&& final(self).state == UdpClientState::Connecting
            },
    {
        if self.state == UdpClientState::Connected {
            return Err(
                SessionError::new(ErrorKind::AlreadyConnected, String::from_str("Already started")),
            );
        }
        self.state = UdpClientState::Connecting;
        Ok(self.bind_address())
    }

    /// Completes a start with its outcome: the port and tasks of the
    /// endpoint that was bound, or the reason why none was. Success makes
    /// the session `Connected` and is reported; failure makes it `Error`.
    pub fn start(&mut self, outcome: Result<UdpClientTasks<A>, String>) -> (r: Result<
        ClientEvent,
        SessionError,
    >)
        ensures
            final(self).same_settings(old(self)),
            match outcome {
                Ok(tasks) => {
                    &&& r matches Ok(ClientEvent::Connected { message })
                    &&& message@ == "UDP client started on port "@ + decimal(
                        tasks.actual_port as nat,
                    )
                    &&& *final(self) == old(self).started(tasks)
                },
                Err(reason) => {
                    &&& fails_with(
                        r,
                        ErrorKind::BindError,
                        "Failed to bind UDP socket to "@ + bind_text(old(self).local_port) + ": "@
                            + reason@,
                    )
                    &&& final(self).state == UdpClientState::Error
                    &&& final(self).actual_port == old(self).actual_port
                    &&& final(self).same_tasks(old(self))
                },
            },
    {
        match outcome {
            Ok(tasks) => {
                let mut message = String::from_str("UDP client started on port ");
                push_decimal(&mut message, tasks.actual_port as u64);
                self.actual_port = tasks.actual_port;
                self.receive_handle = Some(tasks.receive_handle);
                self.send_handle = Some(tasks.send_handle);
                self.shutdown_sender = Some(tasks.shutdown_sender);
                self.message_sender = Some(tasks.message_sender);
                self.state = UdpClientState::Connected;
                Ok(ClientEvent::Connected { message })
            },
            Err(reason) => {
                self.state = UdpClientState::Error;
                let addr = self.bind_address();
                let mut message = join3("Failed to bind UDP socket to ", addr.as_str(), ": ");
                message.append(reason.as_str());
                Err(SessionError::new(ErrorKind::BindError, message))
            },
        }
    }

    /// Begins a stop: raises the shutdown signal and hands out the reader
    /// and the writer task to wait for. A session that has not started hands
    /// out nothing and stays as it is.
    pub fn begin_stop(&mut self) -> (tasks: (Option<JoinHandle<()>>, Option<JoinHandle<()>>))
        ensures
            final(self).same_settings(old(self)),
            final(self).state == old(self).state,
            final(self).actual_port == old(self).actual_port,
            final(self).shutdown_sender == old(self).shutdown_sender,
            final(self).message_sender == old(self).message_sender,
            old(self).state != UdpClientState::Connected ==> {
                &&& tasks == (None::<JoinHandle<()>>, None::<JoinHandle<()>>)
                &&& *final(self) == *old(self)
            },
            old(self).state == UdpClientState::Connected ==> {
                &&& tasks == (old(self).receive_handle, old(self).send_handle)
                &&& final(self).receive_handle is None
                &&& final(self).send_handle is None
            },
    {
        if self.state != UdpClientState::Connected {
            return (None, None);
        }
        match &self.shutdown_sender {
            Some(signal) => {
                let _ = announce(signal);
            },
            None => {},
        }
        (self.receive_handle.take(), self.send_handle.take())
    }

    /// Completes a stop once both tasks have ended: the session lets go of
    /// signal and queue, becomes `Disconnected` and reports it. A session
    /// that has not started stays as it is and reports nothing.
    pub fn stop(&mut self) -> (event: Option<ClientEvent>)
        ensures
            final(self).same_settings(old(self)),
            final(self).actual_port == old(self).actual_port,
            old(self).state != UdpClientState::Connected ==> event is None && *final(self) == *old(
                self,
            ),
            old(self).state == UdpClientState::Connected ==> {
                &&& event matches Some(ClientEvent::Disconnected { message })
                &&& message@ == "UDP client stopped"@
                &&& final(self).state == UdpClientState::Disconnected
                &&& final(self).shutdown_sender is None
                &&& final(self).message_sender is None
                &&& final(self).receive_handle == old(self).receive_handle
                &&& final(self).send_handle == old(self).send_handle
            },
    {
        if self.state != UdpClientState::Connected {
            return None;
        }
        self.shutdown_sender = None;
        self.message_sender = None;
        self.state = UdpClientState::Disconnected;
        Some(ClientEvent::Disconnected { message: String::from_str("UDP client stopped") })
    }

    /// Whether `r` is what a send reports on this session when the queue
    /// answered `outcome`.
    pub open spec fn send_reported(outcome: Result<(), String>, r: Result<(), SessionError>) -> bool {
        match outcome {
            Ok(()) => r is Ok,
            Err(reason) => fails_with(
                r,
                ErrorKind::SendFailure,
                "Failed to send message: "@ + reason@,
            ),
        }
    }

    /// What a send reports, given the answer of the queue.
    pub fn send_report(outcome: Result<(), String>) -> (r: Result<(), SessionError>)
        ensures
            Self::send_reported(outcome, r),
    {
        match outcome {
            Ok(()) => Ok(()),
            Err(reason) => Err(
                SessionError::new(
                    ErrorKind::SendFailure,
                    join2("Failed to send message: ", reason.as_str()),
                ),
            ),
        }
    }

    /// Whether `r` is what sending on this session reports: only a session
    /// that has started sends, and only through its queue; then the report
    /// is that of `send_report` for whatever the queue answered.
    pub open spec fn sends(&self, r: Result<(), SessionError>) -> bool {
        if self.state != UdpClientState::Connected {
            fails_with(r, ErrorKind::NotConnected, "Not started"@)
        } else if self.message_sender is None {
            fails_with(r, ErrorKind::NotConnected, "Message sender not available"@)
        } else {
            exists|outcome: Result<(), String>| Self::send_reported(outcome, r)
        }
    }

    /// Puts `message`, bound for `target_addr`, on the outbound queue.
    pub fn send_message(&self, message: Vec<u8>, target_addr: A) -> (r: Result<(), SessionError>)
        ensures
            self.sends(r),
            self.state == UdpClientState::Connected && self.message_sender is Some ==> r is Ok
                || fails_with(
                r,
                ErrorKind::SendFailure,
                "Failed to send message: "@ + "channel closed"@,
            ),
    {
        if self.state != UdpClientState::Connected {
            return Err(SessionError::new(ErrorKind::NotConnected, String::from_str("Not started")));
        }
        match &self.message_sender {
            Some(queue) => {
                let outcome = offer(queue, (message, target_addr));
                let r = Self::send_report(outcome);
                assert(Self::send_reported(outcome, r));
                r
            },
            None => Err(
                SessionError::new(
                    ErrorKind::NotConnected,
                    String::from_str("Message sender not available"),
                ),
            ),
        }
    }
}

/// Whether `step` is what the reader does with what woke it: the shutdown
/// signal ends it in silence; a failed read is reported and ends it; a
/// datagram is decoded and reported behind the address of its sender, as a
/// message with its text when it is UTF-8 and as binary with its hex dump
/// when it is not, and the reader reads on. The second component tells
/// whether the reader reads on.
pub open spec fn read_step_of(outcome: DatagramOutcome, step: (Option<ClientEvent>, bool)) -> bool {
    match outcome {
        DatagramOutcome::Shutdown => step.0 is None && !step.1,
        DatagramOutcome::Datagram { data, from } => {
            &&& step.1
            &&& if valid_utf8(data@) {
                &&& step.0 matches Some(ClientEvent::MessageReceived { message })
                &&& exists|text: Seq<char>| #[trigger]
                    encode_utf8(text) == data@ && message@ == "From "@ + from@ + ": "@ + text
            } else {
                &&& step.0 matches Some(ClientEvent::BinaryReceived { message })
                &&& message@ == "From "@ + from@ + ": "@ + hex_dump(data@)
            }
        },
        DatagramOutcome::Failed(cause) => {
            &&& step.0 matches Some(ClientEvent::Error { reason })
            &&& reason == cause
            &&& !step.1
        },
    }
}

/// The reader's decision.
pub fn receive_step(outcome: DatagramOutcome) -> (step: (Option<ClientEvent>, bool))
    ensures
        read_step_of(outcome, step),
{
    match outcome {
        DatagramOutcome::Shutdown => (None, false),
        DatagramOutcome::Datagram { data, from } => {
            let mut message = join3("From ", from.as_str(), ": ");
            match decode(data.as_slice()) {
                Payload::Text(text) => {
                    message.append(text.as_str());
                    assert(encode_utf8(text@) == data@);
                    (Some(ClientEvent::MessageReceived { message }), true)
                },
                Payload::Binary(dump) => {
                    message.append(dump.as_str());
                    (Some(ClientEvent::BinaryReceived { message }), true)
                },
            }
        },
        DatagramOutcome::Failed(reason) => (Some(ClientEvent::Error { reason }), false),
    }
}

/// Whether `info` is the listing of the session `client`.
pub open spec fn describes<A>(info: UdpClientInfo, client: UdpClient<A>) -> bool {
    &&& info.client_id@ == client.client_id@
    &&& info.local_port == client.actual_port
    &&& info.state == client.state
}

fn info_of<A>(client: &UdpClient<A>) -> (info: UdpClientInfo)
    ensures
        describes(info, *client),
{
    UdpClientInfo {
        client_id: client.client_id.clone(),
        local_port: client.actual_port,
        state: client.state,
    }
}

fn not_found<T>(client_id: &str) -> (r: Result<T, SessionError>)
    ensures
        fails_with(r, ErrorKind::NotFound, "UDP client "@ + client_id@ + " not found"@),
{
    Err(SessionError::about(ErrorKind::NotFound, "UDP client ", client_id, " not found"))
}

/// Whether `r` is what asking for a new session under the id `client_id`
/// gives: an id that is registered is refused; otherwise the session is
/// made, not started.
pub open spec fn prepares<A>(
    manager: &UdpClientManager<A>,
    local_port: Option<u16>,
    client_id: String,
    r: Result<UdpClient<A>, SessionError>,
) -> bool {
    if manager.clients.contains_key(client_id@) {
        fails_with(r, ErrorKind::DuplicateId, "UDP client "@ + client_id@ + " already exists"@)
    } else {
        &&& r matches Ok(client)
        &&& client.local_port == local_port
        &&& client.actual_port == 0
        &&& client.client_id == client_id
        &&& client.state == UdpClientState::Disconnected
        &&& client.idle()
    }
}

/// Makes the session for a start command under the id `client_id`.
pub fn prepare_udp_client<A>(
    manager: &UdpClientManager<A>,
    local_port: Option<u16>,
    client_id: String,
) -> (r: Result<UdpClient<A>, SessionError>)
    ensures
        prepares(manager, local_port, client_id, r),
{
    if manager.clients.contains(&client_id) {
        Err(
            SessionError::about(
                ErrorKind::DuplicateId,
                "UDP client ",
                client_id.as_str(),
                " already exists",
            ),
        )
    } else {
        Ok(UdpClient::new(local_port, client_id))
    }
}

/// Makes the session for a start command: under the id that the command
/// names, or under a random one where it names none. A registered id is
/// refused before anything is bound.
pub fn new_udp_client<A>(manager: &UdpClientManager<A>, start_params: StartUdpClientParams) -> (r:
    Result<UdpClient<A>, SessionError>)
    ensures
        match r {
            Ok(client) => {
                &&& client.local_port == start_params.local_port
                &&& start_params.client_id matches Some(id) ==> client.client_id == id
                &&& start_params.client_id is None ==> client.client_id@.len() == 36
                &&& !manager.clients.contains_key(client.client_id@)
                &&& client.state == UdpClientState::Disconnected
                &&& client.idle()
            },
            Err(e) => e.kind == ErrorKind::DuplicateId,
        },
        start_params.client_id matches Some(id) ==> prepares(
            manager,
            start_params.local_port,
            id,
            r,
        ),
        exists|id: String| #[trigger] prepares(manager, start_params.local_port, id, r),
{
    let client_id = resolve_id(start_params.client_id);
    let r = prepare_udp_client(manager, start_params.local_port, client_id);
    assert(prepares(manager, start_params.local_port, client_id, r));
    r
}

/// Whether `r` and `after` are what completing the start of `client` gives
/// on the registry `before`, where `outcome` is the port and tasks of the
/// endpoint that was bound, or the reason why none was.
///
/// An id that is registered and a failed bind are refused, in this order,
/// and the registry stays as it was: a session that has not started is never
/// registered. Otherwise the session is registered as started, and its id
/// comes back with the event that reports the start.
pub open spec fn starts<A>(
    before: &UdpClientManager<A>,
    client: UdpClient<A>,
    outcome: Result<UdpClientTasks<A>, String>,
    after: &UdpClientManager<A>,
    r: Result<(String, ClientEvent), SessionError>,
) -> bool {
    if before.clients.contains_key(client.client_id@) {
        fails_with(
            r,
            ErrorKind::DuplicateId,
            "UDP client "@ + client.client_id@ + " already exists"@,
        ) && *after == *before
    } else {
        match outcome {
            Err(reason) => fails_with(
                r,
                ErrorKind::BindError,
                "Failed to bind UDP socket to "@ + bind_text(client.local_port) + ": "@ + reason@,
            ) && *after == *before,
            Ok(tasks) => {
                &&& r matches Ok((id, ClientEvent::Connected { message }))
                &&& id@ == client.client_id@
                &&& message@ == "UDP client started on port "@ + decimal(tasks.actual_port as nat)
                &&& after.clients.keys() == before.clients.keys().push(client.client_id@)
                &&& after.clients.values() == before.clients.values().push(client.started(tasks))
                &&& after.clients.dom() == before.clients.dom().insert(client.client_id@)
            },
        }
    }
}

/// Completes the start of a session and registers it.
pub fn start_udp_client<A>(
    manager: &mut UdpClientManager<A>,
    client: UdpClient<A>,
    outcome: Result<UdpClientTasks<A>, String>,
) -> (r: Result<(String, ClientEvent), SessionError>)
    ensures
        starts(old(manager), client, outcome, final(manager), r),
        r is Ok ==> final(manager).clients.keys() == registered(
            old(manager).clients.keys(),
            client.client_id@,
        ),
        r is Ok ==> final(manager).clients.contains_key(client.client_id@),
        r is Err ==> *final(manager) == *old(manager),
{
    if manager.clients.contains(&client.client_id) {
        return Err(
            SessionError::about(
                ErrorKind::DuplicateId,
                "UDP client ",
                client.client_id.as_str(),
                " already exists",
            ),
        );
    }
    let mut started = client;
    let event = match started.start(outcome) {
        Ok(event) => event,
        Err(e) => {
            return Err(e);
        },
    };
    let id = started.client_id.clone();
    manager.clients.insert(started.client_id.clone(), started);
    Ok((id, event))
}

/// Whether `r` and `after` are what a stop command for `client_id` gives on
/// the registry `before`: an unknown id fails and changes nothing; otherwise
/// the session leaves the registry at once and comes back with its stop
/// begun, together with the tasks that the caller has to wait for.
pub open spec fn stops<A>(
    before: &UdpClientManager<A>,
    client_id: Seq<char>,
    after: &UdpClientManager<A>,
    r: Result<(UdpClient<A>, (Option<JoinHandle<()>>, Option<JoinHandle<()>>)), SessionError>,
) -> bool {
    if !before.clients.contains_key(client_id) {
        fails_with(r, ErrorKind::NotFound, "UDP client "@ + client_id + " not found"@) && *after
            == *before
    } else {
        let at = before.clients.position(client_id);
        let was = before.clients.values()[at];
        &&& r matches Ok((client, tasks))
        &&& client.same_settings(&was)
        &&& client.state == was.state
        &&& client.actual_port == was.actual_port
        &&& client.shutdown_sender == was.shutdown_sender
        &&& client.message_sender == was.message_sender
        &&& if was.state == UdpClientState::Connected {
            &&& tasks == (was.receive_handle, was.send_handle)
            &&& client.receive_handle is None
            &&& client.send_handle is None
        } else {
            &&& tasks == (None::<JoinHandle<()>>, None::<JoinHandle<()>>)
            &&& client == was
        }
        &&& after.clients.keys() == before.clients.keys().remove(at)
        &&& after.clients.values() == before.clients.values().remove(at)
        &&& after.clients.dom() == before.clients.dom().remove(client_id)
        &&& !after.clients.contains_key(client_id)
    }
}

/// Takes a session out of the registry and begins its stop.
///
/// The caller waits for the tasks that come back and then completes the stop
/// with `UdpClient::stop`.
pub fn stop_udp_client<A>(manager: &mut UdpClientManager<A>, client_id: String) -> (r: Result<
    (UdpClient<A>, (Option<JoinHandle<()>>, Option<JoinHandle<()>>)),
    SessionError,
>)
    ensures
        stops(old(manager), client_id@, final(manager), r),
        final(manager).clients.keys() == unregistered(old(manager).clients.keys(), client_id@),
{
    match manager.clients.remove(&client_id) {
        Some(client) => {
            let mut client = client;
            let tasks = client.begin_stop();
            Ok((client, tasks))
        },
        None => not_found(client_id.as_str()),
    }
}

/// Whether `r` is what a send command reports on the registry `manager`,
/// where `target` is the destination that the command names, or the reason
/// why what it names is no address.
///
/// In this order: the message must stand for bytes in its encoding, so that
/// a message that does not is refused before anything is sent; the
/// destination must be an address; the session must be registered; then the
/// report is that of the session's own send.
pub open spec fn send_reported<A>(
    manager: &UdpClientManager<A>,
    send_params: SendUdpClientMessageParams,
    target: Result<A, String>,
    r: Result<(), SessionError>,
) -> bool {
    let mode = mode_named(send_params.message_type);
    if outbound(send_params.message@, mode) is None {
        fails_with(r, ErrorKind::CodecError, codec_error_text(hex_refusal(send_params.message@)))
    } else if target is Err {
        fails_with(
            r,
            ErrorKind::InvalidRequest,
            "Invalid target address "@ + address_text(
                send_params.target_host@,
                send_params.target_port,
            ) + ": "@ + target->Err_0@,
        )
    } else if !manager.clients.contains_key(send_params.client_id@) {
        fails_with(r, ErrorKind::NotFound, "UDP client "@ + send_params.client_id@ + " not found"@)
    } else {
        manager.clients.value_of(send_params.client_id@).sends(r)
    }
}

/// Carries out a send command.
pub fn send_udp_client_message<A>(
    manager: &UdpClientManager<A>,
    send_params: SendUdpClientMessageParams,
    target: Result<A, String>,
) -> (r: Result<(), SessionError>)
    ensures
        send_reported(manager, send_params, target, r),
{
    let mode = EncodingMode::named(&send_params.message_type);
    let data = match encode(send_params.message.as_str(), mode) {
        Ok(data) => data,
        Err(error) => {
            return Err(SessionError::from_codec(error));
        },
    };
    let target_addr = match target {
        Ok(target_addr) => target_addr,
        Err(reason) => {
            let addr = address_of(send_params.target_host.as_str(), send_params.target_port);
            let mut message = join3("Invalid target address ", addr.as_str(), ": ");
            message.append(reason.as_str());
            return Err(SessionError::new(ErrorKind::InvalidRequest, message));
        },
    };
    match manager.clients.get(&send_params.client_id) {
        Some(client) => client.send_message(data, target_addr),
        None => not_found(send_params.client_id.as_str()),
    }
}

/// Lists every session, in registration order.
pub fn get_udp_clients<A>(manager: &UdpClientManager<A>) -> (r: Result<
    Vec<UdpClientInfo>,
    SessionError,
>)
    ensures
        r matches Ok(infos) && infos@.len() == manager.clients.keys().len() && forall|i: int|
            0 <= i < infos@.len() ==> describes(#[trigger] infos@[i], manager.clients.values()[i]),
{
    let count = manager.clients.len();
    let mut infos: Vec<UdpClientInfo> = Vec::new();
    let mut i: usize = 0;
    while i < count
        invariant
            count == manager.clients.keys().len(),
            manager.clients.valid(),
            i <= count,
            infos@.len() == i,
            forall|j: int|
                0 <= j < i ==> describes(#[trigger] infos@[j], manager.clients.values()[j]),
        decreases count - i,
    {
        infos.push(info_of(manager.clients.value_at(i)));
        i += 1;
    }
    Ok(infos)
}

/// Describes one session.
pub fn get_udp_client_info<A>(manager: &UdpClientManager<A>, client_id: String) -> (r: Result<
    UdpClientInfo,
    SessionError,
>)
    ensures
        !manager.clients.contains_key(client_id@) ==> fails_with(
            r,
            ErrorKind::NotFound,
            "UDP client "@ + client_id@ + " not found"@,
        ),
        manager.clients.contains_key(client_id@) ==> {
            &&& r matches Ok(info)
            &&& describes(info, manager.clients.value_of(client_id@))
        },
{
    match manager.clients.get(&client_id) {
        Some(client) => Ok(info_of(client)),
        None => not_found(client_id.as_str()),
    }
}

} // verus!
