//! TCP server sessions: one listener each, any number of peers.

use crate::codec::{
    decode, encode, hex_dump, hex_refusal, mode_named, outbound, EncodingMode, Payload,
};
use crate::error::{codec_error_text, fails_with, ErrorKind, SessionError};
use crate::event::{event_name, ServerEvent};
use crate::handles::{clock_text, offer, resolve_id};
use crate::pump::{
    accepted, count_accepted, delivery_report, delivery_reported, lemma_accepted_bound, ReadOutcome,
};
use crate::registry::{registered, unregistered, Registry};
use crate::text::{address_of, address_text, decimal, join2, join3, push_decimal};
use tokio::sync::mpsc::UnboundedSender;
use tokio::task::JoinHandle;
use vstd::prelude::*;
use vstd::utf8::{encode_utf8, valid_utf8};

verus! {

/// One accepted peer: its id, the address it came from, the queue that its
/// writer drains, and the task that serves it, where one was spawned.
pub struct TcpClient {
    pub id: String,
    pub addr: String,
    pub sender: UnboundedSender<Vec<u8>>,
    pub task: Option<JoinHandle<()>>,
}

/// The tasks that serve `clients`, in the order of the clients.
pub open spec fn tasks_of(clients: Seq<TcpClient>) -> Seq<JoinHandle<()>>
    decreases clients.len(),
{
    if clients.len() == 0 {
        Seq::empty()
    } else {
        match clients[0].task {
            Some(task) => seq![task] + tasks_of(clients.drop_first()),
            None => tasks_of(clients.drop_first()),
        }
    }
}

/// One TCP server session.
///
/// While the session runs, `server_handle` holds the acceptor task and
/// `shutdown_sender` the signal that ends it.
pub struct TcpServer {
    pub host: String,
    pub port: u16,
    pub server_id: String,
    pub clients: Registry<TcpClient>,
    pub server_handle: Option<JoinHandle<()>>,
    pub shutdown_sender: Option<UnboundedSender<()>>,
}

/// The TCP server sessions, by id.
pub struct TcpServerManager {
    pub servers: Registry<TcpServer>,
}

impl TcpServerManager {
    /// A manager without sessions.
    pub fn new() -> (manager: Self)
        ensures
            manager.servers.keys() == Seq::<Seq<char>>::empty(),
            manager.servers.values() == Seq::<TcpServer>::empty(),
    {
        TcpServerManager { servers: Registry::new() }
    }
}

impl Default for TcpServerManager {
    fn default() -> (manager: Self)
        ensures
            manager.servers.keys() == Seq::<Seq<char>>::empty(),
            manager.servers.values() == Seq::<TcpServer>::empty(),
    {
        Self::new()
    }
}

/// What a start command carries.
#[derive(Clone, Debug)]
pub struct StartTcpServerParams {
    pub host: String,
    pub port: u16,
    pub server_id: Option<String>,
}

/// What a send command carries. Without a target the message goes to every
/// peer; the message type is `text` or `hex`, and text when it is missing.
#[derive(Clone, Debug)]
pub struct SendTcpMessageParams {
    pub server_id: String,
    pub message: String,
    pub target_client_id: Option<String>,
    pub message_type: Option<String>,
}

/// The state of one session, as the screen lists it.
#[derive(Clone, Debug)]
pub struct TcpServerInfo {
    pub server_id: String,
    pub host: String,
    pub port: u16,
    pub client_count: usize,
    pub is_running: bool,
}

/// An event as it crosses to the screen.
#[derive(Clone, Debug)]
pub struct TcpServerEvent {
    pub server_id: String,
    pub event_type: String,
    pub client_id: String,
    pub message: String,
    pub timestamp: String,
}

impl TcpServerEvent {
    /// The record of `event` on session `server_id` at `timestamp`.
    pub fn new(server_id: String, event: ServerEvent, timestamp: String) -> (record: Self)
        ensures
            record.server_id == server_id,
            record.event_type@ == event_name(event.kind()),
            record.client_id@ == event.client(),
            record.message@ == event.line(),
            record.timestamp == timestamp,
    {
        let (kind, client_id, message) = event.into_parts();
        TcpServerEvent { server_id, event_type: kind.name(), client_id, message, timestamp }
    }

    /// The record of `event` on session `server_id`, stamped with the present
    /// moment. The timestamp is whatever the clock says.
    pub fn stamped(server_id: String, event: ServerEvent) -> (record: Self)
        ensures
            record.server_id == server_id,
            record.event_type@ == event_name(event.kind()),
            record.client_id@ == event.client(),
            record.message@ == event.line(),
    {
        Self::new(server_id, event, clock_text())
    }
}

impl TcpServer {
    /// Whether the acceptor task is held.
    pub open spec fn running(&self) -> bool {
        self.server_handle is Some
    }

    /// Whether `other` has this session's id, host and port.
    pub open spec fn same_settings(&self, other: &TcpServer) -> bool {
        &&& self.host == other.host
        &&& self.port == other.port
        &&& self.server_id == other.server_id
    }

    /// This session once it has started: with the acceptor task `handle`
    /// and its shutdown signal `signal`, and otherwise as it is.
    pub open spec fn started(self, handle: JoinHandle<()>, signal: UnboundedSender<()>) -> TcpServer {
        TcpServer {
            host: self.host,
            port: self.port,
            server_id: self.server_id,
            clients: self.clients,
            server_handle: Some(handle),
            shutdown_sender: Some(signal),
        }
    }

    /// A session that has not started: no peers, no task.
    pub fn new(host: String, port: u16, server_id: String) -> (server: Self)
        ensures
            server.host == host,
            server.port == port,
            server.server_id == server_id,
            server.clients.keys() == Seq::<Seq<char>>::empty(),
            server.clients.values() == Seq::<TcpClient>::empty(),
            server.server_handle is None,
            server.shutdown_sender is None,
    {
        TcpServer {
            host,
            port,
            server_id,
            clients: Registry::new(),
            server_handle: None,
            shutdown_sender: None,
        }
    }

    /// The address at which the session listens.
    pub fn bind_address(&self) -> (addr: String)
        ensures
            addr@ == address_text(self.host@, self.port),
    {
        address_of(self.host.as_str(), self.port)
    }

    /// Completes a start with the outcome of binding the listener: on
    /// success the acceptor task and its shutdown signal, otherwise the
    /// reason in words. A failed bind leaves the session as it was.
    pub fn start(
        &mut self,
        bound: Result<(JoinHandle<()>, UnboundedSender<()>), String>,
    ) -> (r: Result<(), SessionError>)
        ensures
            final(self).same_settings(old(self)),
            final(self).clients == old(self).clients,
            match bound {
                Ok((handle, signal)) => {
                    &&& r is Ok
                    &&& *final(self) == old(self).started(handle, signal)
                },
                Err(reason) => {
                    &&& r matches Err(e)
                    &&& e.kind == ErrorKind::BindError
                    &&& e.message@ == "Failed to bind to "@ + address_text(
                        old(self).host@,
                        old(self).port,
                    ) + ": "@ + reason@
                    &&& *final(self) == *old(self)
                },
            },
    {
        match bound {
            Ok((handle, signal)) => {
                self.server_handle = Some(handle);
                self.shutdown_sender = Some(signal);
                Ok(())
            },
            Err(reason) => {
                let addr = self.bind_address();
                let mut message = join3("Failed to bind to ", addr.as_str(), ": ");
                message.append(reason.as_str());
                Err(SessionError::new(ErrorKind::BindError, message))
            },
        }
    }

    /// This session once it has stopped: without the acceptor task and the
    /// shutdown signal, and otherwise as it is.
    pub open spec fn halted(self) -> TcpServer {
        TcpServer {
            host: self.host,
            port: self.port,
            server_id: self.server_id,
            clients: self.clients,
            server_handle: None,
            shutdown_sender: None,
        }
    }

    /// The sentence that refuses a stop of a session that is not running.
    pub open spec fn not_running_text(&self) -> Seq<char> {
        "TCP Server with ID "@ + self.server_id@ + " is not running"@
    }

    fn not_running<T>(&self) -> (r: Result<T, SessionError>)
        ensures
            fails_with(r, ErrorKind::NotFound, self.not_running_text()),
    {
        Err(
            SessionError::about(
                ErrorKind::NotFound,
                "TCP Server with ID ",
                self.server_id.as_str(),
                " is not running",
            ),
        )
    }

    /// Begins a stop: raises the shutdown signal. The acceptor task stays
    /// with the session, for the caller to wait for where it is. A session
    /// that is not running, because it never started or has stopped, refuses
    /// and stays as it is; so a second stop finds nothing to stop.
    pub fn request_stop(&mut self) -> (r: Result<(), SessionError>)
        ensures
            final(self).same_settings(old(self)),
            final(self).clients == old(self).clients,
            final(self).server_handle == old(self).server_handle,
            !old(self).running() ==> {
                &&& fails_with(r, ErrorKind::NotFound, old(self).not_running_text())
                &&& *final(self) == *old(self)
            },
            old(self).running() ==> r is Ok && final(self).shutdown_sender is None,
    {
        if self.server_handle.is_none() {
            return self.not_running();
        }
        match self.shutdown_sender.take() {
            Some(signal) => {
                let _ = offer(&signal, ());
            },
            None => {},
        }
        Ok(())
    }

    /// Lets every peer go: each is dropped, which ends its writer, and the
    /// tasks that served the peers come back.
    fn release_clients(&mut self) -> (tasks: Vec<JoinHandle<()>>)
        ensures
            tasks@ == tasks_of(old(self).clients.values()),
            final(self).clients.keys() == Seq::<Seq<char>>::empty(),
            final(self).clients.values() == Seq::<TcpClient>::empty(),
            final(self).same_settings(old(self)),
            final(self).server_handle == old(self).server_handle,
            final(self).shutdown_sender == old(self).shutdown_sender,
    {
        let mut peers = self.clients.drain();
        let ghost all = peers@;
        let mut tasks: Vec<JoinHandle<()>> = Vec::new();
        while peers.len() > 0
            invariant
                tasks@ + tasks_of(peers@) == tasks_of(all),
            decreases peers.len(),
        {
            let ghost waiting = peers@;
            let ghost found = tasks@;
            let peer = peers.remove(0);
            assert(peers@ =~= waiting.drop_first());
            match peer.task {
                Some(task) => {
                    tasks.push(task);
                    assert(tasks@ + tasks_of(peers@) =~= found + tasks_of(waiting));
                },
                None => {},
            }
        }
        assert(tasks@ =~= tasks@ + tasks_of(peers@));
        tasks
    }

    /// Whether `r` and `after` are what completing a stop of this session
    /// gives, where `joined` is the outcome of waiting for the acceptor
    /// task.
    ///
    /// A session that is not running refuses and stays as it is. Otherwise
    /// the session ends up without task and signal. Once the task is seen to
    /// have ended, every peer is let go, and the tasks that served the peers
    /// come back for the caller to wait for. If the wait failed, the peers
    /// stay and the failure is reported.
    pub open spec fn stop_gives(
        &self,
        joined: Result<(), String>,
        after: &TcpServer,
        r: Result<Vec<JoinHandle<()>>, SessionError>,
    ) -> bool {
        if !self.running() {
            fails_with(r, ErrorKind::NotFound, self.not_running_text()) && *after == *self
        } else {
            match joined {
                Ok(()) => {
                    &&& r matches Ok(tasks)
                    &&& tasks@ == tasks_of(self.clients.values())
                    &&& after.same_settings(self)
                    &&& !after.running()
                    &&& after.shutdown_sender is None
                    &&& after.clients.keys() == Seq::<Seq<char>>::empty()
                    &&& after.clients.values() == Seq::<TcpClient>::empty()
                },
                Err(reason) => {
                    &&& fails_with(r, ErrorKind::ShutdownTimeout, "Failed to stop TCP server: "@ + reason@)
                    &&& *after == self.halted()
                },
            }
        }
    }

    /// Completes a stop with the outcome of waiting for the acceptor task.
    pub fn stop(&mut self, joined: Result<(), String>) -> (r: Result<
        Vec<JoinHandle<()>>,
        SessionError,
    >)
        ensures
            old(self).stop_gives(joined, final(self), r),
    {
        if self.server_handle.is_none() {
            return self.not_running();
        }
        match self.shutdown_sender.take() {
            Some(signal) => {
                let _ = offer(&signal, ());
            },
            None => {},
        }
        self.server_handle = None;
        match joined {
            Ok(()) => Ok(self.release_clients()),
            Err(reason) => Err(
                SessionError::new(
                    ErrorKind::ShutdownTimeout,
                    join2("Failed to stop TCP server: ", reason.as_str()),
                ),
            ),
        }
    }

    /// Whether `r` and `after` are what registering `client` on this session
    /// gives: an id that a peer already holds is refused and nothing
    /// changes; otherwise the peer is appended and its arrival reported.
    pub open spec fn registers(
        &self,
        client: TcpClient,
        after: &TcpServer,
        r: Result<ServerEvent, SessionError>,
    ) -> bool {
        &&& after.same_settings(self)
        &&& after.server_handle == self.server_handle
        &&& after.shutdown_sender == self.shutdown_sender
        &&& if self.clients.contains_key(client.id@) {
            &&& r matches Err(e)
            &&& e.kind == ErrorKind::DuplicateId
            &&& e.message@ == "Client "@ + client.id@ + " already exists"@
            &&& after.clients == self.clients
        } else {
            &&& r matches Ok(ServerEvent::ClientConnected { client_id, peer })
            &&& client_id@ == client.id@
            &&& peer@ == client.addr@
            &&& after.clients.keys() == self.clients.keys().push(client.id@)
            &&& after.clients.values() == self.clients.values().push(client)
        }
    }

    /// Registers an accepted peer and reports its arrival.
    pub fn add_client(&mut self, client: TcpClient) -> (r: Result<ServerEvent, SessionError>)
        ensures
            old(self).registers(client, final(self), r),
            final(self).clients.keys() == registered(old(self).clients.keys(), client.id@),
    {
        let client_id = client.id.clone();
        let peer = client.addr.clone();
        if self.clients.insert(client.id.clone(), client) {
            Ok(ServerEvent::ClientConnected { client_id, peer })
        } else {
            Err(
                SessionError::about(
                    ErrorKind::DuplicateId,
                    "Client ",
                    client_id.as_str(),
                    " already exists",
                ),
            )
        }
    }

    /// Whether `after` and `removed` are what dropping the peer `client`
    /// from this session gives: a registered peer leaves and the others keep
    /// their order; an unknown id changes nothing.
    pub open spec fn releases(&self, client: Seq<char>, after: &TcpServer, removed: bool) -> bool {
        &&& after.same_settings(self)
        &&& after.server_handle == self.server_handle
        &&& after.shutdown_sender == self.shutdown_sender
        &&& removed == self.clients.contains_key(client)
        &&& !after.clients.contains_key(client)
        &&& if removed {
            &&& after.clients.keys() == self.clients.keys().remove(self.clients.position(client))
            &&& after.clients.values() == self.clients.values().remove(
                self.clients.position(client),
            )
        } else {
            after.clients == self.clients
        }
    }

    /// Drops a peer whose reader or writer has ended. Returns whether the
    /// peer was still registered.
    pub fn remove_client(&mut self, client_id: &str) -> (removed: bool)
        ensures
            old(self).releases(client_id@, final(self), removed),
            final(self).clients.keys() == unregistered(old(self).clients.keys(), client_id@),
    {
        let key = String::from_str(client_id);
        self.clients.remove(&key).is_some()
    }

    /// Sends `data` to one peer.
    ///
    /// An unknown peer is an error of its own. For a known peer the message
    /// is put on the peer's queue, and the report is that of
    /// `delivery_report` for whatever the queue answered.
    pub fn send_message_to_client(&self, client_id: &str, data: Vec<u8>) -> (r: Result<
        (),
        SessionError,
    >)
        ensures
            !self.clients.contains_key(client_id@) ==> {
                &&& r matches Err(e)
                &&& e.kind == ErrorKind::NotFound
                &&& e.message@ == "Client "@ + client_id@ + " not found"@
            },
            self.clients.contains_key(client_id@) ==> exists|outcome: Result<(), String>|
                delivery_reported(client_id@, outcome, r),
            self.clients.contains_key(client_id@) ==> r is Ok || fails_with(
                r,
                ErrorKind::SendFailure,
                "Failed to send message to client "@ + client_id@ + ": "@ + "channel closed"@,
            ),
    {
        let key = String::from_str(client_id);
        match self.clients.get(&key) {
            Some(client) => {
                let outcome = offer(&client.sender, data);
                let r = delivery_report(client_id, outcome);
                assert(delivery_reported(client_id@, outcome, r));
                r
            },
            None => Err(SessionError::about(ErrorKind::NotFound, "Client ", client_id, " not found")),
        }
    }

    /// Puts a copy of `data` on the queue of every peer, in registration
    /// order, and tells for each whether its queue took it. A queue that
    /// refuses does not keep the others from being served.
    pub fn offer_to_all(&self, data: &Vec<u8>) -> (outcomes: Vec<bool>)
        ensures
            outcomes@.len() == self.clients.keys().len(),
    {
        let count = self.clients.len();
        let mut outcomes: Vec<bool> = Vec::new();
        let mut i: usize = 0;
        while i < count
            invariant
                count == self.clients.keys().len(),
                i <= count,
                outcomes@.len() == i,
            decreases count - i,
        {
            let client = self.clients.value_at(i);
            outcomes.push(offer(&client.sender, data.clone()).is_ok());
            i += 1;
        }
        outcomes
    }

    /// Sends `data` to every peer and returns how many queues took it: the
    /// count of acceptances among the outcomes of `offer_to_all`, never more
    /// than there are peers.
    pub fn broadcast_message(&self, data: Vec<u8>) -> (r: Result<usize, SessionError>)
        ensures
            r matches Ok(sent_count) && sent_count <= self.clients.keys().len() && exists|
                outcomes: Seq<bool>,
            |
                outcomes.len() == self.clients.keys().len() && sent_count == #[trigger] accepted(
                    outcomes,
                ),
    {
        let outcomes = self.offer_to_all(&data);
        let sent_count = count_accepted(&outcomes);
        proof {
            lemma_accepted_bound(outcomes@);
        }
        Ok(sent_count)
    }

    /// The number of peers.
    pub fn get_client_count(&self) -> (count: usize)
        ensures
            count == self.clients.keys().len(),
    {
        self.clients.len()
    }

    /// Whether the session runs.
    pub fn is_running(&self) -> (running: bool)
        ensures
            running == self.running(),
    {
        self.server_handle.is_some()
    }
}

/// Whether `step` is what a reader does with what woke it: the shutdown
/// signal ends it in silence; a closed stream and a failed read are reported
/// and end it; bytes are decoded and reported, as a message with their text
/// when they are UTF-8 and as binary with their hex dump when they are not,
/// and the reader reads on. The second component tells whether the reader
/// reads on.
pub open spec fn read_step_of(
    client: Seq<char>,
    outcome: ReadOutcome,
    step: (Option<ServerEvent>, bool),
) -> bool {
    match outcome {
        ReadOutcome::Shutdown => step.0 is None && !step.1,
        ReadOutcome::Closed => {
            &&& step.0 matches Some(ServerEvent::ClientDisconnected { client_id })
            &&& client_id@ == client
            &&& !step.1
        },
        ReadOutcome::Data(bytes) => {
            &&& step.1
            &&& if valid_utf8(bytes@) {
                &&& step.0 matches Some(ServerEvent::MessageReceived { client_id, message })
                &&& client_id@ == client
                &&& encode_utf8(message@) == bytes@
            } else {
                &&& step.0 matches Some(ServerEvent::BinaryReceived { client_id, dump })
                &&& client_id@ == client
                &&& dump@ == hex_dump(bytes@)
            }
        },
        ReadOutcome::Failed(cause) => {
            &&& step.0 matches Some(ServerEvent::Error { client_id, reason })
            &&& client_id@ == client
            &&& reason == cause
            &&& !step.1
        },
    }
}

/// The reader's decision for the peer `client_id`.
pub fn receive_step(client_id: &str, outcome: ReadOutcome) -> (step: (Option<ServerEvent>, bool))
    ensures
        read_step_of(client_id@, outcome, step),
{
    let client_id = String::from_str(client_id);
    match outcome {
        ReadOutcome::Shutdown => (None, false),
        ReadOutcome::Closed => (Some(ServerEvent::ClientDisconnected { client_id }), false),
        ReadOutcome::Data(bytes) => match decode(bytes.as_slice()) {
            Payload::Text(message) => (
                Some(ServerEvent::MessageReceived { client_id, message }),
                true,
            ),
            Payload::Binary(dump) => (Some(ServerEvent::BinaryReceived { client_id, dump }), true),
        },
        ReadOutcome::Failed(reason) => (Some(ServerEvent::Error { client_id, reason }), false),
    }
}

/// Whether `info` is the listing of the session `server` registered under
/// `id`.
pub open spec fn describes(info: TcpServerInfo, id: Seq<char>, server: TcpServer) -> bool {
    &&& info.server_id@ == id
    &&& info.host@ == server.host@
    &&& info.port == server.port
    &&& info.client_count == server.clients.keys().len()
    &&& info.is_running == server.running()
}

fn info_of(server_id: &String, server: &TcpServer) -> (info: TcpServerInfo)
    ensures
        describes(info, server_id@, *server),
{
    TcpServerInfo {
        server_id: server_id.clone(),
        host: server.host.clone(),
        port: server.port,
        client_count: server.get_client_count(),
        is_running: server.is_running(),
    }
}

fn not_found<T>(server_id: &str) -> (r: Result<T, SessionError>)
    ensures
        fails_with(r, ErrorKind::NotFound, "TCP Server with ID "@ + server_id@ + " not found"@),
{
    Err(SessionError::about(ErrorKind::NotFound, "TCP Server with ID ", server_id, " not found"))
}

/// Whether `r` is what asking for a new session under the id `server_id`
/// gives: an id that is registered is refused; otherwise the session is
/// made, without peers and not running.
pub open spec fn prepares(
    manager: &TcpServerManager,
    host: String,
    port: u16,
    server_id: String,
    r: Result<TcpServer, SessionError>,
) -> bool {
    if manager.servers.contains_key(server_id@) {
        fails_with(r, ErrorKind::DuplicateId, "TCP Server with ID "@ + server_id@ + " already exists"@)
    } else {
        &&& r matches Ok(server)
        &&& server.host == host
        &&& server.port == port
        &&& server.server_id == server_id
        &&& server.clients.keys() == Seq::<Seq<char>>::empty()
        &&& !server.running()
    }
}

/// Makes the session for a start command under the id `server_id`.
pub fn prepare_tcp_server(
    manager: &TcpServerManager,
    host: String,
    port: u16,
    server_id: String,
) -> (r: Result<TcpServer, SessionError>)
    ensures
        prepares(manager, host, port, server_id, r),
{
    if manager.servers.contains(&server_id) {
        Err(
            SessionError::about(
                ErrorKind::DuplicateId,
                "TCP Server with ID ",
                server_id.as_str(),
                " already exists",
            ),
        )
    } else {
        Ok(TcpServer::new(host, port, server_id))
    }
}

/// Makes the session for a start command: under the id that the command
/// names, or under a random one where it names none. A registered id is
/// refused before anything is bound.
pub fn new_tcp_server(manager: &TcpServerManager, start_params: StartTcpServerParams) -> (r: Result<
    TcpServer,
    SessionError,
>)
    ensures
        match r {
            Ok(server) => {
                &&& server.host == start_params.host
                &&& server.port == start_params.port
                &&& start_params.server_id matches Some(id) ==> server.server_id == id
                &&& start_params.server_id is None ==> server.server_id@.len() == 36
                &&& !manager.servers.contains_key(server.server_id@)
                &&& server.clients.keys() == Seq::<Seq<char>>::empty()
                &&& !server.running()
            },
            Err(e) => e.kind == ErrorKind::DuplicateId,
        },
        start_params.server_id matches Some(id) ==> prepares(
            manager,
            start_params.host,
            start_params.port,
            id,
            r,
        ),
        exists|id: String| #[trigger]
            prepares(manager, start_params.host, start_params.port, id, r),
{
    let server_id = resolve_id(start_params.server_id);
    let r = prepare_tcp_server(manager, start_params.host, start_params.port, server_id);
    assert(prepares(manager, start_params.host, start_params.port, server_id, r));
    r
}

/// Whether `r` and `after` are what completing the start of `server` gives
/// on the registry `before`, where `bound` is the outcome of binding its
/// listener: the acceptor task and its shutdown signal, or the reason why
/// nothing was bound.
///
/// An id that is registered and a failed bind are refused, in this order,
/// and the registry stays as it was: a session that does not run is never
/// registered. Otherwise the session is registered as started, and its id
/// comes back.
pub open spec fn starts(
    before: &TcpServerManager,
    server: TcpServer,
    bound: Result<(JoinHandle<()>, UnboundedSender<()>), String>,
    after: &TcpServerManager,
    r: Result<String, SessionError>,
) -> bool {
    if before.servers.contains_key(server.server_id@) {
        fails_with(
            r,
            ErrorKind::DuplicateId,
            "TCP Server with ID "@ + server.server_id@ + " already exists"@,
        ) && *after == *before
    } else {
        match bound {
            Err(reason) => fails_with(
                r,
                ErrorKind::BindError,
                "Failed to bind to "@ + address_text(server.host@, server.port) + ": "@ + reason@,
            ) && *after == *before,
            Ok((handle, signal)) => {
                &&& r matches Ok(id)
                &&& id@ == server.server_id@
                &&& after.servers.keys() == before.servers.keys().push(server.server_id@)
                &&& after.servers.values() == before.servers.values().push(
                    server.started(handle, signal),
                )
                &&& after.servers.dom() == before.servers.dom().insert(server.server_id@)
            },
        }
    }
}

/// Completes the start of a session and registers it.
pub fn start_tcp_server(
    manager: &mut TcpServerManager,
    server: TcpServer,
    bound: Result<(JoinHandle<()>, UnboundedSender<()>), String>,
) -> (r: Result<String, SessionError>)
    ensures
        starts(old(manager), server, bound, final(manager), r),
        r is Ok ==> final(manager).servers.keys() == registered(
            old(manager).servers.keys(),
            server.server_id@,
        ),
        r is Ok ==> final(manager).servers.contains_key(server.server_id@),
        r is Err ==> *final(manager) == *old(manager),
{
    if manager.servers.contains(&server.server_id) {
        return Err(
            SessionError::about(
                ErrorKind::DuplicateId,
                "TCP Server with ID ",
                server.server_id.as_str(),
                " already exists",
            ),
        );
    }
    let mut started = server;
    match started.start(bound) {
        Ok(()) => {},
        Err(e) => {
            return Err(e);
        },
    }
    let id = started.server_id.clone();
    manager.servers.insert(started.server_id.clone(), started);
    Ok(id)
}

/// Whether `r` and `after` are what a stop command for `server_id` gives on
/// the registry `before`.
///
/// A command without an id, with an empty id or with an unknown id fails and
/// changes nothing. Otherwise the session leaves the registry at once, so
/// that a second stop finds nothing; it comes back with its shutdown signal
/// raised and still holds the acceptor task, which the caller has to wait
/// for. A session that was not running comes back as it was.
pub open spec fn stops(
    before: &TcpServerManager,
    server_id: Option<String>,
    after: &TcpServerManager,
    r: Result<TcpServer, SessionError>,
) -> bool {
    match server_id {
        None => fails_with(r, ErrorKind::InvalidRequest, "Server ID is required"@) && *after
            == *before,
        Some(id) => if id@.len() == 0 {
            fails_with(r, ErrorKind::InvalidRequest, "Server ID cannot be empty"@) && *after
                == *before
        } else if !before.servers.contains_key(id@) {
            fails_with(r, ErrorKind::NotFound, "TCP Server with ID "@ + id@ + " not found"@)
                && *after == *before
        } else {
            let at = before.servers.position(id@);
            let was = before.servers.values()[at];
            &&& r matches Ok(server)
            &&& server.same_settings(&was)
            &&& server.clients == was.clients
            &&& server.server_handle == was.server_handle
            &&& was.running() ==> server.shutdown_sender is None
            &&& !was.running() ==> server == was
            &&& after.servers.keys() == before.servers.keys().remove(at)
            &&& after.servers.values() == before.servers.values().remove(at)
            &&& after.servers.dom() == before.servers.dom().remove(id@)
            &&& !after.servers.contains_key(id@)
        },
    }
}

/// Takes a session out of the registry and begins its stop.
///
/// The caller waits for the acceptor task of the session that comes back and
/// then completes the stop with `complete_tcp_server_stop`.
pub fn stop_tcp_server(manager: &mut TcpServerManager, server_id: Option<String>) -> (r: Result<
    TcpServer,
    SessionError,
>)
    ensures
        stops(old(manager), server_id, final(manager), r),
        server_id matches Some(id) ==> id@.len() > 0 ==> final(manager).servers.keys()
            == unregistered(old(manager).servers.keys(), id@),
{
    let id = match server_id {
        Some(id) => id,
        None => {
            return Err(
                SessionError::new(
                    ErrorKind::InvalidRequest,
                    String::from_str("Server ID is required"),
                ),
            );
        },
    };
    if id.as_str().is_empty() {
        return Err(
            SessionError::new(
                ErrorKind::InvalidRequest,
                String::from_str("Server ID cannot be empty"),
            ),
        );
    }
    match manager.servers.remove(&id) {
        Some(server) => {
            let mut server = server;
            let _ = server.request_stop();
            Ok(server)
        },
        None => not_found(id.as_str()),
    }
}

/// Whether `r` and `after` are what completing the stop of `server` gives on
/// the registry `before`, where `server` is a session that a stop command
/// took out and `joined` is the outcome of waiting for its acceptor task.
///
/// A session that was not running has nothing to wait for: its peers are let
/// go. For a session that was running, the outcome is that of the session's
/// own stop; after a failed wait the session is halted and goes back into
/// the registry, unless its id was taken in the meantime.
pub open spec fn completes(
    before: &TcpServerManager,
    server: TcpServer,
    joined: Result<(), String>,
    after: &TcpServerManager,
    r: Result<Vec<JoinHandle<()>>, SessionError>,
) -> bool {
    if !server.running() || joined is Ok {
        &&& r matches Ok(tasks)
        &&& tasks@ == tasks_of(server.clients.values())
        &&& *after == *before
    } else {
        &&& fails_with(r, ErrorKind::ShutdownTimeout, "Failed to stop TCP server: "@ + joined->Err_0@)
        &&& after.servers.keys() == registered(before.servers.keys(), server.server_id@)
        &&& if before.servers.contains_key(server.server_id@) {
            *after == *before
        } else {
            after.servers.values() == before.servers.values().push(server.halted())
        }
    }
}

/// Completes the stop of a session that a stop command took out.
pub fn complete_tcp_server_stop(
    manager: &mut TcpServerManager,
    server: TcpServer,
    joined: Result<(), String>,
) -> (r: Result<Vec<JoinHandle<()>>, SessionError>)
    ensures
        completes(old(manager), server, joined, final(manager), r),
{
    let mut server = server;
    if !server.is_running() {
        return Ok(server.release_clients());
    }
    match server.stop(joined) {
        Ok(tasks) => Ok(tasks),
        Err(e) => {
            manager.servers.insert(server.server_id.clone(), server);
            Err(e)
        },
    }
}

/// Whether `r` and `after` are what registering the accepted peer `client`
/// with the session `server_id` gives on the registry `before`: an unknown
/// session fails and changes nothing; otherwise that session, and no other,
/// changes as `TcpServer::registers` says.
pub open spec fn connects(
    before: &TcpServerManager,
    server_id: Seq<char>,
    client: TcpClient,
    after: &TcpServerManager,
    r: Result<ServerEvent, SessionError>,
) -> bool {
    if !before.servers.contains_key(server_id) {
        fails_with(r, ErrorKind::NotFound, "TCP Server with ID "@ + server_id + " not found"@)
            && *after == *before
    } else {
        let at = before.servers.position(server_id);
        &&& after.servers.keys() == before.servers.keys()
        &&& after.servers.values() == before.servers.values().update(at, after.servers.values()[at])
        &&& before.servers.values()[at].registers(client, &after.servers.values()[at], r)
    }
}

/// Registers an accepted peer with its session and reports its arrival.
pub fn handle_tcp_connection(manager: &mut TcpServerManager, server_id: &str, client: TcpClient) -> (r:
    Result<ServerEvent, SessionError>)
    ensures
        connects(old(manager), server_id@, client, final(manager), r),
{
    let key = String::from_str(server_id);
    match manager.servers.find(&key) {
        None => not_found(server_id),
        Some(at) => {
            let ghost keys = manager.servers.keys();
            let ghost values = manager.servers.values();
            let mut server = manager.servers.remove(&key).unwrap();
            let r = server.add_client(client);
            manager.servers.put_back(at, key, server, Ghost(keys), Ghost(values));
            r
        },
    }
}

/// Whether `removed` and `after` are what dropping the peer `client` of the
/// session `server_id` gives on the registry `before`: with an unknown
/// session nothing changes; otherwise that session, and no other, changes as
/// `TcpServer::releases` says.
pub open spec fn disconnects(
    before: &TcpServerManager,
    server_id: Seq<char>,
    client: Seq<char>,
    after: &TcpServerManager,
    removed: bool,
) -> bool {
    if !before.servers.contains_key(server_id) {
        !removed && *after == *before
    } else {
        let at = before.servers.position(server_id);
        &&& after.servers.keys() == before.servers.keys()
        &&& after.servers.values() == before.servers.values().update(at, after.servers.values()[at])
        &&& before.servers.values()[at].releases(client, &after.servers.values()[at], removed)
    }
}

/// Drops a peer whose reader or writer has ended from its session. Returns
/// whether the peer was still registered.
pub fn drop_tcp_client(manager: &mut TcpServerManager, server_id: &str, client_id: &str) -> (removed:
    bool)
    ensures
        disconnects(old(manager), server_id@, client_id@, final(manager), removed),
{
    let key = String::from_str(server_id);
    match manager.servers.find(&key) {
        None => false,
        Some(at) => {
            let ghost keys = manager.servers.keys();
            let ghost values = manager.servers.values();
            let mut server = manager.servers.remove(&key).unwrap();
            let removed = server.remove_client(client_id);
            manager.servers.put_back(at, key, server, Ghost(keys), Ghost(values));
            removed
        },
    }
}

/// Whether `r` is what a send to the one peer `target` reports when the
/// peer's queue answered `outcome`.
pub open spec fn unicast_reported(
    target: Seq<char>,
    outcome: Result<(), String>,
    r: Result<String, SessionError>,
) -> bool {
    match outcome {
        Ok(()) => r matches Ok(text) && text@ == "Message sent to client "@ + target,
        Err(reason) => fails_with(
            r,
            ErrorKind::SendFailure,
            "Failed to send message to client "@ + target + ": "@ + reason@,
        ),
    }
}

/// The sentence that reports a broadcast taken by `sent_count` queues.
pub open spec fn broadcast_text(sent_count: nat) -> Seq<char> {
    "Message broadcast to "@ + decimal(sent_count) + " clients"@
}

/// Whether `r` is what a broadcast to `peers` peers reports when their
/// queues answered `outcomes`.
pub open spec fn broadcast_reported(
    peers: nat,
    outcomes: Seq<bool>,
    r: Result<String, SessionError>,
) -> bool {
    &&& outcomes.len() == peers
    &&& r matches Ok(text)
    &&& text@ == broadcast_text(accepted(outcomes))
}

/// Whether `r` is what a send command reports on the registry `manager`.
///
/// In this order: an empty session id and an empty message are refused; the
/// session must be registered; the message must stand for bytes in its
/// encoding, so that a message that does not is refused before anything is
/// sent; with a target, the target must be a peer of the session, and the
/// report is that of the one send; without, the report counts the queues
/// that took the message.
pub open spec fn send_reported(
    manager: &TcpServerManager,
    send_params: SendTcpMessageParams,
    r: Result<String, SessionError>,
) -> bool {
    let id = send_params.server_id@;
    let mode = mode_named(send_params.message_type);
    if id.len() == 0 {
        fails_with(r, ErrorKind::InvalidRequest, "Server ID cannot be empty"@)
    } else if send_params.message@.len() == 0 {
        fails_with(r, ErrorKind::InvalidRequest, "Message cannot be empty"@)
    } else if !manager.servers.contains_key(id) {
        fails_with(r, ErrorKind::NotFound, "TCP Server with ID "@ + id + " not found"@)
    } else if outbound(send_params.message@, mode) is None {
        fails_with(r, ErrorKind::CodecError, codec_error_text(hex_refusal(send_params.message@)))
    } else {
        let server = manager.servers.value_of(id);
        match send_params.target_client_id {
            Some(target) => if !server.clients.contains_key(target@) {
                fails_with(r, ErrorKind::NotFound, "Client "@ + target@ + " not found"@)
            } else {
                exists|outcome: Result<(), String>| unicast_reported(target@, outcome, r)
            },
            None => exists|outcomes: Seq<bool>| #[trigger]
                broadcast_reported(server.clients.keys().len(), outcomes, r),
        }
    }
}

/// Carries out a send command.
pub fn send_tcp_message(manager: &TcpServerManager, send_params: SendTcpMessageParams) -> (r: Result<
    String,
    SessionError,
>)
    ensures
        send_reported(manager, send_params, r),
{
    if send_params.server_id.as_str().is_empty() {
        return Err(
            SessionError::new(
                ErrorKind::InvalidRequest,
                String::from_str("Server ID cannot be empty"),
            ),
        );
    }
    if send_params.message.as_str().is_empty() {
        return Err(
            SessionError::new(
                ErrorKind::InvalidRequest,
                String::from_str("Message cannot be empty"),
            ),
        );
    }
    let server = match manager.servers.get(&send_params.server_id) {
        Some(server) => server,
        None => {
            return not_found(send_params.server_id.as_str());
        },
    };
    let mode = EncodingMode::named(&send_params.message_type);
    let data = match encode(send_params.message.as_str(), mode) {
        Ok(data) => data,
        Err(error) => {
            return Err(SessionError::from_codec(error));
        },
    };
    match send_params.target_client_id {
        Some(target) => {
            let key = String::from_str(target.as_str());
            match server.clients.get(&key) {
                None => Err(
                    SessionError::about(
                        ErrorKind::NotFound,
                        "Client ",
                        target.as_str(),
                        " not found",
                    ),
                ),
                Some(client) => {
                    let outcome = offer(&client.sender, data);
                    let r = match delivery_report(target.as_str(), outcome) {
                        Ok(()) => Ok(join2("Message sent to client ", target.as_str())),
                        Err(e) => Err(e),
                    };
                    assert(unicast_reported(target@, outcome, r));
                    r
                },
            }
        },
        None => {
            let outcomes = server.offer_to_all(&data);
            let sent_count = count_accepted(&outcomes);
            let mut text = String::from_str("Message broadcast to ");
            push_decimal(&mut text, sent_count as u64);
            text.append(" clients");
            let r = Ok(text);
            assert(broadcast_reported(server.clients.keys().len(), outcomes@, r));
            r
        },
    }
}

/// Lists every session, in registration order.
pub fn get_tcp_servers(manager: &TcpServerManager) -> (r: Result<Vec<TcpServerInfo>, SessionError>)
    ensures
        r matches Ok(infos) && infos@.len() == manager.servers.keys().len() && forall|i: int|
            0 <= i < infos@.len() ==> describes(
                #[trigger] infos@[i],
                manager.servers.keys()[i],
                manager.servers.values()[i],
            ),
{
    let count = manager.servers.len();
    let mut infos: Vec<TcpServerInfo> = Vec::new();
    let mut i: usize = 0;
    while i < count
        invariant
            count == manager.servers.keys().len(),
            manager.servers.valid(),
            i <= count,
            infos@.len() == i,
            forall|j: int|
                0 <= j < i ==> describes(
                    #[trigger] infos@[j],
                    manager.servers.keys()[j],
                    manager.servers.values()[j],
                ),
        decreases count - i,
    {
        infos.push(info_of(manager.servers.key_at(i), manager.servers.value_at(i)));
        i += 1;
    }
    Ok(infos)
}

/// Describes one session.
pub fn get_tcp_server_info(manager: &TcpServerManager, server_id: Option<String>) -> (r: Result<
    TcpServerInfo,
    SessionError,
>)
    ensures
        match server_id {
            None => fails_with(r, ErrorKind::InvalidRequest, "Server ID is required"@),
            Some(id) => if id@.len() == 0 {
                fails_with(r, ErrorKind::InvalidRequest, "Server ID cannot be empty"@)
            } else if !manager.servers.contains_key(id@) {
                fails_with(r, ErrorKind::NotFound, "TCP Server with ID "@ + id@ + " not found"@)
            } else {
                r matches Ok(info) && describes(info, id@, manager.servers.value_of(id@))
            },
        },
{
    let id = match server_id {
        Some(id) => id,
        None => {
            return Err(
                SessionError::new(
                    ErrorKind::InvalidRequest,
                    String::from_str("Server ID is required"),
                ),
            );
        },
    };
    if id.as_str().is_empty() {
        return Err(
            SessionError::new(
                ErrorKind::InvalidRequest,
                String::from_str("Server ID cannot be empty"),
            ),
        );
    }
    match manager.servers.get(&id) {
        Some(server) => Ok(info_of(&id, server)),
        None => not_found(id.as_str()),
    }
}

} // verus!
