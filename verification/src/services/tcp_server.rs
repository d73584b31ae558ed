//! Servers that belong to one window each, by the window's label.
//!
//! Every accepted stream is kept until the server stops. A stop takes the
//! server out of the table and hands back what the caller has to close: the
//! streams, and the listener's address, at which a connection of its own
//! wakes the blocked accept.

use crate::registry::Registry;
use crate::services::communication::{show_message, ActionResult, MessageItem, MessageType};
use vstd::prelude::*;

verus! {

/// The server of one window. `S` is the type of an accepted stream.
pub struct TcpServerInstance<S> {
    label: String,
    host: String,
    local_addr: Option<String>,
    clients: Vec<S>,
}

/// The servers of all windows, by label.
pub struct ServerInstances<S> {
    instances: Registry<TcpServerInstance<S>>,
}

/// What the accepting thread does after an accept returned.
#[derive(Debug)]
pub enum Incoming {
    /// The server was stopped: leave the loop.
    Stop,
    /// The stream was kept: show this line and accept again.
    Accepted(MessageItem),
    /// The accept failed: accept again.
    Failed,
}

/// What a stop leaves to do.
pub struct StopPlan<S> {
    /// How the command ended.
    pub result: ActionResult,
    /// The listener's address, to connect to once so that the accept
    /// returns.
    pub wake: Option<String>,
    /// The accepted streams, to shut down.
    pub clients: Vec<S>,
}

impl<S> TcpServerInstance<S> {
    /// The window's label.
    pub closed spec fn label(&self) -> Seq<char> {
        self.label@
    }

    /// The address to listen at.
    pub closed spec fn host(&self) -> Seq<char> {
        self.host@
    }

    /// The address that the listener got, once it is bound.
    pub closed spec fn local_addr(&self) -> Option<String> {
        self.local_addr
    }

    /// The accepted streams, oldest first.
    pub closed spec fn clients(&self) -> Seq<S> {
        self.clients@
    }

    /// A server that is not bound: no address, no streams.
    pub fn new(label: &str, host: &str) -> (instance: Self)
        ensures
            instance.label() == label@,
            instance.host() == host@,
            instance.local_addr() is None,
            instance.clients() == Seq::<S>::empty(),
    {
        TcpServerInstance {
            label: String::from_str(label),
            host: String::from_str(host),
            local_addr: None,
            clients: Vec::new(),
        }
    }

    /// The address to bind.
    pub fn bind_target(&self) -> (addr: &String)
        ensures
            addr@ == self.host(),
    {
        &self.host
    }

    /// Registers this server in `instances`, given the outcome of binding
    /// its listener.
    pub fn init(self, instances: &mut ServerInstances<S>, bound: Result<String, String>) -> (r: Result<
        (),
        String,
    >)
        ensures
            inits(old(instances), self, bound, final(instances), r),
    {
        match bound {
            Err(reason) => Err(reason),
            Ok(addr) => {
                let mut instance = self;
                let ghost servers = instances.instances.values();
                instance.local_addr = Some(addr);
                let label = instance.label.clone();
                if instances.instances.insert(instance.label.clone(), instance) {
                    assert(instances.instances.values().take(servers.len() as int) =~= servers);
                    Ok(())
                } else {
                    Err(crate::text::join3("Server ", label.as_str(), " already exists"))
                }
            },
        }
    }
}

impl<S> ServerInstances<S> {
    /// The labels of the windows that have a server, in the order in which
    /// they started.
    pub closed spec fn labels(&self) -> Seq<Seq<char>> {
        self.instances.keys()
    }

    /// The servers, each at the position of its label.
    pub closed spec fn servers(&self) -> Seq<TcpServerInstance<S>> {
        self.instances.values()
    }

    /// Whether the window `label` has a server.
    pub open spec fn has(&self, label: Seq<char>) -> bool {
        self.labels().contains(label)
    }

    /// The server of the window `label`.
    pub open spec fn server(&self, label: Seq<char>) -> TcpServerInstance<S> {
        self.servers()[self.labels().index_of(label)]
    }

    /// No servers.
    pub fn new() -> (table: Self)
        ensures
            table.labels() == Seq::<Seq<char>>::empty(),
    {
        ServerInstances { instances: Registry::new() }
    }
}

/// Whether the window `label` has a server.
pub fn is_tcp_server_running<S>(instances: &ServerInstances<S>, label: &str) -> (running: bool)
    ensures
        running == instances.has(label@),
{
    let key = String::from_str(label);
    instances.instances.contains(&key)
}

/// Whether `after` and `r` are what registering `instance` gives on the
/// table `before`, where `bound` is the outcome of binding its
/// listener: the address it got, or the reason why it got none.
///
/// A failed bind and a window that has a server fail and change nothing.
/// Otherwise the server is appended with its address noted.
pub open spec fn inits<S>(
    before: &ServerInstances<S>,
    instance: TcpServerInstance<S>,
    bound: Result<String, String>,
    after: &ServerInstances<S>,
    r: Result<(), String>,
) -> bool {
    match bound {
        Err(reason) => r == Err::<(), String>(reason) && after == before,
        Ok(addr) => if before.has(instance.label()) {
            &&& r matches Err(message)
            &&& message@ == "Server "@ + instance.label() + " already exists"@
            &&& after == before
        } else {
            &&& r is Ok
            &&& after.labels() == before.labels().push(instance.label())
            &&& after.servers().len() == before.servers().len() + 1
            &&& after.servers().take(before.servers().len() as int) == before.servers()
            &&& after.servers().last().label() == instance.label()
            &&& after.servers().last().host() == instance.host()
            &&& after.servers().last().clients() == instance.clients()
            &&& after.servers().last().local_addr() == Some(addr)
        },
    }
}

/// Whether `after` and `result` are what a start command for the window
/// `label` gives on the table `before`, where `bound` is the outcome of
/// binding a listener at `host`.
///
/// A failed bind and a window that has a server fail, with the reason as
/// the error message, and change nothing. Otherwise a server without
/// streams is appended with its address noted.
pub open spec fn starts<S>(
    before: &ServerInstances<S>,
    label: Seq<char>,
    host: Seq<char>,
    bound: Result<String, String>,
    after: &ServerInstances<S>,
    result: ActionResult,
) -> bool {
    match bound {
        Err(reason) => !result.success && result.error_message == reason && after == before,
        Ok(addr) => if before.has(label) {
            &&& !result.success
            &&& result.error_message@ == "Server "@ + label + " already exists"@
            &&& after == before
        } else {
            &&& result.success
            &&& result.error_message@ == Seq::<char>::empty()
            &&& after.labels() == before.labels().push(label)
            &&& after.servers().len() == before.servers().len() + 1
            &&& after.servers().take(before.servers().len() as int) == before.servers()
            &&& after.servers().last().label() == label
            &&& after.servers().last().host() == host
            &&& after.servers().last().clients() == Seq::<S>::empty()
            &&& after.servers().last().local_addr() == Some(addr)
        },
    }
}

/// Carries out a start command for the window `label`.
pub fn start_tcp_server<S>(
    instances: &mut ServerInstances<S>,
    label: &str,
    host: &str,
    bound: Result<String, String>,
) -> (result: ActionResult)
    ensures
        starts(old(instances), label@, host@, bound, final(instances), result),
{
    match TcpServerInstance::new(label, host).init(instances, bound) {
        Ok(()) => ActionResult::succeeded(),
        Err(message) => ActionResult::failed(message),
    }
}

/// Whether `after` and `action` are what the accepting thread of the
/// window `label` is told after an accept returned `stream`: a stream,
/// or nothing where the accept failed.
///
/// Once the window has no server the thread stops, whatever the accept
/// returned. Otherwise a stream is kept behind the earlier ones and
/// announced, and a failed accept changes nothing.
pub open spec fn accepts<S>(
    before: &ServerInstances<S>,
    label: Seq<char>,
    stream: Option<S>,
    after: &ServerInstances<S>,
    action: Incoming,
) -> bool {
    if !before.has(label) {
        action is Stop && after == before
    } else {
        match stream {
            None => action is Failed && after == before,
            Some(stream) => {
                let at = before.labels().index_of(label);
                &&& action matches Incoming::Accepted(item)
                &&& item.content@ == "\u{65b0}\u{7684}\u{5ba2}\u{6237}\u{7aef}\u{8fde}\u{63a5}"@
                &&& item.msg_type == MessageType::Log
                &&& after.labels() == before.labels()
                &&& after.servers() == before.servers().update(at, after.servers()[at])
                &&& after.servers()[at].label() == before.servers()[at].label()
                &&& after.servers()[at].host() == before.servers()[at].host()
                &&& after.servers()[at].local_addr() == before.servers()[at].local_addr()
                &&& after.servers()[at].clients() == before.servers()[at].clients().push(stream)
            },
        }
    }
}

/// Tells the accepting thread of the window `label` what to do after an
/// accept, and keeps the stream if there is one to keep.
pub fn handle_incoming_connection<S>(
    instances: &mut ServerInstances<S>,
    label: &str,
    stream: Option<S>,
) -> (action: Incoming)
    ensures
        accepts(old(instances), label@, stream, final(instances), action),
{
    let key = String::from_str(label);
    let at = match instances.instances.find(&key) {
        Some(at) => at,
        None => {
            return Incoming::Stop;
        },
    };
    match stream {
        None => Incoming::Failed,
        Some(stream) => {
            let ghost labels = instances.instances.keys();
            let ghost servers = instances.instances.values();
            let mut instance = instances.instances.remove(&key).unwrap();
            instance.clients.push(stream);
            instances.instances.put_back(at, key, instance, Ghost(labels), Ghost(servers));
            Incoming::Accepted(
                show_message(
                    "\u{65b0}\u{7684}\u{5ba2}\u{6237}\u{7aef}\u{8fde}\u{63a5}",
                    MessageType::Log,
                ),
            )
        },
    }
}

/// Whether `after` and `plan` are what a stop command for the window
/// `label` gives on the table `before`.
///
/// A window without a server fails and changes nothing. Otherwise the
/// server leaves the table, and the plan holds its listener's address
/// and all its streams.
pub open spec fn stops<S>(
    before: &ServerInstances<S>,
    label: Seq<char>,
    after: &ServerInstances<S>,
    plan: StopPlan<S>,
) -> bool {
    if !before.has(label) {
        &&& !plan.result.success
        &&& plan.result.error_message@ == "\u{672a}\u{627e}\u{5230}\u{5b9e}\u{4f8b}"@
        &&& plan.wake is None
        &&& plan.clients@ == Seq::<S>::empty()
        &&& after == before
    } else {
        let at = before.labels().index_of(label);
        &&& plan.result.success
        &&& plan.result.error_message@ == Seq::<char>::empty()
        &&& plan.wake == before.servers()[at].local_addr()
        &&& plan.clients@ == before.servers()[at].clients()
        &&& after.labels() == before.labels().remove(at)
        &&& after.servers() == before.servers().remove(at)
        &&& !after.has(label)
    }
}

/// Carries out a stop for the window `label`.
pub fn stop_tcp_server_base<S>(instances: &mut ServerInstances<S>, label: &str) -> (plan: StopPlan<S>)
    ensures
        stops(old(instances), label@, final(instances), plan),
{
    let key = String::from_str(label);
    match instances.instances.remove(&key) {
        None => StopPlan {
            result: ActionResult::failed(
                String::from_str("\u{672a}\u{627e}\u{5230}\u{5b9e}\u{4f8b}"),
            ),
            wake: None,
            clients: Vec::new(),
        },
        Some(instance) => StopPlan {
            result: ActionResult::succeeded(),
            wake: instance.local_addr,
            clients: instance.clients,
        },
    }
}

/// Carries out a stop command for the window `label`.
pub fn stop_tcp_server<S>(instances: &mut ServerInstances<S>, label: &str) -> (plan: StopPlan<S>)
    ensures
        stops(old(instances), label@, final(instances), plan),
{
    stop_tcp_server_base(instances, label)
}

} // verus!
