//! The network service: lifecycle state machine, registry bookkeeping,
//! broadcast/unicast planning and message-type-keyed dispatch.
//!
//! The service is the only mutation point for peer-communication state. The
//! actual transport calls (bind, connect, one RPC per destination) are made
//! by the unverified shell around this crate: `broadcast` and `unicast`
//! return delivery plans naming the target handles, and the shell performs
//! one call per named target, reporting a unicast outcome back through
//! `complete_unicast`.

use crate::errors::NetworkError;
use crate::event_bus::{
    all_backlogs_took,
    error_published,
    is_error_event,
    is_received_event,
    received_published,
    EventBus,
    NetworkEvent,
};
use crate::message::{message_eq, BroadcastOptions, MessageType, NetworkMessage, UnicastOptions};
use crate::registry::{NodeEntry, NodeRegistry};
use crate::table::TokenTable;
use crate::MessageId;
use vstd::prelude::*;
use vstd::string::StringExecFns;

verus! {

/// Relies on rand::random (ThreadRng over the standard distribution): a
/// 32-byte key filled with random bytes.
#[verifier::external_body]
pub fn random_private_key() -> [u8; 32] {
    rand::random::<[u8; 32]>()
}

/// Observable service configuration.
#[derive(Debug, Clone)]
pub struct NetworkServiceConfig {
    /// Address the transport should listen on.
    pub bind_address: String,
    /// Display name; the local node id is derived from it.
    pub server_name: String,
    /// Identity material for the transport's handshake.
    pub private_key: [u8; 32],
    /// Upper bound on concurrent connections.
    pub max_connections: usize,
    /// Heartbeat period in milliseconds.
    pub heartbeat_interval_ms: u64,
    /// Message buffer size.
    pub message_buffer_size: usize,
    /// Bound on each event-bus subscriber's backlog.
    pub event_bus_capacity: usize,
}

impl NetworkServiceConfig {
    /// An exact copy of the configuration.
    pub fn duplicate(&self) -> (r: Self)
        ensures
            r == *self,
    {
        NetworkServiceConfig {
            bind_address: self.bind_address.clone(),
            server_name: self.server_name.clone(),
            private_key: self.private_key,
            max_connections: self.max_connections,
            heartbeat_interval_ms: self.heartbeat_interval_ms,
            message_buffer_size: self.message_buffer_size,
            event_bus_capacity: self.event_bus_capacity,
        }
    }
}

impl Default for NetworkServiceConfig {
    /// The default configuration; the private key is drawn at random.
    fn default() -> (r: Self)
        ensures
            r.bind_address@ == "127.0.0.1:8080"@,
            r.server_name@ == "netsync-service"@,
            r.max_connections == 1000,
            r.heartbeat_interval_ms == 30000,
            r.message_buffer_size == 1000,
            r.event_bus_capacity == 1000,
    {
        NetworkServiceConfig {
            bind_address: "127.0.0.1:8080".to_owned(),
            server_name: "netsync-service".to_owned(),
            private_key: random_private_key(),
            max_connections: 1000,
            heartbeat_interval_ms: 30000,
            message_buffer_size: 1000,
            event_bus_capacity: 1000,
        }
    }
}

/// Whether `k` occurs among the string views of `l`.
pub open spec fn str_seq_contains(l: Seq<String>, k: Seq<char>) -> bool {
    exists|i: int| 0 <= i < l.len() && l[i]@ == k
}

/// No string view occurs twice in `l`.
pub open spec fn strs_distinct(l: Seq<String>) -> bool {
    forall|i: int, j: int| 0 <= i < j < l.len() ==> l[i]@ != l[j]@
}

/// Whether `s` occurs in `list`, compared by content.
pub fn str_list_contains(list: &Vec<String>, s: &String) -> (r: bool)
    ensures
        r == str_seq_contains(list@, s@),
{
    let n = list.len();
    let mut i: usize = 0;
    while i < n
        invariant
            n == list@.len(),
            0 <= i <= n,
            forall|k: int| 0 <= k < i ==> list@[k]@ != s@,
        decreases n - i,
    {
        if list[i] == *s {
            proof {
                assert(list@[i as int]@ == s@);
            }
            return true;
        }
        i += 1;
    }
    false
}

/// Whether a broadcast reaches this registry entry: every registered node
/// is a target except the local node and the excluded ones.
pub open spec fn is_broadcast_target(e: NodeEntry, local: Seq<char>, excluded: Seq<String>) -> bool {
    e.node_id@ != local && !str_seq_contains(excluded, e.node_id@)
}

/// The registry entries a broadcast fans out to, in registry order.
pub open spec fn broadcast_targets(
    entries: Seq<NodeEntry>,
    local: Seq<char>,
    excluded: Seq<String>,
) -> Seq<NodeEntry>
    decreases entries.len(),
{
    if entries.len() == 0 {
        Seq::empty()
    } else {
        let rest = broadcast_targets(entries.drop_last(), local, excluded);
        if is_broadcast_target(entries.last(), local, excluded) {
            rest.push(entries.last())
        } else {
            rest
        }
    }
}

/// The node id a starting service derives from its display name and bound
/// address.
pub open spec fn derived_node_id(server_name: Seq<char>, local_addr: Seq<char>) -> Seq<char> {
    server_name + ":"@ + local_addr
}

/// The per-destination plan a broadcast hands to the shell.
#[derive(Debug)]
pub struct BroadcastPlan {
    /// The id of the message being fanned out (the broadcast's result).
    pub message_id: MessageId,
    /// One entry per destination: node id and transport handle.
    pub targets: Vec<NodeEntry>,
}

/// The single-destination plan a unicast hands to the shell.
#[derive(Debug)]
pub struct UnicastPlan {
    /// The id of the message being sent.
    pub message_id: MessageId,
    /// The destination node.
    pub target: String,
    /// The destination's transport handle.
    pub handle: u64,
}

/// What `handle_incoming_message` decided: which event-bus handlers to
/// notify and which message handler, if any, to dispatch on its own task.
#[derive(Debug)]
pub struct IncomingDispatch {
    /// Tokens of the event-bus handlers owed the received-message event.
    pub event_handlers: Vec<u64>,
    /// The handler registered for the message's type, if any; with no
    /// handler the message is dropped.
    pub handler: Option<u64>,
    /// The originating node, handed back for the dispatch task.
    pub from: String,
    /// The message itself, handed back for the dispatch task.
    pub message: NetworkMessage,
}

/// The façade business modules depend on.
pub struct NetworkService {
    /// Whether the service is in its running state.
    pub is_running: bool,
    /// The node id derived at start time, while running.
    pub local_node_id: Option<String>,
    /// The table of reachable nodes, local node included while running.
    pub registry: NodeRegistry,
    /// Message handlers keyed by message-type tag; last registration wins.
    pub handlers: TokenTable,
    /// The bus lifecycle and delivery events are published on.
    pub event_bus: EventBus,
    /// The configuration the service was started with.
    pub config: Option<NetworkServiceConfig>,
    /// Addresses of known servers the shell should connect to.
    pub known_servers: Vec<String>,
}

impl NetworkService {
    /// Registry and tables are well formed, and the running flag agrees
    /// with the presence of a registered local node id.
    pub open spec fn wf(&self) -> bool {
        &&& self.registry.wf()
        &&& self.handlers.wf()
        &&& self.event_bus.wf()
        &&& self.is_running <==> self.local_node_id is Some
        &&& self.is_running ==> self.registry.spec_contains(self.local_node_id->0@)
        &&& strs_distinct(self.known_servers@)
    }

    /// The local node id's view, while running.
    pub open spec fn spec_local_id(&self) -> Seq<char> {
        self.local_node_id->0@
    }

    /// Creates a stopped service with an empty registry and no handlers.
    pub fn new() -> (r: Self)
        ensures
            r.wf(),
            r.is_running == false,
            r.local_node_id is None,
            r.registry.entries@.len() == 0,
            r.handlers.entries@.len() == 0,
            r.config is None,
            r.known_servers@.len() == 0,
            r.event_bus.capacity == 1000,
            r.event_bus.handlers.entries@.len() == 0,
            r.event_bus.subscribers@.len() == 0,
    {
        NetworkService {
            is_running: false,
            local_node_id: None,
            registry: NodeRegistry::new(),
            handlers: TokenTable::new(),
            event_bus: EventBus::new(1000),
            config: None,
            known_servers: Vec::new(),
        }
    }

    /// Starts the service. The shell has already bound the transport at
    /// `local_addr` and owns `local_handle` for it; this transition derives
    /// the local node id, registers it and flips the running flag. Starting
    /// a running service fails with a configuration error and changes
    /// nothing.
    pub fn start(
        &mut self,
        config: NetworkServiceConfig,
        local_addr: &str,
        local_handle: u64,
    ) -> (r: Result<String, NetworkError>)
        requires
            old(self).wf(),
        ensures
            final(self).wf(),
            old(self).is_running ==> {
                &&& r matches Err(NetworkError::ConfigError(_))
                &&& *final(self) == *old(self)
            },
            !old(self).is_running ==> {
                &&& r matches Ok(id) && id@ == derived_node_id(config.server_name@, local_addr@)
                &&& final(self).is_running
                &&& final(self).local_node_id matches Some(id) && id@ == derived_node_id(
                    config.server_name@,
                    local_addr@,
                )
                &&& final(self).registry.spec_contains(
                    derived_node_id(config.server_name@, local_addr@),
                )
                &&& final(self).registry.spec_handle(
                    derived_node_id(config.server_name@, local_addr@),
                ) == local_handle
                &&& forall|k: Seq<char>|
                    k != derived_node_id(config.server_name@, local_addr@) ==> final(self).registry.spec_contains(k) == old(self).registry.spec_contains(k)
                &&& final(self).handlers == old(self).handlers
                &&& final(self).event_bus == old(self).event_bus
                &&& final(self).config matches Some(c) && c == config
                &&& final(self).known_servers == old(self).known_servers
            },
    {
        if self.is_running {
            return Err(NetworkError::ConfigError("service already started".to_owned()));
        }
        let mut id: String = config.server_name.clone();
        id.append(":");
        id.append(local_addr);
        self.registry.insert(id.clone(), local_handle);
        self.local_node_id = Some(id.clone());
        self.config = Some(config);
        self.is_running = true;
        Ok(id)
    }

    /// Stops the service: removes the local node from the registry and
    /// clears the running state. Stopping a stopped service succeeds and
    /// changes nothing.
    pub fn stop(&mut self) -> (r: Result<(), NetworkError>)
        requires
            old(self).wf(),
        ensures
            final(self).wf(),
            r is Ok,
            !old(self).is_running ==> *final(self) == *old(self),
            old(self).is_running ==> {
                &&& final(self).is_running == false
                &&& final(self).local_node_id is None
                &&& !final(self).registry.spec_contains(old(self).spec_local_id())
                &&& forall|k: Seq<char>|
                    k != old(self).spec_local_id() ==> final(self).registry.spec_contains(k) == old(self).registry.spec_contains(k)
                &&& final(self).handlers == old(self).handlers
                &&& final(self).event_bus == old(self).event_bus
                &&& final(self).config == old(self).config
                &&& final(self).known_servers == old(self).known_servers
            },
    {
        if !self.is_running {
            return Ok(());
        }
        let local = match &self.local_node_id {
            Some(id) => id.clone(),
            None => {
                proof {
                    assert(false);
                }
                return Ok(());
            },
        };
        self.registry.remove(&local);
        self.local_node_id = None;
        self.is_running = false;
        Ok(())
    }

    /// Remembers a server address the shell should connect to; duplicates
    /// are ignored.
    pub fn add_known_server(&mut self, server_addr: String)
        requires
            old(self).wf(),
        ensures
            final(self).wf(),
            str_seq_contains(final(self).known_servers@, server_addr@),
            str_seq_contains(old(self).known_servers@, server_addr@) ==> final(self).known_servers
                == old(self).known_servers,
            !str_seq_contains(old(self).known_servers@, server_addr@) ==> final(self).known_servers@ == old(self).known_servers@.push(server_addr),
            final(self).is_running == old(self).is_running,
            final(self).local_node_id == old(self).local_node_id,
            final(self).registry == old(self).registry,
            final(self).handlers == old(self).handlers,
            final(self).event_bus == old(self).event_bus,
            final(self).config == old(self).config,
    {
        let n = self.known_servers.len();
        let mut i: usize = 0;
        while i < n
            invariant
                old(self).wf(),
                *self == *old(self),
                n == self.known_servers@.len(),
                0 <= i <= n,
                forall|k: int| 0 <= k < i ==> self.known_servers@[k]@ != server_addr@,
            decreases n - i,
        {
            if self.known_servers[i] == server_addr {
                return ;
            }
            i += 1;
        }
        let ghost len = self.known_servers@.len();
        let ghost addr = server_addr@;
        self.known_servers.push(server_addr);
        proof {
            assert(self.known_servers@[len as int]@ == addr);
        }
    }

    /// Registers a peer's transport handle under its node id; an existing
    /// registration is replaced. The shell calls this when a connection to
    /// a peer is established.
    pub fn register_peer(&mut self, node_id: String, handle: u64)
        requires
            old(self).wf(),
        ensures
            final(self).wf(),
            final(self).registry.spec_contains(node_id@),
            final(self).registry.spec_handle(node_id@) == handle,
            forall|k: Seq<char>|
                k != node_id@ ==> final(self).registry.spec_contains(k) == old(self).registry.spec_contains(k),
            forall|k: Seq<char>|
                k != node_id@ && old(self).registry.spec_contains(k) ==> final(self).registry.spec_handle(k) == old(self).registry.spec_handle(k),
            final(self).is_running == old(self).is_running,
            final(self).local_node_id == old(self).local_node_id,
            final(self).handlers == old(self).handlers,
            final(self).event_bus == old(self).event_bus,
            final(self).config == old(self).config,
            final(self).known_servers == old(self).known_servers,
    {
        self.registry.insert(node_id, handle);
        proof {
            if self.is_running {
                assert(self.registry.spec_contains(self.local_node_id->0@));
            }
        }
    }

    /// Removes a peer's registration; returns whether one existed. The
    /// local node id of a running service cannot be removed this way.
    pub fn unregister_peer(&mut self, node_id: &String) -> (removed: bool)
        requires
            old(self).wf(),
            old(self).is_running ==> node_id@ != old(self).spec_local_id(),
        ensures
            final(self).wf(),
            removed == old(self).registry.spec_contains(node_id@),
            !final(self).registry.spec_contains(node_id@),
            forall|k: Seq<char>|
                k != node_id@ ==> final(self).registry.spec_contains(k) == old(self).registry.spec_contains(k),
            final(self).is_running == old(self).is_running,
            final(self).local_node_id == old(self).local_node_id,
            final(self).handlers == old(self).handlers,
            final(self).event_bus == old(self).event_bus,
            final(self).config == old(self).config,
            final(self).known_servers == old(self).known_servers,
    {
        self.registry.remove(node_id)
    }

    /// Plans a broadcast: requires the running state, then fans out to
    /// every registered node except the local node and the excluded ones.
    /// The plan succeeds regardless of how many targets remain; per-target
    /// delivery failures are the shell's to log and are not escalated.
    /// Returns the message's own id with the plan.
    pub fn broadcast(
        &self,
        message: &NetworkMessage,
        options: Option<&BroadcastOptions>,
    ) -> (r: Result<BroadcastPlan, NetworkError>)
        requires
            self.wf(),
        ensures
            !self.is_running ==> r matches Err(NetworkError::ConfigError(_)),
            self.is_running ==> {
                &&& r matches Ok(plan)
                &&& plan.message_id == message.id
                &&& plan.targets@ == broadcast_targets(
                    self.registry.entries@,
                    self.spec_local_id(),
                    match options {
                        Some(o) => o.exclude_nodes@,
                        None => Seq::<String>::empty(),
                    },
                )
            },
    {
        if !self.is_running {
            return Err(NetworkError::ConfigError("service not started".to_owned()));
        }
        let local: &String = match &self.local_node_id {
            Some(id) => id,
            None => {
                proof {
                    assert(false);
                }
                return Err(NetworkError::ConfigError("service not started".to_owned()));
            },
        };
        let ghost excl: Seq<String> = match options {
            Some(o) => o.exclude_nodes@,
            None => Seq::<String>::empty(),
        };
        let n = self.registry.entries.len();
        let mut targets: Vec<NodeEntry> = Vec::new();
        let mut i: usize = 0;
        proof {
            assert(self.registry.entries@.take(0) =~= Seq::<NodeEntry>::empty());
            assert(targets@ =~= broadcast_targets(
                self.registry.entries@.take(0),
                self.spec_local_id(),
                excl,
            ));
        }
        while i < n
            invariant
                self.wf(),
                self.is_running,
                n == self.registry.entries@.len(),
                0 <= i <= n,
                local@ == self.spec_local_id(),
                excl == (match options {
                    Some(o) => o.exclude_nodes@,
                    None => Seq::<String>::empty(),
                }),
                targets@ == broadcast_targets(
                    self.registry.entries@.take(i as int),
                    self.spec_local_id(),
                    excl,
                ),
            decreases n - i,
        {
            let entry = &self.registry.entries[i];
            let excluded: bool = match options {
                Some(o) => str_list_contains(&o.exclude_nodes, &entry.node_id),
                None => false,
            };
            let keep: bool = !excluded && !(entry.node_id == *local);
            proof {
                assert(self.registry.entries@.take(i + 1).drop_last() =~= self.registry.entries@
                    .take(i as int));
                assert(self.registry.entries@.take(i + 1).last() == self.registry.entries@[
                    i as int]);
                assert(keep == is_broadcast_target(
                    self.registry.entries@[i as int],
                    self.spec_local_id(),
                    excl,
                ));
            }
            if keep {
                let ghost prev = targets@;
                targets.push(NodeEntry { node_id: entry.node_id.clone(), handle: entry.handle });
                proof {
                    assert(targets@.last() == self.registry.entries@[i as int]);
                    assert(targets@ =~= prev.push(self.registry.entries@[i as int]));
                }
            }
            i += 1;
        }
        proof {
            assert(self.registry.entries@.take(n as int) =~= self.registry.entries@);
        }
        Ok(BroadcastPlan { message_id: message.id, targets })
    }

    /// Plans a unicast: requires the running state and a registered target,
    /// whose absence is the caller's error. Returns the message's own id
    /// with the plan; a transport failure afterwards is reported through
    /// `complete_unicast` and is the caller's failure.
    pub fn unicast(
        &self,
        target: &String,
        message: &NetworkMessage,
        options: Option<&UnicastOptions>,
    ) -> (r: Result<UnicastPlan, NetworkError>)
        requires
            self.wf(),
        ensures
            !self.is_running ==> r matches Err(NetworkError::ConfigError(_)),
            self.is_running && !self.registry.spec_contains(target@) ==> (r matches Err(
                NetworkError::NodeNotFound(t),
            ) && t@ == target@),
            self.is_running && self.registry.spec_contains(target@) ==> {
                &&& r matches Ok(plan)
                &&& plan.message_id == message.id
                &&& plan.target@ == target@
                &&& plan.handle == self.registry.spec_handle(target@)
            },
    {
        if !self.is_running {
            return Err(NetworkError::ConfigError("service not started".to_owned()));
        }
        match self.registry.get(target) {
            None => Err(NetworkError::NodeNotFound(target.clone())),
            Some(handle) => Ok(
                UnicastPlan { message_id: message.id, target: target.clone(), handle },
            ),
        }
    }

    /// Registers a handler token for a message type; the previous handler
    /// for that type, if any, is replaced.
    pub fn register_message_handler(
        &mut self,
        message_type: MessageType,
        handler_token: u64,
    ) -> (r: Result<(), NetworkError>)
        requires
            old(self).wf(),
        ensures
            final(self).wf(),
            r is Ok,
            final(self).handlers.spec_contains(message_type.0@),
            final(self).handlers.spec_token(message_type.0@) == handler_token,
            forall|k: Seq<char>|
                k != message_type.0@ ==> final(self).handlers.spec_contains(k) == old(self).handlers.spec_contains(k),
            forall|k: Seq<char>|
                k != message_type.0@ && old(self).handlers.spec_contains(k) ==> final(self).handlers.spec_token(k) == old(self).handlers.spec_token(k),
            final(self).is_running == old(self).is_running,
            final(self).local_node_id == old(self).local_node_id,
            final(self).registry == old(self).registry,
            final(self).event_bus == old(self).event_bus,
            final(self).config == old(self).config,
            final(self).known_servers == old(self).known_servers,
    {
        let MessageType(tag) = message_type;
        self.handlers.insert(tag, handler_token);
        Ok(())
    }

    /// The handler token registered for a message type, if any.
    pub fn get_message_handler(&self, message_type: &MessageType) -> (r: Option<u64>)
        requires
            self.wf(),
        ensures
            match r {
                Some(t) => self.handlers.spec_contains(message_type.0@) && t
                    == self.handlers.spec_token(message_type.0@),
                None => !self.handlers.spec_contains(message_type.0@),
            },
    {
        self.handlers.get(&message_type.0)
    }

    /// Accepts an inbound envelope: publishes a received-message event and
    /// decides which handler, if any, the shell should dispatch on its own
    /// task. A message whose type has no handler is dropped (the decision
    /// carries no handler). Never fails the inbound path.
    #[verifier::spinoff_prover]
    pub fn handle_incoming_message(&mut self, from: String, message: NetworkMessage) -> (r:
        IncomingDispatch)
        requires
            old(self).wf(),
        ensures
            final(self).wf(),
            r.from == from,
            message_eq(r.message, message),
            r.handler == if old(self).handlers.spec_contains(message.message_type.0@) {
                Some(old(self).handlers.spec_token(message.message_type.0@))
            } else {
                None::<u64>
            },
            r.event_handlers@.len() == old(self).event_bus.handlers.entries@.len(),
            forall|k: int|
                0 <= k < r.event_handlers@.len() ==> r.event_handlers@[k] == old(self).event_bus.handlers.entries@[k].token,
            received_published(old(self).event_bus, final(self).event_bus, from, message),
            final(self).event_bus.capacity == old(self).event_bus.capacity,
            final(self).event_bus.handlers == old(self).event_bus.handlers,
            final(self).is_running == old(self).is_running,
            final(self).local_node_id == old(self).local_node_id,
            final(self).registry == old(self).registry,
            final(self).handlers == old(self).handlers,
            final(self).config == old(self).config,
            final(self).known_servers == old(self).known_servers,
    {
        let event = NetworkEvent::MessageReceived {
            from: from.clone(),
            message: message.duplicate(),
        };
        let ghost published = event;
        let event_handlers = self.event_bus.publish(event);
        let handler = self.get_message_handler(&message.message_type);
        proof {
            assert forall|i: int|
                #![trigger self.event_bus.subscribers@[i].backlog@]
                0 <= i < old(self).event_bus.subscribers@.len() implies old(
                self,
            ).event_bus.backlog_after(
                old(self).event_bus.subscribers@[i].backlog@,
                self.event_bus.subscribers@[i].backlog@,
                published,
            ) by {}
            assert(all_backlogs_took(old(self).event_bus, self.event_bus, published));
            assert(is_received_event(published, from, message));
            assert(received_published(old(self).event_bus, self.event_bus, from, message));
        }
        IncomingDispatch { event_handlers, handler, from, message }
    }

    /// Publishes an error event for a failed handler; returns the
    /// event-bus handler tokens owed the event. Handler failures never
    /// propagate back to the transport layer.
    #[verifier::spinoff_prover]
    pub fn report_handler_error(&mut self, error: String) -> (r: Vec<u64>)
        requires
            old(self).wf(),
        ensures
            final(self).wf(),
            r@.len() == old(self).event_bus.handlers.entries@.len(),
            forall|k: int|
                0 <= k < r@.len() ==> r@[k] == old(self).event_bus.handlers.entries@[k].token,
            error_published(old(self).event_bus, final(self).event_bus, error),
            final(self).event_bus.capacity == old(self).event_bus.capacity,
            final(self).event_bus.handlers == old(self).event_bus.handlers,
            final(self).is_running == old(self).is_running,
            final(self).local_node_id == old(self).local_node_id,
            final(self).registry == old(self).registry,
            final(self).handlers == old(self).handlers,
            final(self).config == old(self).config,
            final(self).known_servers == old(self).known_servers,
    {
        let ghost msg = error@;
        let event = NetworkEvent::Error { error };
        let ghost published = event;
        let tokens = self.event_bus.publish(event);
        proof {
            assert forall|i: int|
                #![trigger self.event_bus.subscribers@[i].backlog@]
                0 <= i < old(self).event_bus.subscribers@.len() implies old(
                self,
            ).event_bus.backlog_after(
                old(self).event_bus.subscribers@[i].backlog@,
                self.event_bus.subscribers@[i].backlog@,
                published,
            ) by {}
            assert(all_backlogs_took(old(self).event_bus, self.event_bus, published));
            assert(is_error_event(published, published->Error_error));
            assert(error_published(old(self).event_bus, self.event_bus, published->Error_error));
        }
        tokens
    }

    /// What `get_connected_nodes` returns while running: exactly the
    /// registered node ids other than the local one.
    pub open spec fn connected_nodes_ok(&self, nodes: Seq<String>) -> bool {
        &&& forall|i: int|
            0 <= i < nodes.len() ==> #[trigger] nodes[i]@ != self.spec_local_id()
                && self.registry.spec_contains(nodes[i]@)
        &&& forall|k: Seq<char>|
            self.registry.spec_contains(k) && k != self.spec_local_id() ==> exists|i: int|
                0 <= i < nodes.len() && #[trigger] nodes[i]@ == k
        &&& nodes.len() == self.registry.entries@.len() - 1
    }

    /// The registered nodes other than the local node; requires the running
    /// state.
    #[verifier::spinoff_prover]
    pub fn get_connected_nodes(&self) -> (r: Result<Vec<String>, NetworkError>)
        requires
            self.wf(),
        ensures
            !self.is_running ==> r matches Err(NetworkError::ConfigError(_)),
            self.is_running ==> (r matches Ok(nodes) && self.connected_nodes_ok(nodes@)),
    {
        if !self.is_running {
            return Err(NetworkError::ConfigError("service not started".to_owned()));
        }
        let local: &String = match &self.local_node_id {
            Some(id) => id,
            None => {
                proof {
                    assert(false);
                }
                return Err(NetworkError::ConfigError("service not started".to_owned()));
            },
        };
        let n = self.registry.entries.len();
        let mut nodes: Vec<String> = Vec::new();
        let mut i: usize = 0;
        let ghost mut seen_local: bool = false;
        while i < n
            invariant
                self.wf(),
                self.is_running,
                n == self.registry.entries@.len(),
                0 <= i <= n,
                local@ == self.spec_local_id(),
                seen_local <==> exists|k: int|
                    0 <= k < i && #[trigger] self.registry.entries@[k].node_id@
                        == self.spec_local_id(),
                nodes@.len() == if seen_local {
                    i - 1
                } else {
                    i as int
                },
                forall|j: int|
                    0 <= j < nodes@.len() ==> #[trigger] nodes@[j]@ != self.spec_local_id()
                        && self.registry.spec_contains(nodes@[j]@),
                forall|k: int|
                    0 <= k < i && #[trigger] self.registry.entries@[k].node_id@
                        != self.spec_local_id() ==> exists|j: int|
                        0 <= j < nodes@.len() && #[trigger] nodes@[j]@
                            == self.registry.entries@[k].node_id@,
            decreases n - i,
        {
            let entry = &self.registry.entries[i];
            if entry.node_id == *local {
                proof {
                    if seen_local {
                        let k = choose|k: int|
                            0 <= k < i && self.registry.entries@[k].node_id@
                                == self.spec_local_id();
                        assert(self.registry.entries@[k].node_id@ != self.registry.entries@[
                            i as int].node_id@);
                    }
                    seen_local = true;
                    assert(self.registry.entries@[i as int].node_id@ == self.spec_local_id());
                }
            } else {
                let ghost prev = nodes@;
                nodes.push(entry.node_id.clone());
                proof {
                    assert(nodes@[prev.len() as int]@ == self.registry.entries@[i as int].node_id@);
                    crate::registry::lemma_reg_lookup_at(self.registry.entries@, i as int);
                    assert forall|k: int|
                        0 <= k < i + 1 && #[trigger] self.registry.entries@[k].node_id@
                            != self.spec_local_id() implies exists|j: int|
                        0 <= j < nodes@.len() && #[trigger] nodes@[j]@
                            == self.registry.entries@[k].node_id@ by {
                        if k < i {
                            let j = choose|j: int|
                                0 <= j < prev.len() && prev[j]@
                                    == self.registry.entries@[k].node_id@;
                            assert(nodes@[j]@ == self.registry.entries@[k].node_id@);
                        } else {
                            assert(nodes@[prev.len() as int]@ == self.registry.entries@[
                                k].node_id@);
                        }
                    }
                }
            }
            i += 1;
        }
        proof {
            assert(self.registry.spec_contains(self.spec_local_id()));
            let w = choose|w: int|
                0 <= w < self.registry.entries@.len() && self.registry.entries@[w].node_id@
                    == self.spec_local_id();
            assert(self.registry.entries@[w].node_id@ == self.spec_local_id());
            assert(seen_local);
            assert forall|k: Seq<char>|
                self.registry.spec_contains(k) && k != self.spec_local_id() implies exists|j: int|
                0 <= j < nodes@.len() && #[trigger] nodes@[j]@ == k by {
                let u = choose|u: int|
                    0 <= u < self.registry.entries@.len() && self.registry.entries@[u].node_id@
                        == k;
                assert(self.registry.entries@[u].node_id@ != self.spec_local_id());
                let j = choose|j: int|
                    0 <= j < nodes@.len() && nodes@[j]@ == self.registry.entries@[u].node_id@;
                assert(nodes@[j]@ == k);
            }
            assert(self.connected_nodes_ok(nodes@));
        }
        Ok(nodes)
    }

    /// The node id derived at start time; requires the running state.
    pub fn get_local_node_id(&self) -> (r: Result<String, NetworkError>)
        ensures
            match r {
                Ok(id) => self.local_node_id matches Some(l) && id@ == l@,
                Err(e) => self.local_node_id is None && e matches NetworkError::ConfigError(_),
            },
    {
        match &self.local_node_id {
            Some(id) => Ok(id.clone()),
            None => Err(NetworkError::ConfigError("service not started".to_owned())),
        }
    }

    /// Whether the service is running.
    pub fn is_running(&self) -> (r: bool)
        ensures
            r == self.is_running,
    {
        self.is_running
    }

    /// A copy of the stored configuration, if one was set.
    pub fn get_config(&self) -> (r: Option<NetworkServiceConfig>)
        ensures
            r == self.config,
    {
        match &self.config {
            Some(c) => Some(c.duplicate()),
            None => None,
        }
    }

    /// Stores a configuration.
    pub fn set_config(&mut self, config: NetworkServiceConfig)
        requires
            old(self).wf(),
        ensures
            final(self).wf(),
            final(self).config == Some(config),
            final(self).is_running == old(self).is_running,
            final(self).local_node_id == old(self).local_node_id,
            final(self).registry == old(self).registry,
            final(self).handlers == old(self).handlers,
            final(self).event_bus == old(self).event_bus,
            final(self).known_servers == old(self).known_servers,
    {
        self.config = Some(config);
    }

    /// The event bus the service publishes on.
    pub fn event_bus(&self) -> (r: &EventBus)
        ensures
            *r == self.event_bus,
    {
        &self.event_bus
    }
}

/// Folds the transport's answer to a planned unicast into the caller's
/// result: a completed call yields the message id, a transport failure is
/// the caller's failure, reported as a send error carrying the transport's
/// message.
pub fn complete_unicast(message_id: MessageId, transport_error: Option<String>) -> (r: Result<
    MessageId,
    NetworkError,
>)
    ensures
        match transport_error {
            None => r == Ok::<MessageId, NetworkError>(message_id),
            Some(e) => r == Err::<MessageId, NetworkError>(NetworkError::SendError(e)),
        },
{
    match transport_error {
        None => Ok(message_id),
        Some(e) => Err(NetworkError::SendError(e)),
    }
}

} // verus!
