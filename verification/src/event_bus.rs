//! The event bus: best-effort publish/subscribe distribution of lifecycle
//! and delivery events, decoupled from message delivery itself.
//!
//! Subscribers each own a bounded backlog; a slow subscriber drops its
//! oldest unread event rather than blocking the publisher. Named handlers
//! are an upsert table; `publish` hands back the tokens of all registered
//! handlers so the surrounding shell can invoke each on its own task.
//! Publishing never fails the caller.

use crate::message::{message_eq, NetworkMessage};
use crate::table::TokenTable;
use crate::MessageId;
use vstd::prelude::*;

verus! {

/// A lifecycle or delivery event. Ephemeral: only broadcast to subscribers,
/// never persisted.
#[derive(Debug)]
pub enum NetworkEvent {
    /// A peer connected.
    NodeConnected { node_id: String, metadata: Vec<(String, String)> },
    /// A peer disconnected.
    NodeDisconnected { node_id: String, reason: String },
    /// An envelope arrived from a peer.
    MessageReceived { from: String, message: NetworkMessage },
    /// An envelope was delivered to a peer.
    MessageSent { to: String, message_id: MessageId },
    /// Delivery of an envelope to a peer failed.
    MessageSendFailed { to: String, message_id: MessageId, error: String },
    /// The service entered its running state.
    ServiceStarted,
    /// The service left its running state.
    ServiceStopped,
    /// A handler or internal step failed.
    Error { error: String },
}

/// Whether two events carry the same content. Carried envelopes and
/// metadata lists are compared by content.
pub open spec fn event_eq(a: NetworkEvent, b: NetworkEvent) -> bool {
    match (a, b) {
        (
            NetworkEvent::NodeConnected { node_id: n1, metadata: m1 },
            NetworkEvent::NodeConnected { node_id: n2, metadata: m2 },
        ) => n1 == n2 && m1@ == m2@,
        (
            NetworkEvent::NodeDisconnected { node_id: n1, reason: r1 },
            NetworkEvent::NodeDisconnected { node_id: n2, reason: r2 },
        ) => n1 == n2 && r1 == r2,
        (
            NetworkEvent::MessageReceived { from: f1, message: g1 },
            NetworkEvent::MessageReceived { from: f2, message: g2 },
        ) => f1 == f2 && message_eq(g1, g2),
        (
            NetworkEvent::MessageSent { to: t1, message_id: i1 },
            NetworkEvent::MessageSent { to: t2, message_id: i2 },
        ) => t1 == t2 && i1 == i2,
        (
            NetworkEvent::MessageSendFailed { to: t1, message_id: i1, error: e1 },
            NetworkEvent::MessageSendFailed { to: t2, message_id: i2, error: e2 },
        ) => t1 == t2 && i1 == i2 && e1 == e2,
        (NetworkEvent::ServiceStarted, NetworkEvent::ServiceStarted) => true,
        (NetworkEvent::ServiceStopped, NetworkEvent::ServiceStopped) => true,
        (NetworkEvent::Error { error: e1 }, NetworkEvent::Error { error: e2 }) => e1 == e2,
        _ => false,
    }
}

/// Whether `e` is a received-message event carrying `from` and a message
/// equal in content to `message`.
pub open spec fn is_received_event(e: NetworkEvent, from: String, message: NetworkMessage) -> bool {
    match e {
        NetworkEvent::MessageReceived { from: f, message: m } => f == from && message_eq(
            m,
            message,
        ),
        _ => false,
    }
}

/// Whether `e` is an error event carrying `error`.
pub open spec fn is_error_event(e: NetworkEvent, error: String) -> bool {
    match e {
        NetworkEvent::Error { error: msg } => msg == error,
        _ => false,
    }
}

impl NetworkEvent {
    /// A copy of the event, equal in content to the original.
    pub fn duplicate(&self) -> (r: Self)
        ensures
            event_eq(r, *self),
    {
        match self {
            NetworkEvent::NodeConnected { node_id, metadata } => NetworkEvent::NodeConnected {
                node_id: node_id.clone(),
                metadata: crate::message::clone_string_pairs(metadata),
            },
            NetworkEvent::NodeDisconnected { node_id, reason } => NetworkEvent::NodeDisconnected {
                node_id: node_id.clone(),
                reason: reason.clone(),
            },
            NetworkEvent::MessageReceived { from, message } => NetworkEvent::MessageReceived {
                from: from.clone(),
                message: message.duplicate(),
            },
            NetworkEvent::MessageSent { to, message_id } => NetworkEvent::MessageSent {
                to: to.clone(),
                message_id: *message_id,
            },
            NetworkEvent::MessageSendFailed { to, message_id, error } => {
                NetworkEvent::MessageSendFailed {
                    to: to.clone(),
                    message_id: *message_id,
                    error: error.clone(),
                }
            },
            NetworkEvent::ServiceStarted => NetworkEvent::ServiceStarted,
            NetworkEvent::ServiceStopped => NetworkEvent::ServiceStopped,
            NetworkEvent::Error { error } => NetworkEvent::Error { error: error.clone() },
        }
    }
}

/// Every subscriber backlog of `before` took `e`, per the bounded-backlog
/// rule, yielding the backlogs of `after`.
pub open spec fn all_backlogs_took(before: EventBus, after: EventBus, e: NetworkEvent) -> bool {
    forall|i: int|
        #![trigger after.subscribers@[i].backlog@]
        0 <= i < before.subscribers@.len() ==> before.backlog_after(
            before.subscribers@[i].backlog@,
            after.subscribers@[i].backlog@,
            e,
        )
}

/// Publishing a received-message event: some event carrying `from` and a
/// message equal in content to `message` went to every subscriber backlog.
pub open spec fn received_published(
    before: EventBus,
    after: EventBus,
    from: String,
    message: NetworkMessage,
) -> bool {
    &&& after.subscribers@.len() == before.subscribers@.len()
    &&& exists|e: NetworkEvent|
        #[trigger] all_backlogs_took(before, after, e) && is_received_event(e, from, message)
}

/// Publishing an error event: some event carrying `error` went to every
/// subscriber backlog.
pub open spec fn error_published(before: EventBus, after: EventBus, error: String) -> bool {
    &&& after.subscribers@.len() == before.subscribers@.len()
    &&& exists|e: NetworkEvent|
        #[trigger] all_backlogs_took(before, after, e) && is_error_event(e, error)
}

/// One subscriber's backlog of undelivered events.
#[derive(Debug)]
pub struct Subscriber {
    /// Events published since the last read, oldest first.
    pub backlog: Vec<NetworkEvent>,
    /// How many events this subscriber lost by falling behind.
    pub lagged: u64,
}

/// The publish/subscribe hub.
#[derive(Debug)]
pub struct EventBus {
    /// Bound on each subscriber's backlog.
    pub capacity: usize,
    /// Named handlers; the last registration under a name wins.
    pub handlers: TokenTable,
    /// Independent subscriber backlogs.
    pub subscribers: Vec<Subscriber>,
}

impl EventBus {
    /// The capacity is positive, handler names are unique and no backlog
    /// exceeds the capacity.
    pub open spec fn wf(&self) -> bool {
        &&& self.capacity >= 1
        &&& self.handlers.wf()
        &&& forall|i: int|
            0 <= i < self.subscribers@.len() ==> #[trigger] self.subscribers@[i].backlog@.len()
                <= self.capacity
    }

    /// How one subscriber's backlog looks after an event is published:
    /// the event is appended, and if the backlog was full its oldest entry
    /// is dropped.
    pub open spec fn backlog_after(
        &self,
        before: Seq<NetworkEvent>,
        after: Seq<NetworkEvent>,
        event: NetworkEvent,
    ) -> bool {
        if before.len() < self.capacity {
            after.len() == before.len() + 1 && after.subrange(0, before.len() as int) == before
                && event_eq(after.last(), event)
        } else {
            after.len() == before.len() && after.subrange(0, before.len() - 1) == before.subrange(
                1,
                before.len() as int,
            ) && event_eq(after.last(), event)
        }
    }

    /// Creates a bus whose subscribers each buffer up to `capacity` events.
    pub fn new(capacity: usize) -> (r: Self)
        requires
            capacity >= 1,
        ensures
            r.wf(),
            r.capacity == capacity,
            r.handlers.entries@.len() == 0,
            r.subscribers@.len() == 0,
    {
        EventBus { capacity, handlers: TokenTable::new(), subscribers: Vec::new() }
    }

    /// Publishes an event. Never fails: every subscriber's backlog takes
    /// the event (dropping its oldest entry if full), and the tokens of all
    /// registered handlers are returned for the shell to invoke, each on
    /// its own task. With no subscribers and no handlers this is a no-op
    /// that still succeeds.
    pub fn publish(&mut self, event: NetworkEvent) -> (handler_tokens: Vec<u64>)
        requires
            old(self).wf(),
        ensures
            final(self).wf(),
            final(self).capacity == old(self).capacity,
            final(self).handlers == old(self).handlers,
            handler_tokens@.len() == old(self).handlers.entries@.len(),
            forall|k: int|
                0 <= k < handler_tokens@.len() ==> handler_tokens@[k] == old(self).handlers.entries@[k].token,
            final(self).subscribers@.len() == old(self).subscribers@.len(),
            forall|i: int|
                0 <= i < old(self).subscribers@.len() ==> old(self).backlog_after(
                    old(self).subscribers@[i].backlog@,
                    #[trigger] final(self).subscribers@[i].backlog@,
                    event,
                ),
            forall|i: int|
                0 <= i < old(self).subscribers@.len() ==> final(self).subscribers@[i].lagged == if
                old(self).subscribers@[i].backlog@.len() < old(self).capacity {
                    old(self).subscribers@[i].lagged
                } else if old(self).subscribers@[i].lagged == u64::MAX {
                    u64::MAX as u64
                } else {
                    (old(self).subscribers@[i].lagged + 1) as u64
                },
    {
        let n = self.subscribers.len();
        let mut i: usize = 0;
        while i < n
            invariant
                n == self.subscribers@.len(),
                0 <= i <= n,
                old(self).wf(),
                self.capacity == old(self).capacity,
                self.handlers == old(self).handlers,
                self.subscribers@.len() == old(self).subscribers@.len(),
                forall|k: int| i <= k < n ==> self.subscribers@[k] == old(self).subscribers@[k],
                forall|k: int|
                    0 <= k < i ==> old(self).backlog_after(
                        old(self).subscribers@[k].backlog@,
                        #[trigger] self.subscribers@[k].backlog@,
                        event,
                    ),
                forall|k: int|
                    0 <= k < i ==> self.subscribers@[k].lagged == if old(self).subscribers@[k].backlog@.len() < old(self).capacity {
                        old(self).subscribers@[k].lagged
                    } else if old(self).subscribers@[k].lagged == u64::MAX {
                        u64::MAX as u64
                    } else {
                        (old(self).subscribers@[k].lagged + 1) as u64
                    },
                forall|k: int|
                    0 <= k < n ==> #[trigger] self.subscribers@[k].backlog@.len()
                        <= self.capacity,
            decreases n - i,
        {
            let copy = event.duplicate();
            let ghost before = self.subscribers@[i as int].backlog@;
            if self.subscribers[i].backlog.len() >= self.capacity {
                self.subscribers[i].backlog.remove(0);
                if self.subscribers[i].lagged < u64::MAX {
                    self.subscribers[i].lagged = self.subscribers[i].lagged + 1;
                }
                self.subscribers[i].backlog.push(copy);
                proof {
                    let after = self.subscribers@[i as int].backlog@;
                    assert(after.subrange(0, before.len() - 1) =~= before.subrange(
                        1,
                        before.len() as int,
                    ));
                }
            } else {
                self.subscribers[i].backlog.push(copy);
                proof {
                    let after = self.subscribers@[i as int].backlog@;
                    assert(after.subrange(0, before.len() as int) =~= before);
                }
            }
            i += 1;
        }
        self.handlers.tokens()
    }

    /// Registers a handler under its name; the last registration wins.
    pub fn register_handler(&mut self, name: String, handler_token: u64)
        requires
            old(self).wf(),
        ensures
            final(self).wf(),
            final(self).capacity == old(self).capacity,
            final(self).subscribers == old(self).subscribers,
            final(self).handlers.spec_contains(name@),
            final(self).handlers.spec_token(name@) == handler_token,
            forall|k: Seq<char>|
                k != name@ ==> final(self).handlers.spec_contains(k) == old(self).handlers.spec_contains(k),
            forall|k: Seq<char>|
                k != name@ && old(self).handlers.spec_contains(k) ==> final(self).handlers.spec_token(k) == old(self).handlers.spec_token(k),
    {
        self.handlers.insert(name, handler_token);
    }

    /// Removes the handler registered under `name`, if any.
    pub fn unregister_handler(&mut self, name: &String) -> (removed: bool)
        requires
            old(self).wf(),
        ensures
            final(self).wf(),
            final(self).capacity == old(self).capacity,
            final(self).subscribers == old(self).subscribers,
            removed == old(self).handlers.spec_contains(name@),
            !final(self).handlers.spec_contains(name@),
            forall|k: Seq<char>|
                k != name@ ==> final(self).handlers.spec_contains(k) == old(self).handlers.spec_contains(k),
    {
        self.handlers.remove(name)
    }

    /// Adds an independent subscriber with an empty backlog; returns its
    /// index, by which the shell reads events.
    pub fn subscribe(&mut self) -> (subscriber: usize)
        requires
            old(self).wf(),
        ensures
            final(self).wf(),
            final(self).capacity == old(self).capacity,
            final(self).handlers == old(self).handlers,
            subscriber == old(self).subscribers@.len(),
            final(self).subscribers@.len() == old(self).subscribers@.len() + 1,
            forall|k: int|
                0 <= k < old(self).subscribers@.len() ==> final(self).subscribers@[k] == old(self).subscribers@[k],
            final(self).subscribers@.last().backlog@.len() == 0,
            final(self).subscribers@.last().lagged == 0,
    {
        let idx = self.subscribers.len();
        self.subscribers.push(Subscriber { backlog: Vec::new(), lagged: 0 });
        idx
    }

    /// Takes the oldest unread event of one subscriber, if any.
    pub fn next_event(&mut self, subscriber: usize) -> (r: Option<NetworkEvent>)
        requires
            old(self).wf(),
            subscriber < old(self).subscribers@.len(),
        ensures
            final(self).wf(),
            final(self).capacity == old(self).capacity,
            final(self).handlers == old(self).handlers,
            final(self).subscribers@.len() == old(self).subscribers@.len(),
            forall|k: int|
                0 <= k < old(self).subscribers@.len() && k != subscriber ==> final(self).subscribers@[k] == old(self).subscribers@[k],
            final(self).subscribers@[subscriber as int].lagged == old(self).subscribers@[subscriber as int].lagged,
            match r {
                Some(e) => old(self).subscribers@[subscriber as int].backlog@.len() > 0 && e == old(self).subscribers@[subscriber as int].backlog@.first() && final(self).subscribers@[subscriber as int].backlog@ == old(self).subscribers@[subscriber as int].backlog@.drop_first(),
                None => old(self).subscribers@[subscriber as int].backlog@.len() == 0 && final(self).subscribers@[subscriber as int] == old(self).subscribers@[subscriber as int],
            },
    {
        if self.subscribers[subscriber].backlog.len() == 0 {
            None
        } else {
            let e = self.subscribers[subscriber].backlog.remove(0);
            proof {
                assert(self.subscribers@[subscriber as int].backlog@ =~= old(self).subscribers@[subscriber as int].backlog@.drop_first());
            }
            Some(e)
        }
    }

    /// How many named handlers are registered.
    pub fn handler_count(&self) -> (r: usize)
        ensures
            r == self.handlers.entries@.len(),
    {
        self.handlers.len()
    }

    /// How many subscribers exist.
    pub fn subscriber_count(&self) -> (r: usize)
        ensures
            r == self.subscribers@.len(),
    {
        self.subscribers.len()
    }
}

/// A handler that reports every event to the log; it does nothing else, so
/// the bus-facing value is just its registration name.
#[derive(Debug)]
pub struct LogEventHandler {
    pub name: String,
}

impl LogEventHandler {
    /// Creates the handler under its conventional name.
    pub fn new() -> (r: Self)
        ensures
            r.name@ == "log_handler"@,
    {
        LogEventHandler { name: "log_handler".to_owned() }
    }

    /// The name this handler registers under.
    pub fn name(&self) -> (r: &str)
        ensures
            r@ == self.name@,
    {
        self.name.as_str()
    }
}

} // verus!
