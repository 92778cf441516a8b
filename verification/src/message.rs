//! The wire-level envelope and its option types: message-type tags, the
//! network message itself, and broadcast/unicast options.

use crate::chat::ChatMessageType;
use crate::clock::{current_timestamp, fresh_message_id};
use crate::timesync::TimeSyncMessageType;
use crate::MessageId;
use vstd::prelude::*;

verus! {

/// A string-keyed tag used purely for handler dispatch.
#[derive(Debug, Clone)]
pub struct MessageType(pub String);

impl MessageType {
    pub fn new(name: &str) -> (r: Self)
        ensures
            r.0@ == name@,
    {
        MessageType(name.to_owned())
    }

    /// The tag of chat messages.
    pub fn chat() -> (r: Self)
        ensures
            r.0@ == "chat"@,
    {
        MessageType("chat".to_owned())
    }

    /// The tag of time-synchronization messages.
    pub fn timesync() -> (r: Self)
        ensures
            r.0@ == "timesync"@,
    {
        MessageType("timesync".to_owned())
    }

    /// The tag of system messages.
    pub fn system() -> (r: Self)
        ensures
            r.0@ == "system"@,
    {
        MessageType("system".to_owned())
    }
}

impl MessageType {
    /// An exact copy of the tag.
    pub fn duplicate(&self) -> (r: Self)
        ensures
            r == *self,
    {
        MessageType(self.0.clone())
    }
}

impl PartialEq for MessageType {
    fn eq(&self, other: &Self) -> bool {
        self.0 == other.0
    }
}

impl vstd::std_specs::cmp::PartialEqSpecImpl for MessageType {
    open spec fn obeys_eq_spec() -> bool {
        true
    }

    open spec fn eq_spec(&self, other: &Self) -> bool {
        self.0@ == other.0@
    }
}

/// The application-defined body of an envelope. The service layer carries it
/// through untouched; only the handler registered for the envelope's type
/// interprets it.
#[derive(Debug, Clone)]
pub enum Payload {
    /// A chat operation.
    Chat(ChatMessageType),
    /// A time-synchronization operation.
    TimeSync(TimeSyncMessageType),
    /// An uninterpreted application document, already encoded.
    Raw(Vec<u8>),
}

/// Whether two payloads carry the same content. Raw payloads are compared
/// byte for byte.
pub open spec fn payload_eq(a: Payload, b: Payload) -> bool {
    match (a, b) {
        (Payload::Chat(x), Payload::Chat(y)) => x == y,
        (Payload::TimeSync(x), Payload::TimeSync(y)) => x == y,
        (Payload::Raw(x), Payload::Raw(y)) => x@ == y@,
        _ => false,
    }
}

impl Payload {
    /// A copy of the payload, equal in content to the original.
    pub fn duplicate(&self) -> (r: Self)
        ensures
            payload_eq(r, *self),
    {
        match self {
            Payload::Chat(c) => Payload::Chat(c.duplicate()),
            Payload::TimeSync(t) => Payload::TimeSync(*t),
            Payload::Raw(bytes) => Payload::Raw(clone_bytes(bytes)),
        }
    }
}

/// Looks a key up in an association list where the latest entry wins.
pub open spec fn metadata_lookup(md: Seq<(String, String)>, key: Seq<char>) -> Option<Seq<char>>
    decreases md.len(),
{
    if md.len() == 0 {
        None
    } else if md.last().0@ == key {
        Some(md.last().1@)
    } else {
        metadata_lookup(md.drop_last(), key)
    }
}

/// Whether two envelopes carry the same content. Metadata lists are
/// compared entry for entry.
pub open spec fn message_eq(a: NetworkMessage, b: NetworkMessage) -> bool {
    &&& a.id == b.id
    &&& a.message_type == b.message_type
    &&& a.sender == b.sender
    &&& payload_eq(a.payload, b.payload)
    &&& a.timestamp == b.timestamp
    &&& a.metadata@ == b.metadata@
}

/// The wire-level unit exchanged between nodes.
#[derive(Debug, Clone)]
pub struct NetworkMessage {
    /// Unique identifier, assigned at construction and never mutated.
    pub id: MessageId,
    /// Tag deciding which handler receives the message.
    pub message_type: MessageType,
    /// The sending node.
    pub sender: String,
    /// Application-defined body.
    pub payload: Payload,
    /// Seconds since the Unix epoch at construction time.
    pub timestamp: u64,
    /// Auxiliary string map; the latest entry for a key wins.
    pub metadata: Vec<(String, String)>,
}

impl NetworkMessage {
    /// Builds an envelope with a freshly minted random id, stamped with the
    /// current clock reading and carrying no metadata.
    pub fn new(message_type: MessageType, sender: String, payload: Payload) -> (r: Self)
        ensures
            r.message_type == message_type,
            r.sender == sender,
            r.payload == payload,
            r.metadata@.len() == 0,
    {
        NetworkMessage {
            id: fresh_message_id(),
            message_type,
            sender,
            payload,
            timestamp: current_timestamp(),
            metadata: Vec::new(),
        }
    }

    /// Builds an envelope from caller-chosen identity and clock values.
    pub fn new_with_id(
        id: MessageId,
        message_type: MessageType,
        sender: String,
        payload: Payload,
        timestamp: u64,
    ) -> (r: Self)
        ensures
            r == (NetworkMessage {
                id,
                message_type,
                sender,
                payload,
                timestamp,
                metadata: r.metadata,
            }),
            r.metadata@.len() == 0,
    {
        NetworkMessage { id, message_type, sender, payload, timestamp, metadata: Vec::new() }
    }

    /// Appends a metadata entry; the new entry shadows earlier entries with
    /// the same key.
    pub fn with_metadata(self, key: String, value: String) -> (r: Self)
        ensures
            r.metadata@ == self.metadata@.push((key, value)),
            r.id == self.id,
            r.message_type == self.message_type,
            r.sender == self.sender,
            r.payload == self.payload,
            r.timestamp == self.timestamp,
    {
        let mut r = self;
        r.metadata.push((key, value));
        r
    }

    /// A copy of the envelope, equal in content to the original.
    pub fn duplicate(&self) -> (r: Self)
        ensures
            message_eq(r, *self),
    {
        NetworkMessage {
            id: self.id,
            message_type: self.message_type.duplicate(),
            sender: self.sender.clone(),
            payload: self.payload.duplicate(),
            timestamp: self.timestamp,
            metadata: clone_string_pairs(&self.metadata),
        }
    }

    /// Looks a metadata key up; the latest entry for the key wins.
    pub fn get_metadata(&self, key: &str) -> (r: Option<&String>)
        ensures
            match r {
                Some(v) => metadata_lookup(self.metadata@, key@) == Some(v@),
                None => metadata_lookup(self.metadata@, key@) is None,
            },
    {
        let needle: String = key.to_owned();
        let mut i: usize = self.metadata.len();
        proof {
            assert(self.metadata@.take(self.metadata@.len() as int) =~= self.metadata@);
        }
        while i > 0
            invariant
                0 <= i <= self.metadata@.len(),
                needle@ == key@,
                metadata_lookup(self.metadata@, key@) == metadata_lookup(
                    self.metadata@.take(i as int),
                    key@,
                ),
            decreases i,
        {
            i = i - 1;
            proof {
                assert(self.metadata@.take(i + 1).last() == self.metadata@[i as int]);
                assert(self.metadata@.take(i + 1).drop_last() =~= self.metadata@.take(i as int));
            }
            if self.metadata[i].0 == needle {
                proof {
                    assert(self.metadata@[i as int].0@ == key@);
                    assert(metadata_lookup(self.metadata@.take(i as int + 1), key@) == Some(
                        self.metadata@[i as int].1@,
                    ));
                }
                return Some(&self.metadata[i].1);
            }
            proof {
                assert(self.metadata@[i as int].0@ != key@);
                assert(metadata_lookup(self.metadata@.take(i as int + 1), key@)
                    == metadata_lookup(self.metadata@.take(i as int), key@));
            }
        }
        proof {
            assert(self.metadata@.take(0) =~= Seq::<(String, String)>::empty());
        }
        None
    }
}

/// A verified byte-for-byte copy of a byte vector.
fn clone_bytes(v: &Vec<u8>) -> (r: Vec<u8>)
    ensures
        r@ == v@,
{
    let n = v.len();
    let mut out: Vec<u8> = Vec::new();
    let mut i: usize = 0;
    while i < n
        invariant
            n == v@.len(),
            0 <= i <= n,
            out@ == v@.take(i as int),
        decreases n - i,
    {
        out.push(v[i]);
        proof {
            assert(out@ =~= v@.take(i + 1));
        }
        i += 1;
    }
    proof {
        assert(v@.take(n as int) =~= v@);
    }
    out
}

/// A verified entry-for-entry copy of a list of string pairs.
pub(crate) fn clone_string_pairs(v: &Vec<(String, String)>) -> (r: Vec<(String, String)>)
    ensures
        r@ == v@,
{
    let n = v.len();
    let mut out: Vec<(String, String)> = Vec::new();
    let mut i: usize = 0;
    while i < n
        invariant
            n == v@.len(),
            0 <= i <= n,
            out@ == v@.take(i as int),
        decreases n - i,
    {
        out.push((v[i].0.clone(), v[i].1.clone()));
        proof {
            assert(out@ =~= v@.take(i + 1));
        }
        i += 1;
    }
    proof {
        assert(v@.take(n as int) =~= v@);
    }
    out
}

/// Options recognized by `broadcast`.
///
/// `wait_for_response` and `retry_count` are accepted as caller intent but
/// not enforced by the delivery path.
#[derive(Debug, Clone)]
pub struct BroadcastOptions {
    /// Nodes that must not receive this broadcast.
    pub exclude_nodes: Vec<String>,
    pub wait_for_response: bool,
    pub timeout_ms: Option<u64>,
    pub retry_count: u32,
}

impl Default for BroadcastOptions {
    fn default() -> (r: Self)
        ensures
            r.exclude_nodes@.len() == 0,
            r.wait_for_response == false,
            r.timeout_ms == Some(5000u64),
            r.retry_count == 0,
    {
        BroadcastOptions {
            exclude_nodes: Vec::new(),
            wait_for_response: false,
            timeout_ms: Some(5000),
            retry_count: 0,
        }
    }
}

/// Options recognized by `unicast`.
///
/// `wait_for_response` and `retry_count` are accepted as caller intent but
/// not enforced by the delivery path.
#[derive(Debug, Clone)]
pub struct UnicastOptions {
    pub wait_for_response: bool,
    pub timeout_ms: Option<u64>,
    pub retry_count: u32,
}

impl Default for UnicastOptions {
    fn default() -> (r: Self)
        ensures
            r.wait_for_response == false,
            r.timeout_ms == Some(5000u64),
            r.retry_count == 0,
    {
        UnicastOptions { wait_for_response: false, timeout_ms: Some(5000), retry_count: 0 }
    }
}

/// The body of a chat envelope.
#[derive(Debug, Clone)]
pub struct ChatPayload {
    pub content: String,
    pub chat_type: ChatType,
}

/// The kind of content a chat payload carries.
#[derive(Debug, Clone, PartialEq, Eq, Structural)]
pub enum ChatType {
    Text,
    Image,
    File,
}

/// The body of a time-synchronization envelope.
#[derive(Debug, Clone, PartialEq, Eq, Structural)]
pub struct TimeSyncPayload {
    pub request_type: TimeSyncRequestType,
    pub timestamp: Option<u64>,
}

/// The kind of time-synchronization query.
#[derive(Debug, Clone, PartialEq, Eq, Structural)]
pub enum TimeSyncRequestType {
    GetTime,
    SyncTime { timestamp: u64 },
}

/// A read-only snapshot of a service's health.
#[derive(Debug, Clone, Copy)]
pub struct ServiceHealth {
    pub is_running: bool,
    pub connected_nodes: usize,
    pub total_messages_sent: u64,
    pub total_messages_received: u64,
    /// Seconds since the Unix epoch of the last observed activity.
    pub last_activity: Option<u64>,
}

/// Aggregate transfer counters of a service.
#[derive(Debug, Clone, Copy)]
pub struct NetworkStats {
    pub bytes_sent: u64,
    pub bytes_received: u64,
    pub messages_sent: u64,
    pub messages_received: u64,
    pub connection_count: usize,
    pub error_count: u64,
}

} // verus!
