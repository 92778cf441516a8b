//! Chat-flavored data types: the chat message variants exchanged between
//! nodes, request/response wrappers, and chat-room bookkeeping.

use crate::clock::current_timestamp;
use vstd::prelude::*;
use vstd::string::StringExecFns;

verus! {

/// A chat message as displayed to users.
#[derive(Debug, Clone)]
pub enum ChatMessage {
    /// A user's text message.
    Text { sender: String, content: String, timestamp: u64 },
    /// A user joined the chat room.
    UserJoined { username: String, timestamp: u64 },
    /// A user left the chat room.
    UserLeft { username: String, timestamp: u64 },
    /// A liveness heartbeat.
    Heartbeat { timestamp: u64 },
}

impl ChatMessage {
    /// Builds a text message stamped with the current clock reading.
    pub fn new_text(sender: String, content: String) -> (r: Self)
        ensures
            r matches ChatMessage::Text { sender: s, content: c, timestamp: _ }
                && s == sender && c == content,
    {
        ChatMessage::Text { sender, content, timestamp: current_timestamp() }
    }

    /// Builds a user-joined notice stamped with the current clock reading.
    pub fn new_user_joined(username: String) -> (r: Self)
        ensures
            r matches ChatMessage::UserJoined { username: u, timestamp: _ } && u == username,
    {
        ChatMessage::UserJoined { username, timestamp: current_timestamp() }
    }

    /// Builds a user-left notice stamped with the current clock reading.
    pub fn new_user_left(username: String) -> (r: Self)
        ensures
            r matches ChatMessage::UserLeft { username: u, timestamp: _ } && u == username,
    {
        ChatMessage::UserLeft { username, timestamp: current_timestamp() }
    }

    /// Builds a heartbeat stamped with the current clock reading.
    pub fn new_heartbeat() -> (r: Self)
        ensures
            r is Heartbeat,
    {
        ChatMessage::Heartbeat { timestamp: current_timestamp() }
    }

    /// The originating user, if the variant names one.
    pub fn sender(&self) -> (r: Option<&str>)
        ensures
            match *self {
                ChatMessage::Text { sender, .. } => r matches Some(s) && s@ == sender@,
                ChatMessage::UserJoined { username, .. } => r matches Some(s) && s@ == username@,
                ChatMessage::UserLeft { username, .. } => r matches Some(s) && s@ == username@,
                ChatMessage::Heartbeat { .. } => r is None,
            },
    {
        match self {
            ChatMessage::Text { sender, .. } => Some(sender.as_str()),
            ChatMessage::UserJoined { username, .. } => Some(username.as_str()),
            ChatMessage::UserLeft { username, .. } => Some(username.as_str()),
            ChatMessage::Heartbeat { .. } => None,
        }
    }

    /// The moment the message was created.
    pub fn timestamp(&self) -> (r: u64)
        ensures
            r == self.spec_timestamp(),
    {
        match self {
            ChatMessage::Text { timestamp, .. } => *timestamp,
            ChatMessage::UserJoined { timestamp, .. } => *timestamp,
            ChatMessage::UserLeft { timestamp, .. } => *timestamp,
            ChatMessage::Heartbeat { timestamp } => *timestamp,
        }
    }

    /// The timestamp carried by any variant.
    pub open spec fn spec_timestamp(&self) -> u64 {
        match *self {
            ChatMessage::Text { timestamp, .. } => timestamp,
            ChatMessage::UserJoined { timestamp, .. } => timestamp,
            ChatMessage::UserLeft { timestamp, .. } => timestamp,
            ChatMessage::Heartbeat { timestamp } => timestamp,
        }
    }

    /// The line shown for this message in a chat transcript.
    pub open spec fn spec_display(&self) -> Seq<char> {
        match *self {
            ChatMessage::Text { sender, content, .. } =>
                "["@ + sender@ + "]: "@ + content@,
            ChatMessage::UserJoined { username, .. } =>
                "*** "@ + username@ + " joined the chat room ***"@,
            ChatMessage::UserLeft { username, .. } =>
                "*** "@ + username@ + " left the chat room ***"@,
            ChatMessage::Heartbeat { .. } => "*** heartbeat ***"@,
        }
    }

    /// Renders the message for display.
    pub fn format_for_display(&self) -> (r: String)
        ensures
            r@ == self.spec_display(),
    {
        match self {
            ChatMessage::Text { sender, content, .. } => {
                let mut line = String::new();
                line.append("[");
                line.append(sender.as_str());
                line.append("]: ");
                line.append(content.as_str());
                line
            },
            ChatMessage::UserJoined { username, .. } => {
                let mut line = String::new();
                line.append("*** ");
                line.append(username.as_str());
                line.append(" joined the chat room ***");
                line
            },
            ChatMessage::UserLeft { username, .. } => {
                let mut line = String::new();
                line.append("*** ");
                line.append(username.as_str());
                line.append(" left the chat room ***");
                line
            },
            ChatMessage::Heartbeat { .. } => {
                let mut line = String::new();
                line.append("*** heartbeat ***");
                line
            },
        }
    }
}

/// A chat call carried over the wire.
#[derive(Debug, Clone)]
pub struct ChatRequest {
    pub message: ChatMessage,
}

/// The reply to a chat call.
#[derive(Debug, Clone)]
pub struct ChatResponse {
    pub success: bool,
    pub error_msg: Option<String>,
}

impl ChatResponse {
    pub fn success() -> (r: Self)
        ensures
            r.success == true,
            r.error_msg is None,
    {
        ChatResponse { success: true, error_msg: None }
    }

    pub fn error(msg: String) -> (r: Self)
        ensures
            r.success == false,
            r.error_msg == Some(msg),
    {
        ChatResponse { success: false, error_msg: Some(msg) }
    }
}

/// Chat operations addressed to the chat handler, keyed by variant.
#[derive(Debug, Clone)]
pub enum ChatMessageType {
    /// A user joins a chat room.
    UserJoin { username: String, room_id: String },
    /// A user leaves a chat room.
    UserLeave { username: String, room_id: String },
    /// A text message for every member of a room.
    TextMessage { room_id: String, content: String },
    /// A message for a single user.
    PrivateMessage { target_user: String, content: String },
    /// A request for the list of rooms.
    ListRooms,
    /// A request for the member list of one room.
    ListRoomMembers { room_id: String },
}

impl ChatMessageType {
    /// An exact copy of the value.
    pub fn duplicate(&self) -> (r: Self)
        ensures
            r == *self,
    {
        match self {
            ChatMessageType::UserJoin { username, room_id } => ChatMessageType::UserJoin {
                username: username.clone(),
                room_id: room_id.clone(),
            },
            ChatMessageType::UserLeave { username, room_id } => ChatMessageType::UserLeave {
                username: username.clone(),
                room_id: room_id.clone(),
            },
            ChatMessageType::TextMessage { room_id, content } => ChatMessageType::TextMessage {
                room_id: room_id.clone(),
                content: content.clone(),
            },
            ChatMessageType::PrivateMessage { target_user, content } => {
                ChatMessageType::PrivateMessage {
                    target_user: target_user.clone(),
                    content: content.clone(),
                }
            },
            ChatMessageType::ListRooms => ChatMessageType::ListRooms,
            ChatMessageType::ListRoomMembers { room_id } => ChatMessageType::ListRoomMembers {
                room_id: room_id.clone(),
            },
        }
    }
}

/// A chat room: its identity, members and message counter.
///
/// Member ids are kept without duplicates; `wf` states that invariant and
/// every mutating method preserves it.
#[derive(Debug, Clone)]
pub struct ChatRoom {
    pub room_id: String,
    pub room_name: String,
    pub members: Vec<String>,
    pub created_at: u64,
    pub message_count: u64,
}

impl ChatRoom {
    /// The member list holds no id twice.
    pub open spec fn wf(&self) -> bool {
        forall|i: int, j: int|
            0 <= i < j < self.members@.len() ==> self.members@[i]@ != self.members@[j]@
    }

    /// Whether `user` is a member, as a set-style predicate.
    pub open spec fn spec_has_member(&self, user: Seq<char>) -> bool {
        exists|i: int| 0 <= i < self.members@.len() && self.members@[i]@ == user
    }

    /// Creates an empty room stamped with the current clock reading.
    pub fn new(room_id: String, room_name: String) -> (r: Self)
        ensures
            r.room_id == room_id,
            r.room_name == room_name,
            r.members@.len() == 0,
            r.message_count == 0,
            r.wf(),
    {
        ChatRoom {
            room_id,
            room_name,
            members: Vec::new(),
            created_at: current_timestamp(),
            message_count: 0,
        }
    }

    /// The index of `user_id` in the member list, if present.
    fn find_member(&self, user_id: &String) -> (r: Option<usize>)
        ensures
            match r {
                Some(i) => i < self.members@.len() && self.members@[i as int]@ == user_id@
                    && forall|k: int| 0 <= k < i ==> self.members@[k]@ != user_id@,
                None => !self.spec_has_member(user_id@),
            },
    {
        let n = self.members.len();
        let mut i: usize = 0;
        while i < n
            invariant
                n == self.members@.len(),
                0 <= i <= n,
                forall|k: int| 0 <= k < i ==> self.members@[k]@ != user_id@,
            decreases n - i,
        {
            if self.members[i] == *user_id {
                return Some(i);
            }
            i += 1;
        }
        None
    }

    /// Whether `user_id` is a member of the room.
    pub fn has_member(&self, user_id: &String) -> (r: bool)
        ensures
            r == self.spec_has_member(user_id@),
    {
        match self.find_member(user_id) {
            Some(_) => true,
            None => false,
        }
    }

    /// Adds a member; returns whether the member was newly added.
    pub fn add_member(&mut self, user_id: String) -> (added: bool)
        requires
            old(self).wf(),
        ensures
            final(self).wf(),
            added == !old(self).spec_has_member(user_id@),
            added ==> final(self).members@ == old(self).members@.push(user_id),
            !added ==> final(self).members@ == old(self).members@,
            final(self).spec_has_member(user_id@),
            final(self).room_id == old(self).room_id,
            final(self).room_name == old(self).room_name,
            final(self).created_at == old(self).created_at,
            final(self).message_count == old(self).message_count,
    {
        if self.has_member(&user_id) {
            false
        } else {
            let ghost n = self.members@.len();
            let ghost uid = user_id@;
            self.members.push(user_id);
            proof {
                assert(self.members@[n as int]@ == uid);
            }
            true
        }
    }

    /// Removes a member; returns whether the member was present.
    pub fn remove_member(&mut self, user_id: &String) -> (removed: bool)
        requires
            old(self).wf(),
        ensures
            final(self).wf(),
            removed == old(self).spec_has_member(user_id@),
            !final(self).spec_has_member(user_id@),
            forall|u: Seq<char>|
                u != user_id@ ==> final(self).spec_has_member(u) == old(self).spec_has_member(u),
            removed ==> final(self).members@.len() == old(self).members@.len() - 1,
            !removed ==> final(self).members@ == old(self).members@,
            final(self).room_id == old(self).room_id,
            final(self).room_name == old(self).room_name,
            final(self).created_at == old(self).created_at,
            final(self).message_count == old(self).message_count,
    {
        match self.find_member(user_id) {
            None => false,
            Some(i) => {
                self.members.remove(i);
                proof {
                    let before = old(self).members@;
                    let after = self.members@;
                    before.remove_ensures(i as int);
                    assert forall|k: int| 0 <= k < after.len() implies after[k]@ != user_id@ by {
                        if k < i {
                            assert(after[k] == before[k]);
                        } else {
                            assert(after[k] == before[k + 1]);
                            assert(before[i as int]@ == user_id@);
                        }
                    }
                    assert forall|u: Seq<char>|
                        u != user_id@ implies self.spec_has_member(u) == old(
                        self,
                    ).spec_has_member(u) by {
                        if old(self).spec_has_member(u) {
                            let k = choose|k: int| 0 <= k < before.len() && before[k]@ == u;
                            if k < i {
                                assert(after[k] == before[k]);
                                assert(after[k]@ == u);
                            } else if k == i {
                                assert(false);
                            } else {
                                assert(after[k - 1] == before[k]);
                                assert(after[k - 1]@ == u);
                            }
                        }
                        if self.spec_has_member(u) {
                            let k = choose|k: int| 0 <= k < after.len() && after[k]@ == u;
                            if k < i {
                                assert(before[k]@ == u);
                            } else {
                                assert(after[k] == before[k + 1]);
                                assert(before[k + 1]@ == u);
                            }
                        }
                    }
                    assert forall|a: int, b: int|
                        0 <= a < b < after.len() implies after[a]@ != after[b]@ by {
                        let oa: int = if a < i { a } else { a + 1 };
                        let ob: int = if b < i { b } else { b + 1 };
                        assert(after[a] == before[oa]);
                        assert(after[b] == before[ob]);
                    }
                }
                true
            },
        }
    }

    /// Counts one more message delivered to the room; the counter sticks at
    /// its maximum rather than wrapping.
    pub fn increment_message_count(&mut self)
        ensures
            final(self).message_count == if old(self).message_count == u64::MAX {
                u64::MAX as u64
            } else {
                (old(self).message_count + 1) as u64
            },
            final(self).room_id == old(self).room_id,
            final(self).room_name == old(self).room_name,
            final(self).members == old(self).members,
            final(self).created_at == old(self).created_at,
            final(self).wf() == old(self).wf(),
    {
        if self.message_count < u64::MAX {
            self.message_count = self.message_count + 1;
        }
    }
}

} // verus!
