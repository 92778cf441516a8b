use netsync::chat::{ChatMessage, ChatResponse, ChatRoom};
use netsync::message::{
    BroadcastOptions, MessageType, NetworkMessage, Payload, UnicastOptions,
};

#[test]
fn test_message_creation() {
    let msg = ChatMessage::new_text("Alice".to_string(), "Hello World".to_string());
    assert_eq!(msg.sender(), Some("Alice"));

    let join_msg = ChatMessage::new_user_joined("Bob".to_string());
    assert_eq!(join_msg.sender(), Some("Bob"));
}

#[test]
fn test_message_formatting() {
    let msg = ChatMessage::new_text("Alice".to_string(), "Hello".to_string());
    let formatted = msg.format_for_display();
    assert!(formatted.contains("Alice"));
    assert!(formatted.contains("Hello"));
}

#[test]
fn test_text_message_display_is_exact() {
    let msg = ChatMessage::new_text("Alice".to_string(), "Hello".to_string());
    assert_eq!(msg.format_for_display(), "[Alice]: Hello");
    let left = ChatMessage::new_user_left("Bob".to_string());
    assert_eq!(left.format_for_display(), "*** Bob left the chat room ***");
    let hb = ChatMessage::new_heartbeat();
    assert_eq!(hb.format_for_display(), "*** heartbeat ***");
    assert_eq!(hb.sender(), None);
}

#[test]
fn test_message_type_constructors() {
    assert_eq!(MessageType::chat(), MessageType::new("chat"));
    assert_eq!(MessageType::timesync(), MessageType::new("timesync"));
    assert_eq!(MessageType::system(), MessageType::new("system"));
    assert!(MessageType::chat() != MessageType::system());
    assert_eq!(MessageType::new("custom").0, "custom");
}

#[test]
fn test_envelope_metadata_last_entry_wins() {
    let msg = NetworkMessage::new(
        MessageType::chat(),
        "node-a".to_string(),
        Payload::Raw(vec![1, 2, 3]),
    )
    .with_metadata("k".to_string(), "first".to_string())
    .with_metadata("other".to_string(), "x".to_string())
    .with_metadata("k".to_string(), "second".to_string());

    assert_eq!(msg.get_metadata("k"), Some(&"second".to_string()));
    assert_eq!(msg.get_metadata("other"), Some(&"x".to_string()));
    assert_eq!(msg.get_metadata("absent"), None);
    assert_eq!(msg.sender, "node-a");
}

#[test]
fn test_broadcast_options_default() {
    let o = BroadcastOptions::default();
    assert!(o.exclude_nodes.is_empty());
    assert!(!o.wait_for_response);
    assert_eq!(o.timeout_ms, Some(5000));
    assert_eq!(o.retry_count, 0);
}

#[test]
fn test_unicast_options_default() {
    let o = UnicastOptions::default();
    assert!(!o.wait_for_response);
    assert_eq!(o.timeout_ms, Some(5000));
    assert_eq!(o.retry_count, 0);
}

#[test]
fn test_chat_response_constructors() {
    let ok = ChatResponse::success();
    assert!(ok.success);
    assert_eq!(ok.error_msg, None);
    let err = ChatResponse::error("bad".to_string());
    assert!(!err.success);
    assert_eq!(err.error_msg, Some("bad".to_string()));
}

#[test]
fn test_chat_room_membership() {
    let mut room = ChatRoom::new("general".to_string(), "General".to_string());
    assert_eq!(room.message_count, 0);
    assert!(!room.has_member(&"alice".to_string()));
    assert!(room.add_member("alice".to_string()));
    assert!(room.has_member(&"alice".to_string()));
    assert!(!room.add_member("alice".to_string()));
    assert!(room.add_member("bob".to_string()));
    assert_eq!(room.members.len(), 2);
    assert!(room.remove_member(&"alice".to_string()));
    assert!(!room.remove_member(&"alice".to_string()));
    assert!(!room.has_member(&"alice".to_string()));
    assert!(room.has_member(&"bob".to_string()));
    room.increment_message_count();
    room.increment_message_count();
    assert_eq!(room.message_count, 2);
}

#[test]
fn test_message_duplicate_preserves_content() {
    let msg = NetworkMessage::new(
        MessageType::system(),
        "node-a".to_string(),
        Payload::Raw(vec![9, 8, 7]),
    )
    .with_metadata("k".to_string(), "v".to_string());
    let copy = msg.duplicate();
    assert_eq!(copy.id, msg.id);
    assert_eq!(copy.sender, msg.sender);
    assert_eq!(copy.timestamp, msg.timestamp);
    assert_eq!(copy.message_type, msg.message_type);
    assert_eq!(copy.get_metadata("k"), Some(&"v".to_string()));
    match copy.payload {
        Payload::Raw(bytes) => assert_eq!(bytes, vec![9, 8, 7]),
        _ => panic!("payload variant changed"),
    }
}
