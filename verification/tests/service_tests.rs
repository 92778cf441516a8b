use netsync::errors::NetworkError;
use netsync::event_bus::{EventBus, LogEventHandler, NetworkEvent};
use netsync::message::{BroadcastOptions, MessageType, NetworkMessage, Payload};
use netsync::service::{complete_unicast, NetworkService, NetworkServiceConfig};

fn test_config(name: &str) -> NetworkServiceConfig {
    NetworkServiceConfig {
        bind_address: "127.0.0.1:0".to_string(),
        server_name: name.to_string(),
        private_key: [0u8; 32],
        max_connections: 16,
        heartbeat_interval_ms: 30000,
        message_buffer_size: 64,
        event_bus_capacity: 64,
    }
}

fn raw_message() -> NetworkMessage {
    NetworkMessage::new(
        MessageType::chat(),
        "node-a".to_string(),
        Payload::Raw(vec![1]),
    )
}

#[test]
fn service_test_network_service_creation() {
    let service = NetworkService::new();
    assert!(!service.is_running());
    assert!(service.get_config().is_none());
}

#[test]
fn test_message_handler_registration() {
    let mut service = NetworkService::new();
    let message_type = MessageType::chat();
    service
        .register_message_handler(message_type.clone(), 7)
        .unwrap();
    assert!(service.get_message_handler(&message_type).is_some());
    assert_eq!(service.get_message_handler(&message_type), Some(7));
    assert_eq!(service.get_message_handler(&MessageType::system()), None);
}

#[test]
fn test_handler_registration_last_wins() {
    let mut service = NetworkService::new();
    service.register_message_handler(MessageType::chat(), 1).unwrap();
    service.register_message_handler(MessageType::chat(), 2).unwrap();
    assert_eq!(service.get_message_handler(&MessageType::chat()), Some(2));
}

#[test]
fn test_start_twice_fails_stop_is_idempotent() {
    let mut service = NetworkService::new();
    let id = service
        .start(test_config("srv"), "127.0.0.1:9000", 1)
        .unwrap();
    assert_eq!(id, "srv:127.0.0.1:9000");
    assert!(service.is_running());

    let second = service.start(test_config("srv"), "127.0.0.1:9000", 1);
    assert!(matches!(second, Err(NetworkError::ConfigError(_))));
    assert!(service.is_running());

    assert!(service.stop().is_ok());
    assert!(!service.is_running());
    assert!(service.stop().is_ok());
    assert!(!service.is_running());
}

#[test]
fn test_local_node_id_requires_start() {
    let mut service = NetworkService::new();
    assert!(matches!(
        service.get_local_node_id(),
        Err(NetworkError::ConfigError(_))
    ));
    service.start(test_config("a"), "127.0.0.1:1", 1).unwrap();
    assert_eq!(service.get_local_node_id().unwrap(), "a:127.0.0.1:1");
}

#[test]
fn test_connected_nodes_exclude_local() {
    let mut service = NetworkService::new();
    assert!(matches!(
        service.get_connected_nodes(),
        Err(NetworkError::ConfigError(_))
    ));
    let local = service.start(test_config("a"), "127.0.0.1:1", 1).unwrap();
    service.register_peer("b".to_string(), 2);
    service.register_peer("c".to_string(), 3);
    let nodes = service.get_connected_nodes().unwrap();
    assert_eq!(nodes.len(), 2);
    assert!(nodes.contains(&"b".to_string()));
    assert!(nodes.contains(&"c".to_string()));
    assert!(!nodes.contains(&local));
}

#[test]
fn test_broadcast_requires_running() {
    let service = NetworkService::new();
    let message = raw_message();
    assert!(matches!(
        service.broadcast(&message, None),
        Err(NetworkError::ConfigError(_))
    ));
}

#[test]
fn test_broadcast_excludes_self_and_excluded_peers() {
    let mut service = NetworkService::new();
    service.start(test_config("a"), "127.0.0.1:1", 1).unwrap();
    service.register_peer("b".to_string(), 2);
    service.register_peer("c".to_string(), 3);
    service.register_peer("d".to_string(), 4);

    let message = raw_message();
    let options = BroadcastOptions {
        exclude_nodes: vec!["b".to_string()],
        wait_for_response: false,
        timeout_ms: Some(5000),
        retry_count: 0,
    };
    let plan = service.broadcast(&message, Some(&options)).unwrap();
    assert_eq!(plan.message_id, message.id);

    let ids: Vec<&str> = plan.targets.iter().map(|t| t.node_id.as_str()).collect();
    assert_eq!(ids, vec!["c", "d"]);
    assert_eq!(
        plan.targets.iter().filter(|t| t.node_id == "c").count(),
        1
    );
    assert_eq!(
        plan.targets.iter().filter(|t| t.node_id == "d").count(),
        1
    );
    assert_eq!(
        plan.targets.iter().filter(|t| t.node_id == "b").count(),
        0
    );
    // four registered nodes, one excluded: at most 4 - 1 - 1 calls
    assert!(plan.targets.len() <= 2);
}

#[test]
fn test_broadcast_without_options_reaches_all_peers() {
    let mut service = NetworkService::new();
    service.start(test_config("a"), "127.0.0.1:1", 1).unwrap();
    service.register_peer("b".to_string(), 2);
    let message = raw_message();
    let plan = service.broadcast(&message, None).unwrap();
    assert_eq!(plan.targets.len(), 1);
    assert_eq!(plan.targets[0].node_id, "b");
    assert_eq!(plan.targets[0].handle, 2);
}

#[test]
fn test_unicast_paths() {
    let mut service = NetworkService::new();
    let message = raw_message();
    assert!(matches!(
        service.unicast(&"b".to_string(), &message, None),
        Err(NetworkError::ConfigError(_))
    ));

    service.start(test_config("a"), "127.0.0.1:1", 1).unwrap();
    match service.unicast(&"missing".to_string(), &message, None) {
        Err(NetworkError::NodeNotFound(id)) => assert_eq!(id, "missing"),
        other => panic!("expected a node-not-found error, got {:?}", other),
    }

    service.register_peer("b".to_string(), 9);
    let plan = service.unicast(&"b".to_string(), &message, None).unwrap();
    assert_eq!(plan.message_id, message.id);
    assert_eq!(plan.target, "b");
    assert_eq!(plan.handle, 9);
}

#[test]
fn test_complete_unicast_outcome() {
    assert_eq!(complete_unicast(5, None).unwrap(), 5);
    match complete_unicast(5, Some("connection reset".to_string())) {
        Err(NetworkError::SendError(msg)) => assert_eq!(msg, "connection reset"),
        other => panic!("expected a send error, got {:?}", other),
    }
}

#[test]
fn test_unregister_peer() {
    let mut service = NetworkService::new();
    service.start(test_config("a"), "127.0.0.1:1", 1).unwrap();
    service.register_peer("b".to_string(), 2);
    assert!(service.unregister_peer(&"b".to_string()));
    assert!(!service.unregister_peer(&"b".to_string()));
    let nodes = service.get_connected_nodes().unwrap();
    assert!(nodes.is_empty());
}

#[test]
fn test_incoming_message_dispatch_decision() {
    let mut service = NetworkService::new();
    service.register_message_handler(MessageType::chat(), 11).unwrap();

    let message = raw_message();
    let decision = service.handle_incoming_message("b".to_string(), message);
    assert_eq!(decision.handler, Some(11));
    assert_eq!(decision.from, "b");

    let unknown = NetworkMessage::new(
        MessageType::new("unroutable"),
        "b".to_string(),
        Payload::Raw(vec![]),
    );
    let dropped = service.handle_incoming_message("b".to_string(), unknown);
    assert_eq!(dropped.handler, None);
}

#[test]
fn test_event_bus() {
    let mut event_bus = EventBus::new(100);
    let handler = LogEventHandler::new();
    event_bus.register_handler(handler.name().to_string(), 1);
    assert_eq!(event_bus.handler_count(), 1);

    let event = NetworkEvent::ServiceStarted;
    event_bus.publish(event);
}

#[test]
fn test_publish_with_no_subscribers_or_handlers() {
    let mut bus = EventBus::new(8);
    assert_eq!(bus.handler_count(), 0);
    assert_eq!(bus.subscriber_count(), 0);
    let tokens = bus.publish(NetworkEvent::ServiceStopped);
    assert!(tokens.is_empty());
}

#[test]
fn test_publish_reaches_subscriber_and_handlers() {
    let mut bus = EventBus::new(8);
    bus.register_handler("log_handler".to_string(), 3);
    let sub = bus.subscribe();
    let tokens = bus.publish(NetworkEvent::Error {
        error: "boom".to_string(),
    });
    assert_eq!(tokens, vec![3]);
    match bus.next_event(sub) {
        Some(NetworkEvent::Error { error }) => assert_eq!(error, "boom"),
        other => panic!("expected the error event, got {:?}", other),
    }
    assert!(bus.next_event(sub).is_none());
}

#[test]
fn test_slow_subscriber_drops_oldest() {
    let mut bus = EventBus::new(1);
    let sub = bus.subscribe();
    bus.publish(NetworkEvent::ServiceStarted);
    bus.publish(NetworkEvent::ServiceStopped);
    match bus.next_event(sub) {
        Some(NetworkEvent::ServiceStopped) => {}
        other => panic!("expected the newest event, got {:?}", other),
    }
    assert!(bus.next_event(sub).is_none());
}

#[test]
fn test_unregister_handler() {
    let mut bus = EventBus::new(8);
    bus.register_handler("h".to_string(), 1);
    assert!(bus.unregister_handler(&"h".to_string()));
    assert!(!bus.unregister_handler(&"h".to_string()));
    assert_eq!(bus.handler_count(), 0);
}

#[test]
fn test_default_config_values() {
    let config = NetworkServiceConfig::default();
    assert_eq!(config.bind_address, "127.0.0.1:8080");
    assert_eq!(config.server_name, "netsync-service");
    assert_eq!(config.max_connections, 1000);
    assert_eq!(config.heartbeat_interval_ms, 30000);
    assert_eq!(config.message_buffer_size, 1000);
    assert_eq!(config.event_bus_capacity, 1000);
}

#[test]
fn test_set_and_get_config() {
    let mut service = NetworkService::new();
    service.set_config(test_config("configured"));
    let stored = service.get_config().unwrap();
    assert_eq!(stored.server_name, "configured");
    assert_eq!(stored.max_connections, 16);
}

#[test]
fn test_error_constructors() {
    assert!(matches!(
        NetworkError::config_error("a".to_string()),
        NetworkError::ConfigError(_)
    ));
    assert!(matches!(
        NetworkError::connection_error("b".to_string()),
        NetworkError::ConnectionError(_)
    ));
    assert!(matches!(
        NetworkError::send_error("c".to_string()),
        NetworkError::SendError(_)
    ));
    assert!(matches!(
        NetworkError::receive_error("d".to_string()),
        NetworkError::ReceiveError(_)
    ));
    match NetworkError::node_not_found("node-x".to_string()) {
        NetworkError::NodeNotFound(id) => assert_eq!(id, "node-x"),
        other => panic!("expected a node-not-found error, got {:?}", other),
    }
    assert!(matches!(
        NetworkError::internal_error("e".to_string()),
        NetworkError::InternalError(_)
    ));
    assert!(matches!(
        NetworkError::other("f".to_string()),
        NetworkError::Other(_)
    ));
}

#[test]
fn test_log_event_handler_name() {
    let handler = LogEventHandler::new();
    assert_eq!(handler.name(), "log_handler");
}

#[test]
fn test_register_peer_replaces_handle() {
    let mut service = NetworkService::new();
    service.start(test_config("a"), "127.0.0.1:1", 1).unwrap();
    service.register_peer("b".to_string(), 2);
    service.register_peer("b".to_string(), 5);
    let message = raw_message();
    let plan = service.unicast(&"b".to_string(), &message, None).unwrap();
    assert_eq!(plan.handle, 5);
    assert_eq!(service.get_connected_nodes().unwrap().len(), 1);
}
