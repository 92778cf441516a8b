use netsync::clock::{current_timestamp_ms, fresh_message_id};
use netsync::errors::{NetworkError, TimeSyncError};
use netsync::message::{MessageType, NetworkMessage, Payload};
use netsync::timesync::{TimeSyncMessageType, TimeSyncService};

#[test]
fn test_timesync_service_creation() {
    let timesync_service = TimeSyncService::new("test-server".to_string());
    let time_info = timesync_service.get_time_info().unwrap();
    assert_eq!(time_info.server_id, "test-server");
}

#[test]
fn test_timestamp_validation() {
    let current = current_timestamp_ms();

    assert!(TimeSyncService::validate_timestamp(current).is_ok());

    let old_timestamp = current - 7200000;
    assert!(TimeSyncService::validate_timestamp(old_timestamp).is_err());
}

#[test]
fn test_timesync_message_handler() {
    let timesync_msg = TimeSyncMessageType::TimeRequest {
        request_id: fresh_message_id(),
        client_timestamp: 1234567890000,
    };

    let payload = Payload::TimeSync(timesync_msg);
    let _network_msg = NetworkMessage::new(
        MessageType::timesync(),
        "test-sender".to_string(),
        payload,
    );
}

#[test]
fn test_timestamp_validation_boundary_is_inclusive() {
    let now: i64 = 10_000_000_000;
    assert!(TimeSyncService::validate_timestamp_at(now, now - 3_600_000).is_ok());
    assert!(TimeSyncService::validate_timestamp_at(now, now + 3_600_000).is_ok());
    match TimeSyncService::validate_timestamp_at(now, now - 3_600_001) {
        Err(TimeSyncError::InvalidTimestamp(ts)) => assert_eq!(ts, now - 3_600_001),
        other => panic!("expected an invalid-timestamp error, got {:?}", other),
    }
    assert!(TimeSyncService::validate_timestamp_at(now, now + 3_600_001).is_err());
}

#[test]
fn test_time_request_echoes_client_timestamp() {
    let mut svc = TimeSyncService::new("srv".to_string());
    let now: i64 = 1_700_000_000_000;
    let reply = svc
        .handle_time_request("peer-a".to_string(), 42, now, now, 1_000, 3_500)
        .unwrap();
    match reply {
        TimeSyncMessageType::TimeResponse {
            request_id,
            server_timestamp,
            client_timestamp,
            processing_time_ns,
        } => {
            assert_eq!(request_id, 42);
            assert_eq!(server_timestamp, now);
            assert_eq!(client_timestamp, now);
            assert_eq!(processing_time_ns, 2_500);
        }
        other => panic!("expected a time response, got {:?}", other),
    }
    assert_eq!(svc.pending_count(), 1);

    assert!(svc.complete_time_request(42, now));
    assert_eq!(svc.pending_count(), 0);
    let stats = svc.get_sync_stats().unwrap();
    assert_eq!(stats.total_requests, 1);
    assert_eq!(stats.last_sync_time, Some(now));
}

#[test]
fn test_time_request_rejects_stale_timestamp() {
    let mut svc = TimeSyncService::new("srv".to_string());
    let now: i64 = 1_700_000_000_000;
    let r = svc.handle_time_request("peer-a".to_string(), 1, now - 7_200_000, now, 0, 0);
    match r {
        Err(TimeSyncError::InvalidTimestamp(ts)) => assert_eq!(ts, now - 7_200_000),
        other => panic!("expected an invalid-timestamp error, got {:?}", other),
    }
    assert_eq!(svc.pending_count(), 0);
}

#[test]
fn test_sync_interval_boundaries() {
    let mut svc = TimeSyncService::new("srv".to_string());
    let now: i64 = 1_700_000_000_000;

    match svc.handle_sync_request("p".to_string(), 1, now, 500, now) {
        Err(TimeSyncError::InvalidSyncInterval(v)) => assert_eq!(v, 500),
        other => panic!("expected an invalid-interval error, got {:?}", other),
    }
    match svc.handle_sync_request("p".to_string(), 2, now, 3_600_001, now) {
        Err(TimeSyncError::InvalidSyncInterval(v)) => assert_eq!(v, 3_600_001),
        other => panic!("expected an invalid-interval error, got {:?}", other),
    }
    assert!(svc.handle_sync_request("p".to_string(), 3, now, 1_000, now).is_ok());
    assert!(svc
        .handle_sync_request("p".to_string(), 4, now, 3_600_000, now)
        .is_ok());
}

#[test]
fn test_sync_response_reports_offset() {
    let mut svc = TimeSyncService::new("srv".to_string());
    let client_time: i64 = 1_700_000_000_000;
    let now = client_time + 250;
    let reply = svc
        .handle_sync_request("peer-a".to_string(), 9, client_time, 5_000, now)
        .unwrap();
    match reply {
        TimeSyncMessageType::SyncResponse {
            request_id,
            server_time,
            client_time: echoed,
            time_offset_ms,
            round_trip_time_ms,
        } => {
            assert_eq!(request_id, 9);
            assert_eq!(server_time, now);
            assert_eq!(echoed, client_time);
            assert_eq!(time_offset_ms, 250);
            assert_eq!(round_trip_time_ms, 10);
        }
        other => panic!("expected a sync response, got {:?}", other),
    }
}

#[test]
fn test_two_syncs_update_one_session_in_place() {
    let mut svc = TimeSyncService::new("srv".to_string());
    let now: i64 = 1_700_000_000_000;
    let peer = "peer-a".to_string();

    svc.handle_sync_request(peer.clone(), 1, now, 5_000, now).unwrap();
    assert_eq!(svc.session_count(), 1);
    let first = svc.get_sync_session(&peer).unwrap();
    assert_eq!(first.request_count, 1);

    svc.handle_sync_request(peer.clone(), 2, now + 100, 6_000, now + 150)
        .unwrap();
    assert_eq!(svc.session_count(), 1);
    let second = svc.get_sync_session(&peer).unwrap();
    assert_eq!(second.request_count, 2);
    assert_eq!(second.last_sync_time, now + 150);
    assert_eq!(second.time_offset_ms, 50);
    assert_eq!(second.sync_interval_ms, 6_000);
}

#[test]
fn test_sync_stats_running_average() {
    let mut svc = TimeSyncService::new("srv".to_string());
    let now: i64 = 1_700_000_000_000;
    svc.handle_sync_request("a".to_string(), 1, now, 5_000, now).unwrap();
    let stats = svc.get_sync_stats().unwrap();
    // first sample: (0 * 0 + 10) / 1
    assert_eq!(stats.avg_response_time_ms, 10);
    assert_eq!(stats.total_requests, 1);
    assert_eq!(stats.total_responses, 1);
    assert_eq!(stats.active_sessions, 1);

    svc.handle_sync_request("b".to_string(), 2, now, 5_000, now).unwrap();
    let stats = svc.get_sync_stats().unwrap();
    // second sample: (10 * 1 + 10) / 2
    assert_eq!(stats.avg_response_time_ms, 10);
    assert_eq!(stats.total_requests, 2);
    assert_eq!(stats.total_responses, 2);
    assert_eq!(stats.active_sessions, 2);
}

#[test]
fn test_heartbeat_lifecycle() {
    let mut svc = TimeSyncService::new("srv".to_string());

    assert!(svc.start_heartbeat(1000).is_ok());
    match svc.start_heartbeat(1000) {
        Err(TimeSyncError::HeartbeatAlreadyStarted) => {}
        other => panic!("expected an already-started error, got {:?}", other),
    }

    // the running heartbeat is unaffected: a tick still works
    let now: i64 = 1_700_000_000_000;
    assert!(svc.heartbeat_tick(now).is_ok());

    assert!(svc.stop_heartbeat().is_ok());
    match svc.stop_heartbeat() {
        Err(TimeSyncError::HeartbeatNotStarted) => {}
        other => panic!("expected a not-started error, got {:?}", other),
    }
}

#[test]
fn test_heartbeat_tick_sequencing() {
    let mut svc = TimeSyncService::new("srv".to_string());
    let now: i64 = 1_700_000_000_000;

    match svc.heartbeat_tick(now) {
        Err(TimeSyncError::HeartbeatNotStarted) => {}
        other => panic!("expected a not-started error, got {:?}", other),
    }

    svc.start_heartbeat(1000).unwrap();
    let beacon = svc.heartbeat_tick(now).unwrap();
    match beacon.payload {
        Payload::TimeSync(TimeSyncMessageType::Heartbeat { timestamp, sequence }) => {
            assert_eq!(timestamp, now);
            assert_eq!(sequence, 1);
        }
        other => panic!("expected a heartbeat payload, got {:?}", other),
    }
    let beacon2 = svc.heartbeat_tick(now + 1000).unwrap();
    match beacon2.payload {
        Payload::TimeSync(TimeSyncMessageType::Heartbeat { sequence, .. }) => {
            assert_eq!(sequence, 2);
        }
        other => panic!("expected a heartbeat payload, got {:?}", other),
    }
    svc.record_heartbeat_sent();
    svc.record_heartbeat_sent();
    assert_eq!(svc.get_sync_stats().unwrap().heartbeat_count, 2);
}

#[test]
fn test_request_builders() {
    let svc = TimeSyncService::new("srv".to_string());
    let now: i64 = 1_700_000_000_000;

    let (msg, options) = svc.request_time(77, now);
    assert_eq!(msg.sender, "srv");
    assert_eq!(msg.message_type, MessageType::timesync());
    match msg.payload {
        Payload::TimeSync(TimeSyncMessageType::TimeRequest {
            request_id,
            client_timestamp,
        }) => {
            assert_eq!(request_id, 77);
            assert_eq!(client_timestamp, now);
        }
        other => panic!("expected a time request payload, got {:?}", other),
    }
    assert!(options.wait_for_response);
    assert_eq!(options.timeout_ms, Some(5000));
    assert_eq!(options.retry_count, 2);

    let (msg, _) = svc.request_sync(78, now, 2_000);
    match msg.payload {
        Payload::TimeSync(TimeSyncMessageType::SyncRequest {
            request_id,
            client_time,
            sync_interval_ms,
        }) => {
            assert_eq!(request_id, 78);
            assert_eq!(client_time, now);
            assert_eq!(sync_interval_ms, 2_000);
        }
        other => panic!("expected a sync request payload, got {:?}", other),
    }

    let reply = TimeSyncMessageType::TimeResponse {
        request_id: 77,
        server_timestamp: now,
        client_timestamp: now,
        processing_time_ns: 5,
    };
    let (msg, options) = svc.response_message(reply);
    assert_eq!(msg.sender, "srv");
    assert!(!options.wait_for_response);
    assert_eq!(options.timeout_ms, Some(3000));
    assert_eq!(options.retry_count, 1);
}

#[test]
fn test_time_info_reports_utc() {
    let svc = TimeSyncService::new("srv".to_string());
    let info = svc.get_time_info().unwrap();
    assert_eq!(info.timezone, "UTC");
    assert_eq!(info.precision_ns, 1_000_000);
}

#[test]
fn test_error_rendering_and_conversion() {
    let e = TimeSyncError::InvalidSyncInterval(500);
    assert_eq!(e.describe(), "invalid sync interval");
    let e = TimeSyncError::InvalidTimestamp(7);
    assert_eq!(e.describe(), "invalid timestamp");
    let wrapped = TimeSyncError::NetworkError(NetworkError::ConfigError("stopped".to_string()));
    assert_eq!(
        wrapped.describe(),
        "network service error: configuration error: stopped"
    );
    match wrapped.into_network_error() {
        NetworkError::ConfigError(m) => assert_eq!(m, "stopped"),
        other => panic!("expected the wrapped error back, got {:?}", other),
    }
    match TimeSyncError::HeartbeatNotStarted.into_network_error() {
        NetworkError::InternalError(m) => assert_eq!(m, "heartbeat not started"),
        other => panic!("expected an internal error, got {:?}", other),
    }
}
