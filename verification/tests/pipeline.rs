//! End-to-end tests of the ingest coordinator: submit, dedup, sampling,
//! priority routing, queue-full shedding and the worker-side accounting.
use vehicle_nn_core::error::VehicleError;
use vehicle_nn_core::priority::MessagePriority;
use vehicle_nn_core::processor::MessageProcessor;

/// A base instant, in microseconds since the Unix epoch.
const T0: u64 = 1700000000_000000;

/// An arbitrary entropy reading for sampling decisions; irrelevant while
/// rates are 0 or 1000 thousandths.
const E: u64 = 42;

fn tracking_frame(vin: &str) -> Vec<u8> {
    format!(
        "{{\"service\":\"tracking\",\"params\":{{\"vin\":\"{}\",\"timestamp\":1700000000.0,\"data\":{{\"x\":1,\"y\":2}}}}}}",
        vin
    )
    .into_bytes()
}

fn frame(service: &str, vin: &str) -> Vec<u8> {
    format!(
        "{{\"service\":\"{}\",\"params\":{{\"vin\":\"{}\",\"timestamp\":1700000000.0,\"data\":{{\"x\":1}}}}}}",
        service, vin
    )
    .into_bytes()
}

#[test]
fn test_message_processor_creation() {
    let processor = MessageProcessor::new();
    assert!(!processor.is_running());

    let stats = processor.get_stats();
    assert_eq!(stats.messages_received, 0);
    assert_eq!(stats.messages_processed, 0);
}

#[test]
fn test_message_submission() {
    let mut processor = MessageProcessor::new();

    let test_message = br#"{
        "service": "tracking",
        "params": {
            "vin": "TEST_VIN_123",
            "timestamp": 1234567890.0,
            "data": {"x": 1.0, "y": 2.0}
        }
    }"#;

    let result = processor.submit_message(test_message);
    assert!(result.is_ok());
}

#[test]
fn message_processor_test_sampling_config() {
    let mut processor = MessageProcessor::new();

    let config = processor.get_sampling_config();
    assert_eq!(config.get_rate("tracking"), 1000);
    assert_eq!(config.get_rate("traj"), 100);

    processor.update_sampling_config("test_service", 500);
    let updated_config = processor.get_sampling_config();
    assert_eq!(updated_config.get_rate("test_service"), 500);
}

#[test]
fn test_duplicate_message_detection() {
    let mut processor = MessageProcessor::new();

    let test_message = tracking_frame("TEST_VIN_123");

    let result1 = processor.submit_at(&test_message, T0, E);
    assert!(result1.is_ok());
    let stats1 = processor.get_stats();

    let result2 = processor.submit_at(&test_message, T0 + 10_000, E);
    assert!(result2.is_ok());
    let stats2 = processor.get_stats();

    assert_eq!(stats1.messages_received, stats2.messages_received);
    assert_eq!(stats2.messages_dropped, stats1.messages_dropped + 1);
}

#[test]
fn valid_tracking_message_flows_through() {
    let mut processor = MessageProcessor::new();
    let payload = br#"{"service":"tracking","params":{"vin":"V1","timestamp":1700000000.0,"data":{"x":1,"y":2}}}"#;

    assert!(processor.submit_at(payload, T0, E).is_ok());
    let stats = processor.get_stats();
    assert_eq!(stats.messages_received, 1);
    assert_eq!(stats.messages_dropped, 0);

    let m = processor.dequeue(MessagePriority::Critical).expect("one message queued");
    assert_eq!(m.service, "tracking");
    assert_eq!(m.vin, "V1");
    assert!(processor.dequeue(MessagePriority::Critical).is_none());
    assert!(processor.dequeue(MessagePriority::Normal).is_none());
    assert!(processor.dequeue(MessagePriority::Background).is_none());

    processor.record_handler_outcome(true, 120);
    let done = processor.get_stats();
    assert_eq!(done.messages_received, 1);
    assert_eq!(done.messages_processed, 1);
    assert_eq!(done.messages_dropped, 0);
}

#[test]
fn immediate_duplicate_is_dropped_once() {
    let mut processor = MessageProcessor::new();
    let payload = tracking_frame("V1");

    assert!(processor.submit_at(&payload, T0, E).is_ok());
    assert!(processor.submit_at(&payload, T0 + 100_000, E).is_ok());

    let stats = processor.get_stats();
    assert_eq!(stats.messages_received, 1);
    assert_eq!(stats.messages_dropped, 1);

    assert!(processor.dequeue(MessagePriority::Critical).is_some());
    assert!(processor.dequeue(MessagePriority::Critical).is_none());
}

#[test]
fn zero_rate_sheds_every_frame() {
    let mut processor = MessageProcessor::new();
    processor.update_sampling_config("traj", 0);

    for i in 0..100u64 {
        let payload = frame("traj", &format!("VIN_{}", i));
        assert!(processor.submit_at(&payload, T0 + i * 2_000_000, E).is_ok());
    }

    let stats = processor.get_stats();
    assert_eq!(stats.messages_received, 0);
    assert_eq!(stats.messages_dropped, 100);
    assert!(processor.dequeue(MessagePriority::Background).is_none());
}

#[test]
fn background_backlog_leaves_critical_open() {
    let mut processor = MessageProcessor::new();
    processor.update_sampling_config("traj", 1000);

    for i in 0..100u64 {
        let payload = frame("traj", &format!("VIN_{}", i));
        assert!(processor.submit_at(&payload, T0 + i * 2_000_000, E).is_ok());
    }
    let filled = processor.get_stats();
    assert_eq!(filled.messages_received, 100);

    let payload = tracking_frame("V1");
    assert!(processor.submit_at(&payload, T0, E).is_ok());
    let stats = processor.get_stats();
    assert_eq!(stats.messages_received, 101);
    assert_eq!(stats.messages_dropped, 0);

    let m = processor.dequeue(MessagePriority::Critical).expect("tracking accepted");
    assert_eq!(m.service, "tracking");
    processor.record_handler_outcome(true, 80);
}

#[test]
fn queue_full_drops_the_overflow() {
    let mut processor = MessageProcessor::new();

    for i in 0..250u64 {
        let payload = tracking_frame(&format!("VIN_{}", i));
        assert!(processor.submit_at(&payload, T0 + i * 2_000_000, E).is_ok());
    }

    let stats = processor.get_stats();
    assert_eq!(stats.messages_received, 200);
    assert_eq!(stats.messages_dropped, 50);
}

#[test]
fn invalid_shape_returns_error_and_moves_nothing() {
    let mut processor = MessageProcessor::new();

    let result = processor.submit_at(br#"{"params":{"data":{}}}"#, T0, E);
    assert!(matches!(result, Err(VehicleError::InvalidMessage(_))));

    let malformed = processor.submit_at(b"{not json", T0, E);
    assert!(matches!(malformed, Err(VehicleError::JsonError(_))));

    let stats = processor.get_stats();
    assert_eq!(stats.messages_received, 0);
    assert_eq!(stats.messages_dropped, 0);
    assert_eq!(stats.messages_processed, 0);
}

#[test]
fn dedup_entry_expires_after_a_second() {
    let mut processor = MessageProcessor::new();
    let payload = tracking_frame("V1");

    assert!(processor.submit_at(&payload, T0, E).is_ok());
    assert!(processor.submit_at(&payload, T0 + 1_000_001, E).is_ok());

    let stats = processor.get_stats();
    assert_eq!(stats.messages_received, 2);
    assert_eq!(stats.messages_dropped, 0);
}

#[test]
fn equivalent_data_objects_collide_in_dedup() {
    let mut processor = MessageProcessor::new();
    let a = br#"{"service":"tracking","params":{"vin":"V1","timestamp":1700000000.0,"data":{"a":1,"b":2}}}"#;
    let b = br#"{"service":"tracking","params":{"vin":"V1","timestamp":1700000000.5,"data":{"b":2,"a":1}}}"#;

    assert!(processor.submit_at(a, T0, E).is_ok());
    assert!(processor.submit_at(b, T0 + 100_000, E).is_ok());

    let stats = processor.get_stats();
    assert_eq!(stats.messages_received, 1);
    assert_eq!(stats.messages_dropped, 1);
}

#[test]
fn dequeue_preserves_fifo_order() {
    let mut processor = MessageProcessor::new();
    assert!(processor.submit_at(&tracking_frame("FIRST"), T0, E).is_ok());
    assert!(processor.submit_at(&tracking_frame("SECOND"), T0 + 2_000_000, E).is_ok());

    let first = processor.dequeue(MessagePriority::Critical).unwrap();
    let second = processor.dequeue(MessagePriority::Critical).unwrap();
    assert_eq!(first.vin, "FIRST");
    assert_eq!(second.vin, "SECOND");
}

#[test]
fn eviction_spares_young_entries() {
    let mut processor = MessageProcessor::new();
    let payload = tracking_frame("V1");
    assert!(processor.submit_at(&payload, T0, E).is_ok());

    let removed = processor.evict_cache(T0 + 100_000_000);
    assert_eq!(removed, 0);

    // The entry survived: a repeat within its window is still a duplicate.
    assert!(processor.submit_at(&payload, T0 + 500_000, E).is_ok());
    assert_eq!(processor.get_stats().messages_dropped, 1);
}

#[test]
fn eviction_removes_stale_entries() {
    let mut processor = MessageProcessor::new();
    let payload = tracking_frame("V1");
    assert!(processor.submit_at(&payload, T0, E).is_ok());

    let removed = processor.evict_cache(T0 + 300_000_001);
    assert_eq!(removed, 1);
}

#[test]
fn eviction_boundary_is_exactly_the_retention_window() {
    let mut processor = MessageProcessor::new();
    assert!(processor.submit_at(&tracking_frame("V1"), T0, E).is_ok());

    // At exactly the retention window the entry is no longer younger than
    // it, so the pass removes it.
    let removed = processor.evict_cache(T0 + 300_000_000);
    assert_eq!(removed, 1);

    let mut other = MessageProcessor::new();
    assert!(other.submit_at(&tracking_frame("V1"), T0, E).is_ok());
    assert_eq!(other.evict_cache(T0 + 299_999_999), 0);
}

#[test]
fn handler_failure_counts_as_drop_and_worker_continues() {
    let mut processor = MessageProcessor::new();
    assert!(processor.submit_at(&tracking_frame("V1"), T0, E).is_ok());
    assert!(processor.submit_at(&tracking_frame("V2"), T0 + 2_000_000, E).is_ok());

    processor.dequeue(MessagePriority::Critical).unwrap();
    processor.record_handler_outcome(false, 50);
    processor.dequeue(MessagePriority::Critical).unwrap();
    processor.record_handler_outcome(true, 50);

    let stats = processor.get_stats();
    assert_eq!(stats.messages_received, 2);
    assert_eq!(stats.messages_processed, 1);
    assert_eq!(stats.messages_dropped, 1);
}

#[test]
fn start_twice_is_a_config_error() {
    let mut processor = MessageProcessor::new();
    assert!(processor.start().is_ok());
    assert!(processor.is_running());

    let again = processor.start();
    assert!(matches!(again, Err(VehicleError::ConfigError(_))));
    match again {
        Err(e) => assert!(!e.is_recoverable()),
        Ok(_) => unreachable!(),
    }

    processor.stop();
    assert!(!processor.is_running());
    assert!(processor.start().is_ok());
}

#[test]
fn error_kinds_and_recoverability() {
    // Every kind but lifecycle misuse is recoverable.
    assert!(VehicleError::QueueFull.is_recoverable());
    assert!(VehicleError::Timeout.is_recoverable());
    assert!(VehicleError::NanomsgError("x".to_string()).is_recoverable());
    assert!(VehicleError::JsonError("x".to_string()).is_recoverable());
    assert!(VehicleError::InvalidMessage("x".to_string()).is_recoverable());
    assert!(VehicleError::IoError("x".to_string()).is_recoverable());
    assert!(VehicleError::ServiceNotFound("x".to_string()).is_recoverable());
    assert!(!VehicleError::ConfigError("x".to_string()).is_recoverable());
    assert_eq!(VehicleError::QueueFull.kind_name(), "queue full");
    assert_eq!(VehicleError::Timeout.kind_name(), "timeout");
}

#[test]
fn vin_and_timestamp_take_defaults() {
    let mut processor = MessageProcessor::new();
    // No vin: defaults to UNKNOWN and still flows through.
    let payload = br#"{"service":"tracking","params":{"timestamp":1700000000.0,"data":{"x":1}}}"#;
    assert!(processor.submit_at(payload, T0, E).is_ok());
    assert_eq!(processor.get_stats().messages_received, 1);
    let m = processor.dequeue(MessagePriority::Critical).unwrap();
    assert_eq!(m.vin, "UNKNOWN");
    assert_eq!(m.channel, "tracking");
}
