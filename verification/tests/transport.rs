//! Tests of the transport-facing pieces and of the canonical JSON codec.
use vehicle_nn_core::client::{
    connection_next, ConnectionState, MockNanomsgSocket, NanomsgConfig, NanomsgStats,
};
use vehicle_nn_core::codec::to_json_bytes;
use vehicle_nn_core::decode::decode_frame;
use vehicle_nn_core::message::VehicleMessage;

#[test]
fn test_nanomsg_config() {
    let config = NanomsgConfig::default();

    assert!(!config.listen_url.is_empty());
    assert!(config.receive_timeout_micros > 0);
    assert!(config.buffer_size > 0);
    assert!(config.batch_size > 0);
}

#[test]
fn test_mock_socket() {
    let mut socket = MockNanomsgSocket::new();

    let result = socket.bind("ipc:///tmp/test.ipc");
    assert!(result.is_ok());

    let result = socket.recv();
    assert!(result.is_ok());

    let bytes = result.unwrap();
    assert!(!bytes.is_empty());

    let message_str = std::str::from_utf8(&bytes).unwrap();
    let _: serde_json::Value = serde_json::from_str(message_str).unwrap();
}

#[test]
fn mock_socket_lifecycle() {
    let mut socket = MockNanomsgSocket::new();
    assert!(socket.recv().is_err());

    socket.bind("ipc:///tmp/test.ipc").unwrap();
    let mut ok = 0;
    let mut quiet = 0;
    for _ in 0..20 {
        match socket.recv() {
            Ok(_) => ok += 1,
            Err(_) => quiet += 1,
        }
    }
    // Every tenth receive reports no message.
    assert_eq!(ok, 18);
    assert_eq!(quiet, 2);

    socket.close();
    assert!(socket.recv().is_err());
}

#[test]
fn connection_state_machine_steps() {
    assert_eq!(
        connection_next(ConnectionState::Disconnected, false),
        ConnectionState::Connecting
    );
    assert_eq!(
        connection_next(ConnectionState::Connecting, true),
        ConnectionState::Connected
    );
    assert_eq!(
        connection_next(ConnectionState::Connecting, false),
        ConnectionState::Error
    );
    assert_eq!(
        connection_next(ConnectionState::Error, true),
        ConnectionState::Disconnected
    );
    assert_eq!(
        connection_next(ConnectionState::Connected, false),
        ConnectionState::Connected
    );
}

#[test]
fn retry_budget_follows_config() {
    let config = NanomsgConfig::default();
    assert!(config.may_retry(0));
    assert!(config.may_retry(9));
    assert!(!config.may_retry(10));
}

#[test]
fn transport_stats_accumulate() {
    let mut stats = NanomsgStats::default();
    stats.record_connection_attempt();
    stats.record_message(128, 1_700_000_000_000_000);
    stats.record_message(64, 1_700_000_000_500_000);
    stats.record_batch(2);
    stats.record_batch(4);

    assert_eq!(stats.connection_attempts, 1);
    assert_eq!(stats.bytes_received, 192);
    assert_eq!(stats.messages_received, 2);
    assert_eq!(stats.last_message_time, Some(1_700_000_000_500_000));
    // First batch sets 2000 thousandths; the second folds in with weight
    // one tenth: (2000 * 9 + 4000) / 10.
    assert_eq!(stats.avg_batch_size_millis, 2200);
}

#[test]
fn test_json_serialization() {
    let mut msg = VehicleMessage::new("test".to_string(), "VIN123".to_string(), 1234567890_000000);

    msg.data = Some("{\"value\":42}".to_string());
    msg.channel = "test".to_string();
    msg.run_scene = Some("demo".to_string());

    let json_bytes = to_json_bytes(&msg);
    let json_str = String::from_utf8(json_bytes.clone()).unwrap();
    assert!(json_str.contains("test"));
    assert!(json_str.contains("VIN123"));

    let deserialized = decode_frame(&json_bytes).unwrap();
    assert_eq!(deserialized.service, msg.service);
    assert_eq!(deserialized.vin, msg.vin);
    assert_eq!(deserialized.timestamp_micros, msg.timestamp_micros);
    assert_eq!(deserialized.run_scene, msg.run_scene);
    assert_eq!(deserialized.get_hash(), msg.get_hash());
    assert_eq!(deserialized.is_valid(), msg.is_valid());
}

#[test]
fn unknown_params_members_ride_along() {
    let frame = br#"{"service":"tracking","params":{"vin":"V1","timestamp":1700000000.0,"data":{"x":1},"extra_field":7}}"#;
    let m = decode_frame(frame).unwrap();
    let params = m.params_canonical.expect("params text carried");
    assert!(params.contains("\"extra_field\":7"));
    assert!(params.contains("\"data\""));
    assert_eq!(m.data.as_deref(), Some("{\"x\":1}"));
}

#[test]
fn decode_ties_fields_to_the_frame() {
    let frame = br#"{"service":"traj","params":{"vin":"V9","timestamp":1700000001.0,"data":{"a":1},"run_scene":"demo"}}"#;
    let m = decode_frame(frame).unwrap();
    assert_eq!(m.service, "traj");
    assert_eq!(m.channel, "traj");
    assert_eq!(m.vin, "V9");
    assert_eq!(m.timestamp_micros, 1_700_000_001_000_000);
    assert_eq!(m.run_scene.as_deref(), Some("demo"));

    // A non-string vin falls back to the default.
    let odd_vin = br#"{"service":"traj","params":{"vin":5,"timestamp":1.0,"data":{}}}"#;
    let m2 = decode_frame(odd_vin).unwrap();
    assert_eq!(m2.vin, "UNKNOWN");
}

#[test]
fn encoder_escapes_strings() {
    let mut msg = VehicleMessage::new(
        "tracking".to_string(),
        "VIN\"quoted\\slash".to_string(),
        1_000_000,
    );
    msg.data = Some("{}".to_string());

    let bytes = to_json_bytes(&msg);
    let decoded = decode_frame(&bytes).unwrap();
    assert_eq!(decoded.vin, "VIN\"quoted\\slash");
    assert_eq!(decoded.get_hash(), msg.get_hash());
}
