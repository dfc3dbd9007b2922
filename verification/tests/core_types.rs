//! Tests of the message record, classification, sampling and statistics.
use vehicle_nn_core::message::VehicleMessage;
use vehicle_nn_core::priority::MessagePriority;
use vehicle_nn_core::sampling::{sampling_decision, SamplingConfig};
use vehicle_nn_core::stats::ProcessingStats;
use vehicle_nn_core::performance::{HealthStatus, PerformanceMonitor};
use vehicle_nn_core::get_library_info;

#[test]
fn test_vehicle_message_creation() {
    let mut msg = VehicleMessage::new(
        "tracking".to_string(),
        "TEST_VIN_123".to_string(),
        1234567890_000000,
    );

    msg.channel = "tracking".to_string();
    msg.data = Some("{\"x\":1.0,\"y\":2.0}".to_string());

    assert!(msg.is_valid());
    assert_eq!(msg.service, "tracking");
    assert_eq!(msg.vin, "TEST_VIN_123");

    let hash1 = msg.get_hash();
    let hash2 = msg.get_hash();
    assert_eq!(hash1, hash2);
}

#[test]
fn test_message_priority() {
    assert_eq!(
        MessagePriority::from_service("tracking"),
        MessagePriority::Critical
    );
    assert_eq!(
        MessagePriority::from_service("traj"),
        MessagePriority::Background
    );
    assert_eq!(MessagePriority::from_service("vcc"), MessagePriority::Normal);

    assert!(MessagePriority::Critical.queue_capacity() > 0);
    assert!(MessagePriority::Critical.processing_interval() > 0);
}

#[test]
fn tests_test_sampling_config() {
    let mut config = SamplingConfig::default();

    assert_eq!(config.get_rate("tracking"), 1000);
    assert_eq!(config.get_rate("traj"), 100);

    config.set_rate("custom_service", 500);
    assert_eq!(config.get_rate("custom_service"), 500);

    config.set_rate("test", 1500);
    assert_eq!(config.get_rate("test"), 1000);

    config.set_rate("test", 0);
    assert_eq!(config.get_rate("test"), 0);
}

#[test]
fn test_processing_stats() {
    let mut stats = ProcessingStats::new();

    stats.increment_received();
    stats.increment_processed();
    stats.update_processing_time(1000);
    stats.update_queue_size(50);

    assert_eq!(stats.messages_received, 1);
    assert_eq!(stats.messages_processed, 1);
    assert_eq!(stats.avg_processing_time_us, 1000);
    assert_eq!(stats.queue_size, 50);
    assert_eq!(stats.get_drop_rate(), 0);
}

#[test]
fn classification_covers_every_service() {
    for service in ["tracking", "route", "error_info"] {
        assert_eq!(
            MessagePriority::from_service(service),
            MessagePriority::Critical
        );
    }
    for service in ["traj", "moving_obj", "device", "loc_stat"] {
        assert_eq!(
            MessagePriority::from_service(service),
            MessagePriority::Background
        );
    }
    for service in ["vcc", "uos_config", "anything_else", "x"] {
        assert_eq!(
            MessagePriority::from_service(service),
            MessagePriority::Normal
        );
    }
    assert_eq!(MessagePriority::Critical.queue_capacity(), 200);
    assert_eq!(MessagePriority::Normal.queue_capacity(), 500);
    assert_eq!(MessagePriority::Background.queue_capacity(), 100);
    assert_eq!(MessagePriority::Critical.processing_interval(), 100);
    assert_eq!(MessagePriority::Normal.processing_interval(), 1000);
    assert_eq!(MessagePriority::Background.processing_interval(), 10000);
}

#[test]
fn fingerprint_depends_on_whole_seconds_only() {
    let mut a = VehicleMessage::new("tracking".to_string(), "V1".to_string(), 1700000000_100000);
    let mut b = VehicleMessage::new("tracking".to_string(), "V1".to_string(), 1700000000_900000);
    a.data = Some("{\"x\":1}".to_string());
    b.data = Some("{\"x\":1}".to_string());
    assert_eq!(a.get_hash(), b.get_hash());

    let mut c = VehicleMessage::new("tracking".to_string(), "V1".to_string(), 1700000001_100000);
    c.data = Some("{\"x\":1}".to_string());
    assert_ne!(a.get_hash(), c.get_hash());

    let mut d = VehicleMessage::new("tracking".to_string(), "V2".to_string(), 1700000000_100000);
    d.data = Some("{\"x\":1}".to_string());
    assert_ne!(a.get_hash(), d.get_hash());
}

#[test]
fn channel_defaults_to_service() {
    let m = VehicleMessage::new("tracking".to_string(), "V1".to_string(), 1);
    assert_eq!(m.channel, "tracking");
    assert_eq!(m.channel, m.service);
}

#[test]
fn validity_requires_all_fields() {
    let mut m = VehicleMessage::new("tracking".to_string(), "V1".to_string(), 1);
    assert!(!m.is_valid());
    m.data = Some("{}".to_string());
    assert!(m.is_valid());

    let mut no_service = VehicleMessage::new(String::new(), "V1".to_string(), 1);
    no_service.data = Some("{}".to_string());
    assert!(!no_service.is_valid());

    let mut no_vin = VehicleMessage::new("tracking".to_string(), String::new(), 1);
    no_vin.data = Some("{}".to_string());
    assert!(!no_vin.is_valid());

    let mut zero_ts = VehicleMessage::new("tracking".to_string(), "V1".to_string(), 0);
    zero_ts.data = Some("{}".to_string());
    assert!(!zero_ts.is_valid());
}

#[test]
fn sampling_decision_extremes() {
    for entropy in [0u64, 1, 7, 999, 123456789, u64::MAX] {
        assert!(sampling_decision(1000, "traj", entropy));
        assert!(sampling_decision(2000, "traj", entropy));
        assert!(!sampling_decision(0, "traj", entropy));
    }
}

#[test]
fn drop_rate_is_dropped_per_received_in_thousandths() {
    let mut stats = ProcessingStats::new();
    for _ in 0..4 {
        stats.increment_received();
    }
    stats.increment_dropped();
    assert_eq!(stats.get_drop_rate(), 250);

    let untouched = ProcessingStats::new();
    assert_eq!(untouched.get_drop_rate(), 0);
}

#[test]
fn moving_average_weights_new_sample_one_tenth() {
    let mut stats = ProcessingStats::new();
    stats.update_processing_time(1000);
    assert_eq!(stats.avg_processing_time_us, 1000);
    stats.update_processing_time(2000);
    assert_eq!(stats.avg_processing_time_us, (1000 * 9 + 2000) / 10);
}

#[test]
fn test_performance_monitor() {
    let mut monitor = PerformanceMonitor::new(1_000_000);

    monitor.record_received();
    monitor.record_processed(500);
    monitor.update_queue_size(10);

    let stats = monitor.get_stats();
    assert_eq!(stats.messages_received, 1);
    assert_eq!(stats.messages_processed, 1);
    assert_eq!(stats.queue_size, 10);
    assert!(stats.avg_processing_time_us > 0);
}

#[test]
fn test_health_status() {
    let mut monitor = PerformanceMonitor::new(1_000_000);

    assert_eq!(monitor.get_health_status(), HealthStatus::Healthy);

    for _ in 0..20 {
        monitor.record_processed(25_000);
    }

    assert_eq!(monitor.get_health_status(), HealthStatus::Critical);
}

#[test]
fn health_thresholds_follow_drop_rate() {
    let mut monitor = PerformanceMonitor::new(1_000_000);
    for _ in 0..100 {
        monitor.record_received();
    }
    assert_eq!(monitor.get_health_status(), HealthStatus::Healthy);
    for _ in 0..6 {
        monitor.record_dropped("sampling");
    }
    // 6 dropped against 100 received: above 5%, at most 10%.
    assert_eq!(monitor.get_health_status(), HealthStatus::Warning);
    for _ in 0..5 {
        monitor.record_dropped("sampling");
    }
    // 11 dropped against 100 received: above 10%.
    assert_eq!(monitor.get_health_status(), HealthStatus::Critical);
    assert_eq!(HealthStatus::Critical.as_str(), "critical");
    assert_eq!(HealthStatus::Warning.as_str(), "warning");
    assert_eq!(HealthStatus::Healthy.as_str(), "healthy");
}

#[test]
fn performance_warnings_follow_thresholds() {
    let mut monitor = PerformanceMonitor::new(10_000_000);
    let (drop_warn, latency_warn, backlog_warn, rate_warn) =
        monitor.check_performance_warnings(1_000);
    assert!(!drop_warn && !latency_warn && !backlog_warn && !rate_warn);

    for _ in 0..100 {
        monitor.record_received();
    }
    for _ in 0..6 {
        monitor.record_dropped("sampling");
    }
    monitor.update_queue_size(501);
    let (drop_warn, latency_warn, backlog_warn, _) = monitor.check_performance_warnings(1_000);
    assert!(drop_warn);
    assert!(!latency_warn);
    assert!(backlog_warn);

    assert!(monitor.report_due(0, 10_000_000));
    assert!(!monitor.report_due(0, 9_999_999));
    assert!(!monitor.report_due(10, 5));
}

#[test]
fn library_info_names_the_library() {
    let info = get_library_info();
    assert!(info.contains("Vehicle NN Core"));
    assert_eq!(vehicle_nn_core::VERSION, "0.1.0");
}
