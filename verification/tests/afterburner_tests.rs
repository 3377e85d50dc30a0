use std::collections::HashMap;

use manzana::afterburner::convert_raw_stats;
use manzana::afterburner::query_once;
use manzana::afterburner::AfterburnerMonitor;
use manzana::afterburner::AfterburnerStats;
use manzana::afterburner::ProResCodec;
use manzana::ffi::iokit::AfterburnerRawStats;
use manzana::ffi::iokit::PropValue;
use manzana::ffi::iokit::RegistryEntry;
use manzana::ffi::iokit::ServiceRegistry;

#[test]
fn test_new_graceful_on_missing_hardware() {
    let result = AfterburnerMonitor::new();
    drop(result);
}

#[test]
fn test_default_stats_zero_streams() {
    let stats = AfterburnerStats::default();
    assert_eq!(stats.streams_active, 0);
    assert!(!stats.is_active());
}

#[test]
fn test_stats_is_active() {
    let stats = AfterburnerStats::default();
    assert!(!stats.is_active());

    let stats = AfterburnerStats {
        streams_active: 5,
        ..Default::default()
    };
    assert!(stats.is_active());
}

#[test]
fn test_stats_capacity_used_percent() {
    let stats = AfterburnerStats {
        streams_capacity: 23,
        streams_active: 0,
        ..Default::default()
    };
    assert!((stats.capacity_used_percent() as f64 / 1000.0 - 0.0).abs() < 0.01);

    let stats = AfterburnerStats {
        streams_capacity: 23,
        streams_active: 23,
        ..Default::default()
    };
    assert!((stats.capacity_used_percent() as f64 / 1000.0 - 100.0).abs() < 0.01);

    let stats = AfterburnerStats {
        streams_capacity: 23,
        streams_active: 10,
        ..Default::default()
    };
    let expected = (10.0 / 23.0) * 100.0;
    assert!((stats.capacity_used_percent() as f64 / 1000.0 - expected).abs() < 0.01);
}

#[test]
fn test_stats_capacity_used_percent_zero_capacity() {
    let stats = AfterburnerStats {
        streams_capacity: 0,
        streams_active: 5,
        ..Default::default()
    };
    assert!((stats.capacity_used_percent() as f64 / 1000.0 - 0.0).abs() < 0.01);
}

#[test]
fn test_stats_temperature_safe() {
    let stats = AfterburnerStats::default();
    assert!(stats.is_temperature_safe().is_none());

    let stats = AfterburnerStats {
        temperature_celsius: Some(65_000),
        ..Default::default()
    };
    assert_eq!(stats.is_temperature_safe(), Some(true));

    let stats = AfterburnerStats {
        temperature_celsius: Some(105_000),
        ..Default::default()
    };
    assert_eq!(stats.is_temperature_safe(), Some(false));

    let stats = AfterburnerStats {
        temperature_celsius: Some(100_000),
        ..Default::default()
    };
    assert_eq!(stats.is_temperature_safe(), Some(false));
}

#[test]
fn test_prores_codec_display() {
    assert_eq!(ProResCodec::ProRes422.name(), "ProRes 422");
    assert_eq!(ProResCodec::ProRes422HQ.name(), "ProRes 422 HQ");
    assert_eq!(ProResCodec::ProRes422LT.name(), "ProRes 422 LT");
    assert_eq!(ProResCodec::ProRes422Proxy.name(), "ProRes 422 Proxy");
    assert_eq!(ProResCodec::ProRes4444.name(), "ProRes 4444");
    assert_eq!(ProResCodec::ProRes4444XQ.name(), "ProRes 4444 XQ");
    assert_eq!(ProResCodec::ProResRAW.name(), "ProRes RAW");
    assert_eq!(ProResCodec::ProResRAWHQ.name(), "ProRes RAW HQ");
}

#[test]
fn test_prores_codec_equality() {
    assert_eq!(ProResCodec::ProRes422, ProResCodec::ProRes422);
    assert_ne!(ProResCodec::ProRes422, ProResCodec::ProRes4444);
}

#[test]
fn test_prores_codec_hash() {
    let mut map = HashMap::new();
    map.insert(ProResCodec::ProRes422, 5);
    map.insert(ProResCodec::ProRes4444, 3);
    assert_eq!(map.get(&ProResCodec::ProRes422), Some(&5));
    assert_eq!(map.get(&ProResCodec::ProRes4444), Some(&3));
}

#[test]
fn test_stats_clone() {
    let stats = AfterburnerStats {
        streams_active: 10,
        streams_capacity: 23,
        utilization_percent: 45_500,
        throughput_fps: 120_000,
        temperature_celsius: Some(65_000),
        power_watts: Some(25_000),
        codec_breakdown: Vec::new(),
    };
    let cloned = stats.clone();
    assert_eq!(stats.streams_active, cloned.streams_active);
    assert_eq!(stats.streams_capacity, cloned.streams_capacity);
}

#[test]
fn test_stats_debug() {
    let stats = AfterburnerStats::default();
    let debug = format!("{stats:?}");
    assert!(debug.contains("AfterburnerStats"));
    assert!(debug.contains("streams_active"));
}

#[test]
fn test_convert_raw_stats_clamps_utilization() {
    let raw = AfterburnerRawStats {
        streams_active: 5,
        streams_capacity: 23,
        utilization: 150_000,
        throughput_fps: 100_000,
        temperature: Some(65_000),
        power: Some(25_000),
    };
    let stats = convert_raw_stats(&raw);
    assert!((stats.utilization_percent as f64 / 1000.0 - 100.0).abs() < 0.01);
}

#[test]
fn test_convert_raw_stats_clamps_negative_utilization() {
    let raw = AfterburnerRawStats {
        streams_active: 0,
        streams_capacity: 23,
        utilization: -10_000,
        throughput_fps: 0,
        temperature: None,
        power: None,
    };
    let stats = convert_raw_stats(&raw);
    assert!((stats.utilization_percent as f64 / 1000.0 - 0.0).abs() < 0.01);
}

#[test]
fn test_convert_raw_stats_filters_invalid_temperature() {
    let raw = AfterburnerRawStats {
        temperature: Some(-10_000),
        ..Default::default()
    };
    let stats = convert_raw_stats(&raw);
    assert!(stats.temperature_celsius.is_none());

    let raw2 = AfterburnerRawStats {
        temperature: Some(200_000),
        ..Default::default()
    };
    let stats2 = convert_raw_stats(&raw2);
    assert!(stats2.temperature_celsius.is_none());
}

#[test]
fn test_convert_raw_stats_filters_invalid_power() {
    let raw = AfterburnerRawStats {
        power: Some(-5_000),
        ..Default::default()
    };
    let stats = convert_raw_stats(&raw);
    assert!(stats.power_watts.is_none());

    let raw2 = AfterburnerRawStats {
        power: Some(600_000),
        ..Default::default()
    };
    let stats2 = convert_raw_stats(&raw2);
    assert!(stats2.power_watts.is_none());
}

#[test]
fn test_convert_raw_stats_boundary_temperatures() {
    let zero = AfterburnerRawStats {
        temperature: Some(0),
        ..Default::default()
    };
    assert!(convert_raw_stats(&zero).temperature_celsius.is_none());

    let top = AfterburnerRawStats {
        temperature: Some(150_000),
        ..Default::default()
    };
    assert!(convert_raw_stats(&top).temperature_celsius.is_none());

    let inside = AfterburnerRawStats {
        temperature: Some(149_999),
        ..Default::default()
    };
    assert_eq!(
        convert_raw_stats(&inside).temperature_celsius,
        Some(149_999)
    );
}

#[test]
fn test_is_available_static() {
    let _ = AfterburnerMonitor::is_available();
    let _ = manzana::afterburner::is_available();
}

#[test]
fn test_rapid_stats_creation() {
    for _ in 0..1000 {
        let stats = AfterburnerStats::default();
        assert!(!stats.is_active());
    }
}

fn entry(class_name: &str, service_id: u32, properties: Vec<(String, PropValue)>) -> RegistryEntry {
    RegistryEntry {
        class_name: class_name.to_string(),
        service_id,
        query_status: 0,
        properties_present: true,
        properties,
    }
}

#[test]
fn test_from_registry_reads_properties() {
    let registry = ServiceRegistry {
        entries: vec![entry(
            "AppleAfterburner",
            7,
            vec![
                ("StreamsActive".to_string(), PropValue::Int(5)),
                ("Utilization".to_string(), PropValue::Num(45_500)),
                ("Temperature".to_string(), PropValue::Num(65_000)),
            ],
        )],
    };
    let monitor = AfterburnerMonitor::from_registry(&registry).expect("service is registered");
    let stats = monitor.stats().expect("query succeeds");
    assert_eq!(stats.streams_active, 5);
    assert_eq!(stats.streams_capacity, 23);
    assert_eq!(stats.utilization_percent, 45_500);
    assert_eq!(stats.temperature_celsius, Some(65_000));
    assert!(stats.power_watts.is_none());
}

#[test]
fn test_find_prefers_candidate_name_order() {
    let registry = ServiceRegistry {
        entries: vec![
            entry(
                "AFBAccelerator",
                1,
                vec![("StreamsActive".to_string(), PropValue::Int(1))],
            ),
            entry(
                "AppleProResAccelerator",
                2,
                vec![("StreamsActive".to_string(), PropValue::Int(2))],
            ),
        ],
    };
    let monitor = AfterburnerMonitor::from_registry(&registry).expect("services are registered");
    let stats = monitor.stats().expect("query succeeds");
    assert_eq!(
        stats.streams_active, 2,
        "the preferred class name wins over registry order"
    );
}

#[test]
fn test_zero_sentinel_skips_to_next_candidate() {
    let registry = ServiceRegistry {
        entries: vec![
            entry("AppleProResAccelerator", 0, Vec::new()),
            entry(
                "AFBAccelerator",
                3,
                vec![("StreamsActive".to_string(), PropValue::Int(4))],
            ),
        ],
    };
    let monitor = AfterburnerMonitor::from_registry(&registry).expect("a real service exists");
    let stats = monitor.stats().expect("query succeeds");
    assert_eq!(stats.streams_active, 4);
}

#[test]
fn test_from_registry_none_when_absent() {
    let registry = ServiceRegistry {
        entries: vec![entry("SomeOtherService", 9, Vec::new())],
    };
    assert!(AfterburnerMonitor::from_registry(&registry).is_none());
    assert!(!AfterburnerMonitor::available_in(&registry));
}

#[test]
fn test_empty_property_store_yields_defaults() {
    let registry = ServiceRegistry {
        entries: vec![entry("AppleAfterburner", 5, Vec::new())],
    };
    let monitor = AfterburnerMonitor::from_registry(&registry).expect("service is registered");
    let stats = monitor.stats().expect("an empty property store is not an error");
    assert_eq!(stats.streams_active, 0);
    assert_eq!(stats.streams_capacity, 23);
    assert!(stats.temperature_celsius.is_none());
}

#[test]
fn test_failing_query_reports_status_code() {
    let registry = ServiceRegistry {
        entries: vec![RegistryEntry {
            class_name: "AppleAfterburner".to_string(),
            service_id: 5,
            query_status: -536_870_206,
            properties_present: true,
            properties: Vec::new(),
        }],
    };
    let monitor = AfterburnerMonitor::from_registry(&registry).expect("service is registered");
    let err = monitor.stats().expect_err("query fails");
    assert_eq!(err.error_code(), Some(-536_870_206));
}

#[test]
fn test_null_property_store_is_an_error() {
    let registry = ServiceRegistry {
        entries: vec![RegistryEntry {
            class_name: "AppleAfterburner".to_string(),
            service_id: 5,
            query_status: 0,
            properties_present: false,
            properties: Vec::new(),
        }],
    };
    let monitor = AfterburnerMonitor::from_registry(&registry).expect("service is registered");
    let err = monitor.stats().expect_err("a null property store is an error");
    assert_eq!(err.error_code(), Some(0));
}

#[test]
fn test_query_once_releases_exactly_once_on_success() {
    let registry = ServiceRegistry {
        entries: vec![entry(
            "AppleAfterburner",
            7,
            vec![("StreamsActive".to_string(), PropValue::Int(3))],
        )],
    };
    let (handle, result) = query_once(&registry).expect("service is registered");
    assert_eq!(handle.release_count(), 1);
    assert_eq!(result.expect("query succeeds").streams_active, 3);
}

#[test]
fn test_query_once_releases_exactly_once_on_error() {
    let registry = ServiceRegistry {
        entries: vec![RegistryEntry {
            class_name: "AppleAfterburner".to_string(),
            service_id: 7,
            query_status: -1,
            properties_present: true,
            properties: Vec::new(),
        }],
    };
    let (handle, result) = query_once(&registry).expect("service is registered");
    assert_eq!(
        handle.release_count(),
        1,
        "the handle is released on the error path too"
    );
    let err = result.expect_err("query fails");
    assert_eq!(err.error_code(), Some(-1));
}

#[test]
fn test_release_is_idempotent() {
    let registry = ServiceRegistry {
        entries: vec![entry("AppleAfterburner", 7, Vec::new())],
    };
    let mut monitor = AfterburnerMonitor::from_registry(&registry).expect("service is registered");
    assert_eq!(monitor.release_count(), 0);
    monitor.release();
    assert_eq!(monitor.release_count(), 1);
    monitor.release();
    assert_eq!(monitor.release_count(), 1, "a second release is a no-op");
}
