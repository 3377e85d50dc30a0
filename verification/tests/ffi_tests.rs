use manzana::ffi::iokit::afterburner_service_names;
use manzana::ffi::iokit::find_afterburner_service;
use manzana::ffi::iokit::get_milli_property;
use manzana::ffi::iokit::get_u32_property;
use manzana::ffi::iokit::parse_afterburner_properties;
use manzana::ffi::iokit::AfterburnerRawStats;
use manzana::ffi::iokit::PropValue;
use manzana::ffi::iokit::ServiceRegistry;
use manzana::ffi::security::is_secure_enclave_available;
use manzana::ffi::security::KeyAttributes;
use manzana::ffi::security::SecError;

#[test]
fn test_service_names_not_empty() {
    assert!(!afterburner_service_names().is_empty());
}

#[test]
fn test_find_afterburner_graceful_on_missing() {
    let result = find_afterburner_service(&ServiceRegistry::empty());
    drop(result);
}

#[test]
fn test_raw_stats_default() {
    let stats = AfterburnerRawStats::default();
    assert_eq!(stats.streams_active, 0);
    assert_eq!(stats.streams_capacity, 0);
    assert_eq!(stats.utilization, 0);
    assert_eq!(stats.throughput_fps, 0);
    assert!(stats.temperature.is_none());
    assert!(stats.power.is_none());
}

#[test]
fn test_raw_stats_clone() {
    let stats = AfterburnerRawStats {
        streams_active: 5,
        streams_capacity: 23,
        utilization: 45_500,
        throughput_fps: 120_000,
        temperature: Some(65_000),
        power: Some(25_000),
    };
    let cloned = stats.clone();
    assert_eq!(stats.streams_active, cloned.streams_active);
    assert_eq!(stats.streams_capacity, cloned.streams_capacity);
}

#[test]
fn test_raw_stats_debug() {
    let stats = AfterburnerRawStats::default();
    let debug = format!("{stats:?}");
    assert!(debug.contains("AfterburnerRawStats"));
}

#[test]
fn test_module_compiles() {
    let _ = AfterburnerRawStats::default();
}

#[test]
fn test_property_lookup_by_type() {
    let props = vec![
        ("StreamsActive".to_string(), PropValue::Int(5)),
        ("Utilization".to_string(), PropValue::Num(45_500)),
        ("Broken".to_string(), PropValue::Int(-3)),
    ];
    assert_eq!(get_u32_property(&props, "StreamsActive"), Some(5));
    assert_eq!(get_u32_property(&props, "Missing"), None);
    assert_eq!(
        get_u32_property(&props, "Utilization"),
        None,
        "a decimal-typed value is not an integer property"
    );
    assert_eq!(
        get_u32_property(&props, "Broken"),
        None,
        "a negative value does not fit a u32"
    );
    assert_eq!(get_milli_property(&props, "Utilization"), Some(45_500));
    assert_eq!(get_milli_property(&props, "StreamsActive"), None);
}

#[test]
fn test_parse_properties_defaults() {
    let parsed = parse_afterburner_properties(&Vec::new());
    assert_eq!(parsed.streams_active, 0);
    assert_eq!(parsed.streams_capacity, 23);
    assert_eq!(parsed.utilization, 0);
    assert_eq!(parsed.throughput_fps, 0);
    assert!(parsed.temperature.is_none());
    assert!(parsed.power.is_none());
}

#[test]
fn test_parse_properties_reads_fields() {
    let props = vec![
        ("StreamsActive".to_string(), PropValue::Int(6)),
        ("StreamsCapacity".to_string(), PropValue::Int(6)),
        ("Utilization".to_string(), PropValue::Num(99_900)),
        ("ThroughputFPS".to_string(), PropValue::Num(240_000)),
        ("Temperature".to_string(), PropValue::Num(71_250)),
        ("PowerWatts".to_string(), PropValue::Num(180_000)),
    ];
    let parsed = parse_afterburner_properties(&props);
    assert_eq!(parsed.streams_active, 6);
    assert_eq!(parsed.streams_capacity, 6);
    assert_eq!(parsed.utilization, 99_900);
    assert_eq!(parsed.throughput_fps, 240_000);
    assert_eq!(parsed.temperature, Some(71_250));
    assert_eq!(parsed.power, Some(180_000));
}

#[test]
fn test_is_secure_enclave_available() {
    assert!(!is_secure_enclave_available());
}

#[test]
fn test_key_attributes_default() {
    let attrs = KeyAttributes::default();
    assert!(attrs.tag.is_empty());
    assert!(attrs.can_sign);
    assert!(!attrs.can_encrypt);
    assert!(!attrs.extractable);
}

#[test]
fn test_sec_error_from_os_status() {
    assert_eq!(SecError::from_os_status(0), Some(SecError::Success));
    assert_eq!(SecError::from_os_status(-25300), Some(SecError::ItemNotFound));
    assert_eq!(SecError::from_os_status(-128), Some(SecError::UserCanceled));
    assert_eq!(SecError::from_os_status(99999), None);
}

#[test]
fn test_sec_error_code_round_trip() {
    let known = [
        SecError::Success,
        SecError::ItemNotFound,
        SecError::DuplicateItem,
        SecError::InteractionNotAllowed,
        SecError::AuthFailed,
        SecError::InvalidKey,
        SecError::UserCanceled,
    ];
    for e in known {
        assert_eq!(SecError::from_os_status(e.code()), Some(e));
    }
}
