use manzana::error::Error;
use manzana::error::Subsystem;
use manzana::AfterburnerStats;
use manzana::ProResCodec;
use manzana::VERSION;

#[test]
fn test_version_not_empty() {
    assert!(!VERSION.is_empty());
}

#[test]
fn test_version_semver_format() {
    let parts: Vec<&str> = VERSION.split('.').collect();
    assert!(parts.len() >= 2, "Version should have at least major.minor");
    for part in parts {
        assert!(
            part.chars().all(|c| c.is_ascii_digit()),
            "Version parts should be numeric"
        );
    }
}

#[test]
fn test_is_macos_consistent() {
    let _ = manzana::is_macos();
}

#[test]
fn test_is_macos_platform_detection() {
    assert!(
        !manzana::is_macos(),
        "Should not detect macOS on other platforms"
    );
}

#[test]
fn test_is_acceleration_available_no_panic() {
    let _ = manzana::is_acceleration_available();
}

#[test]
fn test_is_acceleration_available_no_crash() {
    let _ = manzana::is_acceleration_available();
}

#[test]
fn test_error_reexport() {
    let err = Error::not_available(Subsystem::Afterburner);
    assert!(err.is_not_available());
}

#[test]
fn test_afterburner_reexport() {
    let stats = AfterburnerStats::default();
    assert!(!stats.is_active());
}

#[test]
fn test_prores_codec_reexport() {
    let codec = ProResCodec::ProRes422;
    assert_eq!(codec.name(), "ProRes 422");
}

#[test]
fn test_acceleration_available_aggregates_all() {
    let expected = manzana::afterburner::is_available()
        || manzana::neural_engine::is_available()
        || manzana::metal::is_available()
        || manzana::secure_enclave::is_available()
        || manzana::unified_memory::is_available();
    assert_eq!(manzana::is_acceleration_available(), expected);
}

#[test]
fn test_all_subsystems_have_availability_check() {
    let _ = manzana::afterburner::is_available();
    let _ = manzana::neural_engine::is_available();
    let _ = manzana::metal::is_available();
    let _ = manzana::secure_enclave::is_available();
    let _ = manzana::unified_memory::is_available();
}
