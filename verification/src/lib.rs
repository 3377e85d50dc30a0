//! Safe, verified interfaces to Apple hardware subsystems.
//!
//! Each hardware subsystem (the Afterburner FPGA, the Neural Engine, the
//! Metal GPU, the Secure Enclave and the unified-memory region) is exposed
//! through a monitor or resource type with an availability probe.  Hardware
//! that is absent is reported as `None`, never as an error, so callers can
//! degrade gracefully.  Live platform lookups and process I/O are performed
//! by the embedding program; the library holds the logic that interprets
//! their results.

use vstd::prelude::*;

pub mod afterburner;
pub mod error;
pub mod ffi;
pub mod metal;
pub mod neural_engine;
pub mod secure_enclave;
pub mod text;
pub mod unified_memory;

pub use afterburner::AfterburnerMonitor;
pub use afterburner::AfterburnerStats;
pub use afterburner::ProResCodec;
pub use error::Error;
pub use error::Subsystem;
pub use metal::CompiledShader;
pub use metal::MetalBuffer;
pub use metal::MetalCompute;
pub use metal::MetalDevice;
pub use neural_engine::AneCapabilities;
pub use neural_engine::AneOp;
pub use neural_engine::NeuralEngineSession;
pub use neural_engine::Tensor;
pub use secure_enclave::AccessControl;
pub use secure_enclave::Algorithm;
pub use secure_enclave::KeyConfig;
pub use secure_enclave::PublicKey;
pub use secure_enclave::SecureEnclaveSigner;
pub use secure_enclave::Signature;
pub use unified_memory::UmaBuffer;

verus! {

/// Library version.
pub const VERSION: &'static str = "0.1.0";

/// Check if this build is running on macOS.
///
/// This build does not target macOS, so the probe reports `false`.
pub fn is_macos() -> (r: bool)
    ensures
        !r,
{
    false
}

/// Check if any hardware acceleration subsystem is accessible: true when
/// at least one of the per-subsystem probes reports presence.  On this
/// build every probe reports absence, so the aggregate probe reports
/// `false`.
pub fn is_acceleration_available() -> (r: bool)
    ensures
        !r,
{
    afterburner::is_available() || neural_engine::is_available() || metal::is_available()
        || secure_enclave::is_available() || unified_memory::is_available()
}

} // verus!
