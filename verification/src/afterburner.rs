//! Afterburner video-accelerator monitoring.
//!
//! The Afterburner is an FPGA-based accelerator for ProRes video codecs.
//! A monitor owns a handle to the platform service and projects its raw,
//! unchecked readings into a range-validated snapshot: utilization is
//! clamped, throughput is floored at zero, and a clearly impossible
//! temperature or power reading becomes "absent" rather than corrupting
//! the snapshot.
//!
//! Decimal quantities are carried in thousandths: one unit of
//! `utilization_percent` is 0.001 of a percent, one unit of
//! `temperature_celsius` is 0.001 of a degree.

use vstd::prelude::*;

use crate::error::Error;
use crate::ffi::iokit::chosen_service;
use crate::ffi::iokit::find_afterburner_service;
use crate::ffi::iokit::spec_handle_of;
use crate::ffi::iokit::spec_parse_properties;
use crate::ffi::iokit::AfterburnerRawStats;
use crate::ffi::iokit::AfterburnerService;
use crate::ffi::iokit::RegistryEntry;
use crate::ffi::iokit::ServiceRegistry;

verus! {

/// ProRes codec types supported by the Afterburner.
#[derive(Clone, Copy, Debug, PartialEq, Eq, Hash, Structural)]
pub enum ProResCodec {
    /// ProRes 422 (standard quality).
    ProRes422,
    /// ProRes 422 HQ (high quality).
    ProRes422HQ,
    /// ProRes 422 LT (light, smaller files).
    ProRes422LT,
    /// ProRes 422 Proxy (offline editing).
    ProRes422Proxy,
    /// ProRes 4444 (with alpha channel).
    ProRes4444,
    /// ProRes 4444 XQ (extreme quality with alpha).
    ProRes4444XQ,
    /// ProRes RAW.
    ProResRAW,
    /// ProRes RAW HQ (high quality RAW).
    ProResRAWHQ,
}

/// Display name of a codec.
pub open spec fn spec_codec_name(c: ProResCodec) -> Seq<char> {
    match c {
        ProResCodec::ProRes422 => "ProRes 422"@,
        ProResCodec::ProRes422HQ => "ProRes 422 HQ"@,
        ProResCodec::ProRes422LT => "ProRes 422 LT"@,
        ProResCodec::ProRes422Proxy => "ProRes 422 Proxy"@,
        ProResCodec::ProRes4444 => "ProRes 4444"@,
        ProResCodec::ProRes4444XQ => "ProRes 4444 XQ"@,
        ProResCodec::ProResRAW => "ProRes RAW"@,
        ProResCodec::ProResRAWHQ => "ProRes RAW HQ"@,
    }
}

impl ProResCodec {
    /// Human-readable display name.
    pub fn name(&self) -> (r: String)
        ensures
            r@ == spec_codec_name(*self),
    {
        match self {
            ProResCodec::ProRes422 => "ProRes 422".to_owned(),
            ProResCodec::ProRes422HQ => "ProRes 422 HQ".to_owned(),
            ProResCodec::ProRes422LT => "ProRes 422 LT".to_owned(),
            ProResCodec::ProRes422Proxy => "ProRes 422 Proxy".to_owned(),
            ProResCodec::ProRes4444 => "ProRes 4444".to_owned(),
            ProResCodec::ProRes4444XQ => "ProRes 4444 XQ".to_owned(),
            ProResCodec::ProResRAW => "ProRes RAW".to_owned(),
            ProResCodec::ProResRAWHQ => "ProRes RAW HQ".to_owned(),
        }
    }
}

/// Validated statistics snapshot of the Afterburner.
///
/// Every field satisfies its own range independently; see
/// [`spec_stats_wf`].  Decimal quantities are in thousandths.
#[derive(Clone, Debug)]
pub struct AfterburnerStats {
    /// Number of active decode streams.
    pub streams_active: u32,
    /// Maximum concurrent stream capacity.
    pub streams_capacity: u32,
    /// Utilization, in thousandths of a percent; at most 100000.
    pub utilization_percent: u32,
    /// Throughput, in thousandths of a frame per second.
    pub throughput_fps: u64,
    /// Temperature in thousandths of a degree Celsius, strictly between
    /// 0 and 150000, or absent.
    pub temperature_celsius: Option<i64>,
    /// Power draw in thousandths of a watt, strictly between 0 and
    /// 500000, or absent.
    pub power_watts: Option<i64>,
    /// Breakdown of active streams by codec type; keys are unique.
    pub codec_breakdown: Vec<(ProResCodec, u32)>,
}

/// The range invariants of a projected snapshot: utilization within
/// [0, 100000] thousandths of a percent, temperature within (0, 150000)
/// thousandths of a degree or absent, power within (0, 500000) thousandths
/// of a watt or absent, and unique codec keys.
pub open spec fn spec_stats_wf(s: AfterburnerStats) -> bool {
    &&& s.utilization_percent <= 100_000
    &&& (s.temperature_celsius matches Some(t) ==> 0 < t < 150_000)
    &&& (s.power_watts matches Some(p) ==> 0 < p < 500_000)
    &&& forall|i: int, j: int|
        0 <= i < j < s.codec_breakdown@.len() ==> s.codec_breakdown@[i].0
            != s.codec_breakdown@[j].0
}

/// Utilization clamped to [0, 100000] thousandths of a percent.
pub open spec fn spec_clamp_utilization(u: i64) -> u32 {
    if u < 0 {
        0u32
    } else if u > 100_000 {
        100_000u32
    } else {
        u as u32
    }
}

/// Throughput floored at zero.
pub open spec fn spec_floor_throughput(t: i64) -> u64 {
    if t < 0 {
        0u64
    } else {
        t as u64
    }
}

/// A sensor reading passed through only when strictly inside
/// `(0, bound)`; anything else is treated as absent.
pub open spec fn spec_filter_reading(reading: Option<i64>, bound: i64) -> Option<i64> {
    match reading {
        Some(v) => if 0 < v < bound {
            Some(v)
        } else {
            None
        },
        None => None,
    }
}

/// Snapshot `s` is the projection of the raw readings `raw`: counts are
/// copied, utilization is clamped, throughput is floored at zero, and
/// out-of-range temperature and power readings become absent.
pub open spec fn spec_projects(raw: AfterburnerRawStats, s: AfterburnerStats) -> bool {
    &&& s.streams_active == raw.streams_active
    &&& s.streams_capacity == raw.streams_capacity
    &&& s.utilization_percent == spec_clamp_utilization(raw.utilization)
    &&& s.throughput_fps == spec_floor_throughput(raw.throughput_fps)
    &&& s.temperature_celsius == spec_filter_reading(raw.temperature, 150_000)
    &&& s.power_watts == spec_filter_reading(raw.power, 500_000)
    &&& s.codec_breakdown@.len() == 0
}

impl Default for AfterburnerStats {
    /// An idle snapshot: no active streams, the nominal capacity of 23,
    /// and no sensor readings.
    fn default() -> (r: AfterburnerStats)
        ensures
            r.streams_active == 0,
            r.streams_capacity == 23,
            r.utilization_percent == 0,
            r.throughput_fps == 0,
            r.temperature_celsius is None,
            r.power_watts is None,
            r.codec_breakdown@.len() == 0,
            spec_stats_wf(r),
    {
        AfterburnerStats {
            streams_active: 0,
            streams_capacity: 23,
            utilization_percent: 0,
            throughput_fps: 0,
            temperature_celsius: None,
            power_watts: None,
            codec_breakdown: Vec::new(),
        }
    }
}

/// The share of capacity in use, in thousandths of a percent: exactly 0
/// when the capacity is 0.
pub open spec fn spec_capacity_used(active: u32, capacity: u32) -> int {
    if capacity == 0 {
        0
    } else {
        (active * 100_000) / (capacity as int)
    }
}

impl AfterburnerStats {
    /// Check if the Afterburner is currently processing video: true
    /// exactly when at least one stream is active.
    pub fn is_active(&self) -> (r: bool)
        ensures
            r == (self.streams_active > 0),
    {
        self.streams_active > 0
    }

    /// The share of capacity in use, in thousandths of a percent.
    ///
    /// Exactly 0 when the capacity is 0: a device with no capacity has
    /// none of it in use, and the query must not fail.
    pub fn capacity_used_percent(&self) -> (r: u64)
        ensures
            r == spec_capacity_used(self.streams_active, self.streams_capacity),
    {
        if self.streams_capacity == 0 {
            0
        } else {
            ((self.streams_active as u64) * 100_000) / (self.streams_capacity as u64)
        }
    }

    /// Check if the temperature is within the safe operating range
    /// (strictly below 100 degrees).
    ///
    /// `None` when no reading is recorded: absent data is never reported
    /// as safe.
    pub fn is_temperature_safe(&self) -> (r: Option<bool>)
        ensures
            r == match self.temperature_celsius {
                Some(t) => Some(t < 100_000),
                None => None::<bool>,
            },
    {
        match self.temperature_celsius {
            Some(t) => Some(t < 100_000),
            None => None,
        }
    }
}

/// Project raw readings into a validated snapshot, field by field: one
/// glitchy reading never corrupts the rest of the snapshot, and every
/// projected field is inside its range.
pub fn convert_raw_stats(raw: &AfterburnerRawStats) -> (r: AfterburnerStats)
    ensures
        spec_projects(*raw, r),
        spec_stats_wf(r),
{
    let utilization_percent: u32 = if raw.utilization < 0 {
        0
    } else if raw.utilization > 100_000 {
        100_000
    } else {
        raw.utilization as u32
    };
    let throughput_fps: u64 = if raw.throughput_fps < 0 {
        0
    } else {
        raw.throughput_fps as u64
    };
    let temperature_celsius = match raw.temperature {
        Some(t) => if 0 < t && t < 150_000 {
            Some(t)
        } else {
            None
        },
        None => None,
    };
    let power_watts = match raw.power {
        Some(p) => if 0 < p && p < 500_000 {
            Some(p)
        } else {
            None
        },
        None => None,
    };
    AfterburnerStats {
        streams_active: raw.streams_active,
        streams_capacity: raw.streams_capacity,
        utilization_percent,
        throughput_fps,
        temperature_celsius,
        power_watts,
        codec_breakdown: Vec::new(),
    }
}

/// Monitor for the Afterburner accelerator.
///
/// Provides read-only access to the accelerator's statistics.  The monitor
/// owns its service handle and is confined to the context that created it.
#[derive(Debug)]
pub struct AfterburnerMonitor {
    service: AfterburnerService,
}

proof fn lemma_chosen_none_on_empty(entries: Seq<RegistryEntry>, names: Seq<Seq<char>>, i: int)
    requires
        entries.len() == 0,
    ensures
        crate::ffi::iokit::chosen_entry_from(entries, names, i) is None,
    decreases names.len() - i,
{
    if 0 <= i < names.len() {
        lemma_chosen_none_on_empty(entries, names, i + 1);
    }
}

proof fn lemma_chosen_nonzero(entries: Seq<RegistryEntry>, names: Seq<Seq<char>>, i: int)
    ensures
        crate::ffi::iokit::chosen_entry_from(entries, names, i) matches Some(e) ==> e.service_id
            != 0,
    decreases names.len() - i,
{
    if 0 <= i < names.len() {
        lemma_chosen_nonzero(entries, names, i + 1);
    }
}

impl AfterburnerMonitor {
    /// Attempt to connect to the Afterburner.
    ///
    /// The live platform registry is I/O performed by the embedding
    /// program; with none presented, the lookup consults an empty registry
    /// and finds nothing, so this always reports the hardware as absent —
    /// `None`, not an error.
    pub fn new() -> (r: Option<AfterburnerMonitor>)
        ensures
            r is None,
    {
        let registry = ServiceRegistry::empty();
        proof {
            lemma_chosen_none_on_empty(
                registry.entries@,
                crate::ffi::iokit::spec_service_names(),
                0,
            );
        }
        match find_afterburner_service(&registry) {
            Some(service) => Some(AfterburnerMonitor { service }),
            None => None,
        }
    }

    /// The service handle this monitor owns, as seen by specifications.
    pub closed spec fn spec_service(&self) -> AfterburnerService {
        self.service
    }

    /// Connect to the Afterburner service recorded in `registry`.
    ///
    /// `None` when no candidate class name matches: absence of the
    /// hardware is an expected state, not an error.
    pub fn from_registry(registry: &ServiceRegistry) -> (r: Option<AfterburnerMonitor>)
        ensures
            match chosen_service(registry.entries@) {
                Some(e) => r matches Some(m) && spec_handle_of(m.spec_service(), e),
                None => r is None,
            },
    {
        match find_afterburner_service(registry) {
            Some(service) => Some(AfterburnerMonitor { service }),
            None => None,
        }
    }

    /// Query current accelerator statistics, projected into a validated
    /// snapshot.
    ///
    /// Fails only for a genuine query failure, with the platform's status
    /// code; an idle accelerator yields a default (all-idle) snapshot.
    pub fn stats(&self) -> (r: Result<AfterburnerStats, Error>)
        ensures
            self.spec_service().spec_status() != 0 ==> (r matches Err(e) && e matches
                Error::IoKit { code, .. } && code == self.spec_service().spec_status()),
            self.spec_service().spec_status() == 0 && !self.spec_service().spec_properties_present()
                ==> (r matches Err(e) && e matches Error::IoKit { code, .. } && code == 0),
            self.spec_service().spec_status() == 0 && self.spec_service().spec_properties_present()
                ==> (r matches Ok(s) && spec_projects(
                spec_parse_properties(self.spec_service().spec_properties()),
                s,
            ) && spec_stats_wf(s)),
    {
        let raw = match self.service.get_stats() {
            Ok(raw) => raw,
            Err(e) => {
                return Err(e);
            },
        };
        Ok(convert_raw_stats(&raw))
    }

    /// Check if the accelerator is actively processing video: the stats
    /// query, reduced to its stream count.
    pub fn is_active(&self) -> (r: Result<bool, Error>)
        ensures
            self.spec_service().spec_status() == 0 && self.spec_service().spec_properties_present()
                ==> (r matches Ok(b) && b == (spec_parse_properties(
                self.spec_service().spec_properties(),
            ).streams_active > 0)),
            r matches Err(_) ==> (self.spec_service().spec_status() != 0
                || !self.spec_service().spec_properties_present()),
    {
        let stats = match self.stats() {
            Ok(stats) => stats,
            Err(e) => {
                return Err(e);
            },
        };
        Ok(stats.is_active())
    }

    /// Release the owned service handle.  Idempotent: the underlying
    /// release fires at most once.
    pub fn release(&mut self)
        ensures
            final(self).spec_service() == old(self).spec_service().spec_release(),
            final(self).spec_service().spec_release_count()
                == crate::ffi::iokit::spec_release_count_after(old(self).spec_service()),
    {
        self.service.release();
    }

    /// How often the owned handle's underlying resource has been released.
    pub fn release_count(&self) -> (r: u32)
        ensures
            r == self.spec_service().spec_release_count(),
    {
        self.service.release_count()
    }

    /// Check if Afterburner hardware is available, without creating a
    /// monitor.  With no live registry presented, this reports `false`.
    pub fn is_available() -> (r: bool)
        ensures
            !r,
    {
        let registry = ServiceRegistry::empty();
        proof {
            lemma_chosen_none_on_empty(
                registry.entries@,
                crate::ffi::iokit::spec_service_names(),
                0,
            );
        }
        match find_afterburner_service(&registry) {
            Some(_) => true,
            None => false,
        }
    }

    /// Check if the Afterburner service is recorded in `registry`.  Never
    /// fails: any reading that would fail is reported as "not available".
    pub fn available_in(registry: &ServiceRegistry) -> (r: bool)
        ensures
            r == (chosen_service(registry.entries@) is Some),
    {
        match find_afterburner_service(registry) {
            Some(_) => true,
            None => false,
        }
    }
}

/// Find the Afterburner service in `registry`, query its statistics once,
/// and release the handle before returning, on the success path and on
/// every error path alike.
///
/// The returned handle is the released one, so callers — and tests with
/// instrumented registries — can observe that its underlying release fired
/// exactly once.
pub fn query_once(registry: &ServiceRegistry) -> (r: Option<
    (AfterburnerService, Result<AfterburnerStats, Error>),
>)
    ensures
        match chosen_service(registry.entries@) {
            Some(e) => {
                &&& r matches Some((h, _)) && h.spec_release_count() == 1
                &&& r matches Some((h, _)) && h.spec_service_id() == e.service_id
                &&& e.query_status != 0 ==> (r matches Some((_, res)) && res matches Err(err) && err
                    matches Error::IoKit { code, .. } && code == e.query_status)
                &&& e.query_status == 0 && !e.properties_present ==> (r matches Some((_, res))
                    && res matches Err(err) && err matches Error::IoKit { code, .. } && code == 0)
                &&& e.query_status == 0 && e.properties_present ==> (r matches Some((_, res)) && res
                    matches Ok(s) && spec_projects(spec_parse_properties(e.properties@), s))
            },
            None => r is None,
        },
{
    proof {
        lemma_chosen_nonzero(registry.entries@, crate::ffi::iokit::spec_service_names(), 0);
    }
    let found = find_afterburner_service(registry);
    let mut service = match found {
        Some(service) => service,
        None => {
            return None;
        },
    };
    let result = match service.get_stats() {
        Ok(raw) => Ok(convert_raw_stats(&raw)),
        Err(e) => Err(e),
    };
    service.release();
    Some((service, result))
}

/// Check if Afterburner hardware is available; same answer as
/// [`AfterburnerMonitor::is_available`].
pub fn is_available() -> (r: bool)
    ensures
        !r,
{
    AfterburnerMonitor::is_available()
}

} // verus!
