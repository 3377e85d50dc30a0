//! Registry lookup and property queries for the Afterburner accelerator.
//!
//! A platform registry maps service class names to numbered services, each
//! with a property store of numeric values.  The library models the registry
//! as a value ([`ServiceRegistry`]) so that the search order, the ownership
//! of a found service and the parsing of its properties are all verified;
//! tests exercise the same logic on instrumented stub registries.
//!
//! Decimal-valued properties are carried in thousandths throughout
//! (one unit of [`PropValue::Num`] is 0.001 of the measured quantity).

use vstd::prelude::*;

use crate::error::Error;
use crate::text::str_eq;

verus! {

/// A numeric value in a service's property store: either integer-typed or
/// decimal-typed, the latter scaled to thousandths.
#[derive(Clone, Copy, Debug, PartialEq, Eq, Structural)]
pub enum PropValue {
    /// An integer-typed property.
    Int(i64),
    /// A decimal-typed property, in thousandths.
    Num(i64),
}

/// One service in the platform registry.
///
/// A `service_id` of zero is the platform's sentinel for an invalid
/// service: a lookup that reaches such an entry reports the service as
/// absent.  A non-zero `query_status` makes property queries fail with that
/// status code; `properties_present` is false when the platform returns no
/// property store at all (distinct from an empty one).
#[derive(Clone, Debug)]
pub struct RegistryEntry {
    /// Service class name under which lookups find this entry.
    pub class_name: String,
    /// Raw service reference; zero is the invalid sentinel.
    pub service_id: u32,
    /// Status code a property query returns; zero for success.
    pub query_status: i32,
    /// Whether the platform hands back a property store at all.
    pub properties_present: bool,
    /// The property store: keys with numeric values.
    pub properties: Vec<(String, PropValue)>,
}

/// The platform registry a lookup consults: the services it knows, in
/// registry order.
#[derive(Clone, Debug)]
pub struct ServiceRegistry {
    /// The registered services.
    pub entries: Vec<RegistryEntry>,
}

impl ServiceRegistry {
    /// A registry with no services, as presented by a platform without the
    /// native service layer.
    pub fn empty() -> (r: ServiceRegistry)
        ensures
            r.entries@.len() == 0,
    {
        ServiceRegistry { entries: Vec::new() }
    }
}

/// The first entry at or after position `i` whose class name is `name`.
pub open spec fn first_with_name_from(
    entries: Seq<RegistryEntry>,
    name: Seq<char>,
    i: int,
) -> Option<RegistryEntry>
    decreases entries.len() - i,
{
    if i < 0 || i >= entries.len() {
        None
    } else if entries[i].class_name@ == name {
        Some(entries[i])
    } else {
        first_with_name_from(entries, name, i + 1)
    }
}

/// What a lookup under one class name yields: the first entry of that name,
/// unless its service reference is the zero sentinel.
pub open spec fn lookup_service(entries: Seq<RegistryEntry>, name: Seq<char>) -> Option<
    RegistryEntry,
> {
    match first_with_name_from(entries, name, 0) {
        Some(e) => if e.service_id != 0 {
            Some(e)
        } else {
            None
        },
        None => None,
    }
}

/// The candidate class names for the Afterburner service, best match first.
pub open spec fn spec_service_names() -> Seq<Seq<char>> {
    seq!["AppleProResAccelerator"@, "AppleAfterburner"@, "AFBAccelerator"@]
}

/// The entry a lookup over the candidate names from position `i` on yields:
/// names are tried in order and the first hit wins.
pub open spec fn chosen_entry_from(
    entries: Seq<RegistryEntry>,
    names: Seq<Seq<char>>,
    i: int,
) -> Option<RegistryEntry>
    decreases names.len() - i,
{
    if i < 0 || i >= names.len() {
        None
    } else {
        match lookup_service(entries, names[i]) {
            Some(e) => Some(e),
            None => chosen_entry_from(entries, names, i + 1),
        }
    }
}

/// The entry the Afterburner lookup yields on a registry.
pub open spec fn chosen_service(entries: Seq<RegistryEntry>) -> Option<RegistryEntry> {
    chosen_entry_from(entries, spec_service_names(), 0)
}

/// The candidate class names for the Afterburner service, in the order in
/// which they are tried.
pub fn afterburner_service_names() -> (r: Vec<String>)
    ensures
        r@.len() == spec_service_names().len(),
        forall|i: int| 0 <= i < r@.len() ==> r@[i]@ == spec_service_names()[i],
{
    let mut names: Vec<String> = Vec::new();
    names.push("AppleProResAccelerator".to_owned());
    names.push("AppleAfterburner".to_owned());
    names.push("AFBAccelerator".to_owned());
    names
}

/// An owned reference to the Afterburner service.
///
/// The handle carries the data the platform exposes for the service, and an
/// instrumented count of how often the underlying resource was released:
/// [`AfterburnerService::release`] performs the release at most once, and a
/// handle found by a lookup starts unreleased.  The handle is confined to
/// the context that found it; it is not shared between threads.
#[derive(Debug)]
pub struct AfterburnerService {
    service_id: u32,
    query_status: i32,
    properties_present: bool,
    properties: Vec<(String, PropValue)>,
    releases: u32,
}

impl AfterburnerService {
    /// The raw service reference.
    pub closed spec fn spec_service_id(&self) -> u32 {
        self.service_id
    }

    /// The status code property queries report.
    pub closed spec fn spec_status(&self) -> i32 {
        self.query_status
    }

    /// Whether the platform hands back a property store.
    pub closed spec fn spec_properties_present(&self) -> bool {
        self.properties_present
    }

    /// The property store of the service.
    pub closed spec fn spec_properties(&self) -> Seq<(String, PropValue)> {
        self.properties@
    }

    /// How often the underlying resource has been released.
    pub closed spec fn spec_release_count(&self) -> u32 {
        self.releases
    }
}

/// The handle `h` is the one a lookup that hit entry `e` hands out.
pub open spec fn spec_handle_of(h: AfterburnerService, e: RegistryEntry) -> bool {
    &&& h.spec_service_id() == e.service_id
    &&& h.spec_status() == e.query_status
    &&& h.spec_properties_present() == e.properties_present
    &&& h.spec_properties() == e.properties@
    &&& h.spec_release_count() == 0
}

fn clone_properties(props: &Vec<(String, PropValue)>) -> (r: Vec<(String, PropValue)>)
    ensures
        r@ == props@,
{
    let mut out: Vec<(String, PropValue)> = Vec::new();
    let n = props.len();
    let mut i: usize = 0;
    while i < n
        invariant
            i <= n,
            n == props@.len(),
            out@ =~= props@.subrange(0, i as int),
        decreases n - i,
    {
        let pair = &props[i];
        out.push((pair.0.clone(), pair.1));
        i = i + 1;
    }
    proof {
        assert(out@ =~= props@);
    }
    out
}

/// Find the first service registered under `name`.
///
/// Yields `None` when no entry carries the name or the first such entry
/// holds the zero sentinel; otherwise an unreleased handle to that entry.
pub fn find_service_by_name(registry: &ServiceRegistry, name: &str) -> (r: Option<
    AfterburnerService,
>)
    ensures
        match lookup_service(registry.entries@, name@) {
            Some(e) => r matches Some(h) && spec_handle_of(h, e),
            None => r is None,
        },
{
    let n = registry.entries.len();
    let mut i: usize = 0;
    while i < n
        invariant
            i <= n,
            n == registry.entries@.len(),
            first_with_name_from(registry.entries@, name@, 0) == first_with_name_from(
                registry.entries@,
                name@,
                i as int,
            ),
        decreases n - i,
    {
        let entry = &registry.entries[i];
        if str_eq(entry.class_name.as_str(), name) {
            if entry.service_id != 0 {
                return Some(
                    AfterburnerService {
                        service_id: entry.service_id,
                        query_status: entry.query_status,
                        properties_present: entry.properties_present,
                        properties: clone_properties(&entry.properties),
                        releases: 0,
                    },
                );
            } else {
                return None;
            }
        }
        i = i + 1;
    }
    None
}

/// Find the Afterburner service, trying the candidate class names in order
/// of preference.
///
/// Yields `None`, not an error, when no candidate matches: absence of the
/// hardware is an expected state.
pub fn find_afterburner_service(registry: &ServiceRegistry) -> (r: Option<AfterburnerService>)
    ensures
        match chosen_service(registry.entries@) {
            Some(e) => r matches Some(h) && spec_handle_of(h, e),
            None => r is None,
        },
{
    let names = afterburner_service_names();
    let n = names.len();
    let mut i: usize = 0;
    while i < n
        invariant
            i <= n,
            n == names@.len(),
            names@.len() == spec_service_names().len(),
            forall|j: int| 0 <= j < names@.len() ==> names@[j]@ == spec_service_names()[j],
            chosen_service(registry.entries@) == chosen_entry_from(
                registry.entries@,
                spec_service_names(),
                i as int,
            ),
        decreases n - i,
    {
        let found = find_service_by_name(registry, names[i].as_str());
        match found {
            Some(h) => {
                return Some(h);
            },
            None => {},
        }
        i = i + 1;
    }
    None
}

/// Raw statistics read from the Afterburner service's property store.
///
/// Values are unchecked: they carry whatever the platform reported.
/// Decimal quantities are in thousandths.
#[derive(Clone, Copy, Debug)]
pub struct AfterburnerRawStats {
    /// Number of active decode streams.
    pub streams_active: u32,
    /// Maximum concurrent stream capacity.
    pub streams_capacity: u32,
    /// Utilization percentage, in thousandths of a percent.
    pub utilization: i64,
    /// Throughput in thousandths of a frame per second.
    pub throughput_fps: i64,
    /// Temperature in thousandths of a degree Celsius, if reported.
    pub temperature: Option<i64>,
    /// Power draw in thousandths of a watt, if reported.
    pub power: Option<i64>,
}

impl Default for AfterburnerRawStats {
    /// All-zero readings with nothing reported.
    fn default() -> (r: AfterburnerRawStats)
        ensures
            r == (AfterburnerRawStats {
                streams_active: 0,
                streams_capacity: 0,
                utilization: 0,
                throughput_fps: 0,
                temperature: None,
                power: None,
            }),
    {
        AfterburnerRawStats {
            streams_active: 0,
            streams_capacity: 0,
            utilization: 0,
            throughput_fps: 0,
            temperature: None,
            power: None,
        }
    }
}

/// The first value at or after position `i` stored under `key`.
pub open spec fn lookup_prop_from(
    props: Seq<(String, PropValue)>,
    key: Seq<char>,
    i: int,
) -> Option<PropValue>
    decreases props.len() - i,
{
    if i < 0 || i >= props.len() {
        None
    } else if props[i].0@ == key {
        Some(props[i].1)
    } else {
        lookup_prop_from(props, key, i + 1)
    }
}

/// The integer value stored under `key`: present iff the key holds an
/// integer-typed value that fits a `u32`.
pub open spec fn spec_u32_prop(props: Seq<(String, PropValue)>, key: Seq<char>) -> Option<u32> {
    match lookup_prop_from(props, key, 0) {
        Some(PropValue::Int(v)) => if 0 <= v <= u32::MAX {
            Some(v as u32)
        } else {
            None
        },
        _ => None,
    }
}

/// The decimal value stored under `key`, in thousandths: present iff the
/// key holds a decimal-typed value.
pub open spec fn spec_milli_prop(props: Seq<(String, PropValue)>, key: Seq<char>) -> Option<i64> {
    match lookup_prop_from(props, key, 0) {
        Some(PropValue::Num(m)) => Some(m),
        _ => None,
    }
}

/// Extract an integer-typed property by key.
pub fn get_u32_property(props: &Vec<(String, PropValue)>, key: &str) -> (r: Option<u32>)
    ensures
        r == spec_u32_prop(props@, key@),
{
    let n = props.len();
    let mut i: usize = 0;
    while i < n
        invariant
            i <= n,
            n == props@.len(),
            lookup_prop_from(props@, key@, 0) == lookup_prop_from(props@, key@, i as int),
        decreases n - i,
    {
        let pair = &props[i];
        if str_eq(pair.0.as_str(), key) {
            match pair.1 {
                PropValue::Int(v) => {
                    if 0 <= v && v <= u32::MAX as i64 {
                        return Some(v as u32);
                    } else {
                        return None;
                    }
                },
                PropValue::Num(_) => {
                    return None;
                },
            }
        }
        i = i + 1;
    }
    None
}

/// Extract a decimal-typed property by key, in thousandths.
pub fn get_milli_property(props: &Vec<(String, PropValue)>, key: &str) -> (r: Option<i64>)
    ensures
        r == spec_milli_prop(props@, key@),
{
    let n = props.len();
    let mut i: usize = 0;
    while i < n
        invariant
            i <= n,
            n == props@.len(),
            lookup_prop_from(props@, key@, 0) == lookup_prop_from(props@, key@, i as int),
        decreases n - i,
    {
        let pair = &props[i];
        if str_eq(pair.0.as_str(), key) {
            match pair.1 {
                PropValue::Num(m) => {
                    return Some(m);
                },
                PropValue::Int(_) => {
                    return None;
                },
            }
        }
        i = i + 1;
    }
    None
}

/// The raw statistics parsed from a property store.  Every field falls back
/// independently: a missing or ill-typed field takes its documented default
/// and never aborts the query.  Stream capacity defaults to the platform's
/// nominal capacity of 23, because an unknown capacity is not a capacity of
/// zero.
pub open spec fn spec_parse_properties(props: Seq<(String, PropValue)>) -> AfterburnerRawStats {
    AfterburnerRawStats {
        streams_active: match spec_u32_prop(props, "StreamsActive"@) {
            Some(v) => v,
            None => 0,
        },
        streams_capacity: match spec_u32_prop(props, "StreamsCapacity"@) {
            Some(v) => v,
            None => 23,
        },
        utilization: match spec_milli_prop(props, "Utilization"@) {
            Some(v) => v,
            None => 0,
        },
        throughput_fps: match spec_milli_prop(props, "ThroughputFPS"@) {
            Some(v) => v,
            None => 0,
        },
        temperature: spec_milli_prop(props, "Temperature"@),
        power: spec_milli_prop(props, "PowerWatts"@),
    }
}

/// Parse Afterburner statistics from a property store, field by field with
/// independent defaults.
pub fn parse_afterburner_properties(props: &Vec<(String, PropValue)>) -> (r: AfterburnerRawStats)
    ensures
        r == spec_parse_properties(props@),
{
    let streams_active = match get_u32_property(props, "StreamsActive") {
        Some(v) => v,
        None => 0,
    };
    let streams_capacity = match get_u32_property(props, "StreamsCapacity") {
        Some(v) => v,
        None => 23,
    };
    let utilization = match get_milli_property(props, "Utilization") {
        Some(v) => v,
        None => 0,
    };
    let throughput_fps = match get_milli_property(props, "ThroughputFPS") {
        Some(v) => v,
        None => 0,
    };
    let temperature = get_milli_property(props, "Temperature");
    let power = get_milli_property(props, "PowerWatts");
    AfterburnerRawStats {
        streams_active,
        streams_capacity,
        utilization,
        throughput_fps,
        temperature,
        power,
    }
}

impl AfterburnerService {
    /// The handle after one release call: the underlying release fires iff
    /// the reference is not the zero sentinel and has not been released
    /// before.
    pub closed spec fn spec_release(self) -> AfterburnerService {
        if self.service_id != 0 && self.releases == 0 {
            AfterburnerService {
                service_id: self.service_id,
                query_status: self.query_status,
                properties_present: self.properties_present,
                properties: self.properties,
                releases: 1u32,
            }
        } else {
            self
        }
    }
    /// Query current statistics from the service's property store.
    ///
    /// A failing query reports the platform's status code; a query that
    /// yields no property store at all reports a null result.  An empty
    /// property store is not an error: it parses to default readings,
    /// because a present but idle accelerator must not be confused with an
    /// absent one.
    pub fn get_stats(&self) -> (r: Result<AfterburnerRawStats, Error>)
        ensures
            self.spec_status() != 0 ==> (r matches Err(e) && e matches Error::IoKit {
                code,
                message,
            } && code == self.spec_status() && message@ == "failed to get registry properties"@),
            self.spec_status() == 0 && !self.spec_properties_present() ==> (r matches Err(e) && e
                matches Error::IoKit { code, message } && code == 0 && message@
                == "registry properties returned null"@),
            self.spec_status() == 0 && self.spec_properties_present() ==> (r matches Ok(s) && s
                == spec_parse_properties(self.spec_properties())),
    {
        if self.query_status != 0 {
            return Err(Error::iokit(self.query_status, "failed to get registry properties"));
        }
        if !self.properties_present {
            return Err(Error::iokit(0, "registry properties returned null"));
        }
        Ok(parse_afterburner_properties(&self.properties))
    }

    /// Release the underlying service reference.
    ///
    /// The release fires at most once: a second call, and any call on a
    /// zero-sentinel handle, is a no-op.
    pub fn release(&mut self)
        ensures
            *final(self) == old(self).spec_release(),
            final(self).spec_service_id() == old(self).spec_service_id(),
            final(self).spec_status() == old(self).spec_status(),
            final(self).spec_properties_present() == old(self).spec_properties_present(),
            final(self).spec_properties() == old(self).spec_properties(),
            final(self).spec_release_count() == spec_release_count_after(*old(self)),
    {
        if self.service_id != 0 && self.releases == 0 {
            self.releases = 1;
        }
    }

    /// How often the underlying resource has been released.
    pub fn release_count(&self) -> (r: u32)
        ensures
            r == self.spec_release_count(),
    {
        self.releases
    }
}

/// The release count after one release call.
pub open spec fn spec_release_count_after(h: AfterburnerService) -> u32 {
    if h.spec_service_id() != 0 && h.spec_release_count() == 0 {
        1u32
    } else {
        h.spec_release_count()
    }
}

/// Release is idempotent: releasing an already-released handle changes
/// nothing.  Together with [`spec_release_count_after`] this gives the
/// exactly-once discipline: however often release is called on a handle
/// that holds a real reference, the underlying release fires exactly once.
pub proof fn lemma_release_idempotent(h: AfterburnerService)
    ensures
        h.spec_release().spec_release() == h.spec_release(),
        h.spec_release_count() <= 1 ==> h.spec_release().spec_release_count() <= 1,
        h.spec_service_id() != 0 && h.spec_release_count() == 0
            ==> h.spec_release().spec_release_count() == 1,
{
}

} // verus!
