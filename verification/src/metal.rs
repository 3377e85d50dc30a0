//! Metal GPU device enumeration and compute pipeline validation.
//!
//! Device discovery reads the display section of the system profiler: the
//! embedding program runs the profiler (process I/O) and hands the text to
//! [`devices_from_profiler_output`], which parses it into device records;
//! when the text names no recognizable device the parser falls back to a
//! single baseline device.  With no profiler output presented at all,
//! enumeration detects nothing and reports an empty list — absence of
//! hardware is an expected state, not an error.
//!
//! The compute pipeline itself validates its inputs — device indices,
//! shader sources, buffer sizes, dispatch geometry — and records what a
//! dispatch would need; it does not drive GPU hardware.

use vstd::prelude::*;

use crate::error::Error;
use crate::error::Subsystem;
use crate::text::dec_u128;
use crate::text::dec_u64;
use crate::text::ends_with_char;
use crate::text::find_char_from;
use crate::text::find_sub;
use crate::text::lemma_find_char_props;
use crate::text::lemma_find_sub_props;
use crate::text::spec_contains;
use crate::text::spec_dec;
use crate::text::spec_find_char;
use crate::text::spec_find_sub;
use crate::text::spec_lines_from;
use crate::text::spec_parse_u64;
use crate::text::spec_starts_with;
use crate::text::spec_strip_trailing;
use crate::text::spec_trim;
use crate::text::split_lines;
use crate::text::str_contains;
use crate::text::str_starts_with;
use crate::text::str_views;
use crate::text::strip_trailing;
use crate::text::parse_u64_str;
use crate::text::trim_str;

verus! {

/// Information about a Metal GPU device.
#[derive(Clone, Debug)]
pub struct MetalDevice {
    /// Human-readable device name.
    pub name: String,
    /// Unique registry ID for the device.
    pub registry_id: u64,
    /// True if this is a low-power (integrated) GPU.
    pub is_low_power: bool,
    /// True if this is a headless (no display) GPU.
    pub is_headless: bool,
    /// Maximum threads per threadgroup.
    pub max_threads_per_threadgroup: u32,
    /// Maximum buffer length in bytes.
    pub max_buffer_length: u64,
    /// Whether the device shares memory with the CPU.
    pub has_unified_memory: bool,
    /// Device index for selection.
    pub index: usize,
}

/// The fields of a device record, at the specification level.
pub struct DeviceView {
    /// Device name.
    pub name: Seq<char>,
    /// Registry ID.
    pub registry_id: int,
    /// Low-power flag.
    pub is_low_power: bool,
    /// Headless flag.
    pub is_headless: bool,
    /// Maximum threads per threadgroup.
    pub max_threads_per_threadgroup: int,
    /// Maximum buffer length in bytes.
    pub max_buffer_length: int,
    /// Unified-memory flag.
    pub has_unified_memory: bool,
    /// Device index.
    pub index: int,
}

/// The device record `d` carries exactly the fields of `v`.
pub open spec fn device_matches(d: MetalDevice, v: DeviceView) -> bool {
    &&& d.name@ == v.name
    &&& d.registry_id == v.registry_id
    &&& d.is_low_power == v.is_low_power
    &&& d.is_headless == v.is_headless
    &&& d.max_threads_per_threadgroup == v.max_threads_per_threadgroup
    &&& d.max_buffer_length == v.max_buffer_length
    &&& d.has_unified_memory == v.has_unified_memory
    &&& d.index == v.index
}

/// The device records `ds` carry exactly the fields of `vs`, in order.
pub open spec fn devices_match(ds: Seq<MetalDevice>, vs: Seq<DeviceView>) -> bool {
    ds.len() == vs.len() && forall|i: int|
        0 <= i < ds.len() ==> device_matches(#[trigger] ds[i], vs[i])
}

impl MetalDevice {
    /// Check if this device shares memory with the CPU.
    pub fn is_apple_silicon(&self) -> (r: bool)
        ensures
            r == self.has_unified_memory,
    {
        self.has_unified_memory
    }

    /// Approximate memory capacity in thousandths of a gibibyte.
    pub fn vram_gb(&self) -> (r: u64)
        ensures
            r == (self.max_buffer_length * 1000) / 1_073_741_824,
    {
        (((self.max_buffer_length as u128) * 1000) / 1_073_741_824) as u64
    }
}

/// A trimmed profiler line that names a GPU: it ends with a colon and is
/// none of the per-device attribute or section lines.
pub open spec fn spec_is_name_line(t: Seq<char>) -> bool {
    &&& t.len() > 0
    &&& t.last() == ':'
    &&& !spec_starts_with(t, "Graphics"@)
    &&& !spec_contains(t, "Displays"@)
    &&& !spec_contains(t, "VRAM"@)
    &&& !spec_contains(t, "Vendor"@)
    &&& !spec_contains(t, "Device"@)
    &&& !spec_contains(t, "Bus"@)
    &&& !spec_contains(t, "Slot"@)
    &&& !spec_contains(t, "Metal"@)
}

/// A digit run scaled by a byte unit: present iff the digits parse and the
/// byte count fits 64 bits (an oversized figure is ignored).
pub open spec fn spec_scaled(digits: Seq<char>, unit: u64) -> Option<u64> {
    match spec_parse_u64(digits) {
        Some(v) => if v * unit <= u64::MAX {
            Some((v * unit) as u64)
        } else {
            None
        },
        None => None,
    }
}

/// The memory figure of the segment after the first colon of a line:
/// a number before " GB" or, failing that, before " MB", in bytes.
pub open spec fn spec_vram_of_rest(rest: Seq<char>) -> Option<u64> {
    match spec_find_sub(rest, " GB"@, 0) {
        Some(g) => if 0 <= g <= rest.len() {
            spec_scaled(spec_trim(rest.take(g)), 1_073_741_824)
        } else {
            None
        },
        None => match spec_find_sub(rest, " MB"@, 0) {
            Some(m) => if 0 <= m <= rest.len() {
                spec_scaled(spec_trim(rest.take(m)), 1_048_576)
            } else {
                None
            },
            None => None,
        },
    }
}

/// The memory figure of a trimmed profiler line, in bytes: the segment
/// between the first colon and the next (or the end), scaled by its unit.
pub open spec fn spec_vram_of(t: Seq<char>) -> Option<u64> {
    match spec_find_char(t, ':', 0) {
        Some(p1) => if 0 <= p1 < t.len() {
            let seg_end = match spec_find_char(t, ':', p1 + 1) {
                Some(p2) => p2,
                None => t.len() as int,
            };
            if p1 + 1 <= seg_end <= t.len() {
                spec_vram_of_rest(spec_trim(t.subrange(p1 + 1, seg_end)))
            } else {
                None
            }
        } else {
            None
        },
        None => None,
    }
}

/// The device record built for a named GPU: integrated GPUs are low-power,
/// devices with unified memory default to a 16 GiB capacity and others to
/// 4 GiB when no memory figure was reported.
pub open spec fn spec_create_device(name: Seq<char>, vram_bytes: u64, index: int) -> DeviceView {
    let apple = spec_contains(name, "Apple"@);
    let integrated = spec_contains(name, "Intel"@) || spec_contains(name, "Integrated"@);
    DeviceView {
        name: name,
        registry_id: index + 1,
        is_low_power: integrated,
        is_headless: false,
        max_threads_per_threadgroup: 1024,
        max_buffer_length: if vram_bytes > 0 {
            vram_bytes as int
        } else if apple {
            17_179_869_184
        } else {
            4_294_967_296
        },
        has_unified_memory: apple,
        index: index,
    }
}

/// The baseline device reported when enumeration has nothing to go on.
pub open spec fn spec_fallback_view() -> DeviceView {
    DeviceView {
        name: "Unknown GPU"@,
        registry_id: 1,
        is_low_power: false,
        is_headless: false,
        max_threads_per_threadgroup: 1024,
        max_buffer_length: 4_294_967_296,
        has_unified_memory: false,
        index: 0,
    }
}

/// State of the profiler scan: the devices completed so far, the name of
/// the GPU whose attribute lines are being read (empty if none), and its
/// memory figure so far.
pub struct ParseState {
    /// Completed device records.
    pub devices: Seq<DeviceView>,
    /// Name of the GPU currently being read; empty if none.
    pub name: Seq<char>,
    /// Memory figure of the current GPU, in bytes.
    pub vram: u64,
}

/// One line of the profiler scan.  A name line closes the GPU being read
/// (if any) and opens a new one, with the trailing colons stripped from
/// its name; a VRAM line records the current GPU's memory figure.
pub open spec fn spec_step(st: ParseState, line: Seq<char>) -> ParseState {
    let t = spec_trim(line);
    let st1 = if spec_is_name_line(t) {
        ParseState {
            devices: if st.name.len() > 0 {
                st.devices.push(spec_create_device(st.name, st.vram, st.devices.len() as int))
            } else {
                st.devices
            },
            name: spec_strip_trailing(t, ':'),
            vram: 0u64,
        }
    } else {
        st
    };
    if spec_starts_with(t, "VRAM"@) {
        match spec_vram_of(t) {
            Some(v) => ParseState { devices: st1.devices, name: st1.name, vram: v },
            None => st1,
        }
    } else {
        st1
    }
}

/// The scan state after folding the lines from position `i` on into `st`.
pub open spec fn spec_scan(lines: Seq<Seq<char>>, i: int, st: ParseState) -> ParseState
    decreases lines.len() - i,
{
    if i < 0 || i >= lines.len() {
        st
    } else {
        spec_scan(lines, i + 1, spec_step(st, lines[i]))
    }
}

/// The devices of a finished scan: the GPU still being read is closed, and
/// an empty result falls back to the baseline device.
pub open spec fn spec_finish(st: ParseState) -> Seq<DeviceView> {
    let devices = if st.name.len() > 0 {
        st.devices.push(spec_create_device(st.name, st.vram, st.devices.len() as int))
    } else {
        st.devices
    };
    if devices.len() == 0 {
        seq![spec_fallback_view()]
    } else {
        devices
    }
}

/// The initial scan state: nothing read yet.
pub open spec fn spec_scan_init() -> ParseState {
    ParseState { devices: Seq::empty(), name: Seq::empty(), vram: 0u64 }
}

/// The devices parsed from the profiler's display section.
pub open spec fn spec_parse_profile(s: Seq<char>) -> Seq<DeviceView> {
    spec_finish(spec_scan(spec_lines_from(s, 0), 0, spec_scan_init()))
}

fn create_device(name: &str, vram_bytes: u64, index: usize) -> (r: MetalDevice)
    requires
        index < usize::MAX,
    ensures
        device_matches(r, spec_create_device(name@, vram_bytes, index as int)),
{
    let apple = str_contains(name, "Apple");
    let integrated = str_contains(name, "Intel") || str_contains(name, "Integrated");
    MetalDevice {
        name: name.to_owned(),
        registry_id: (index as u64) + 1,
        is_low_power: integrated,
        is_headless: false,
        max_threads_per_threadgroup: 1024,
        max_buffer_length: if vram_bytes > 0 {
            vram_bytes
        } else if apple {
            17_179_869_184
        } else {
            4_294_967_296
        },
        has_unified_memory: apple,
        index,
    }
}

fn fallback_devices() -> (r: Vec<MetalDevice>)
    ensures
        devices_match(r@, seq![spec_fallback_view()]),
{
    let device = MetalDevice {
        name: "Unknown GPU".to_owned(),
        registry_id: 1,
        is_low_power: false,
        is_headless: false,
        max_threads_per_threadgroup: 1024,
        max_buffer_length: 4_294_967_296,
        has_unified_memory: false,
        index: 0,
    };
    let mut out: Vec<MetalDevice> = Vec::new();
    out.push(device);
    out
}

fn scaled_figure(digits: &str, unit: u64) -> (r: Option<u64>)
    ensures
        r == spec_scaled(digits@, unit),
{
    match parse_u64_str(digits) {
        Some(v) => match v.checked_mul(unit) {
            Some(bytes) => Some(bytes),
            None => None,
        },
        None => None,
    }
}

fn vram_of_line(t: &str) -> (r: Option<u64>)
    ensures
        r == spec_vram_of(t@),
{
    let len = t.unicode_len();
    let p1 = match find_char_from(t, ':', 0) {
        Some(p1) => p1,
        None => {
            return None;
        },
    };
    proof {
        lemma_find_char_props(t@, ':', 0);
    }
    let seg_end = match find_char_from(t, ':', p1 + 1) {
        Some(p2) => p2,
        None => len,
    };
    proof {
        lemma_find_char_props(t@, ':', p1 + 1);
    }
    let segment = t.substring_char(p1 + 1, seg_end);
    let rest = trim_str(segment);
    let rest_len = rest.unicode_len();
    match find_sub(rest, " GB") {
        Some(g) => {
            proof {
                lemma_find_sub_props(rest@, " GB"@, 0);
            }
            let prefix = rest.substring_char(0, g);
            let digits = trim_str(prefix);
            scaled_figure(digits, 1_073_741_824)
        },
        None => {
            match find_sub(rest, " MB") {
                Some(m) => {
                    proof {
                        lemma_find_sub_props(rest@, " MB"@, 0);
                    }
                    let prefix = rest.substring_char(0, m);
                    let digits = trim_str(prefix);
                    scaled_figure(digits, 1_048_576)
                },
                None => None,
            }
        },
    }
}

/// Parse the display section of the system profiler into device records.
///
/// Each section header that is not an attribute line opens a device; VRAM
/// attribute lines record its memory figure.  Output with no recognizable
/// device yields the baseline device, never an empty list.
pub fn devices_from_profiler_output(output: &str) -> (r: Vec<MetalDevice>)
    ensures
        devices_match(r@, spec_parse_profile(output@)),
        r@.len() > 0,
{
    let lines = split_lines(output);
    let ghost lviews = str_views(lines@);
    let mut devices: Vec<MetalDevice> = Vec::new();
    let mut current_name: String = String::new();
    let mut current_vram: u64 = 0;
    let ghost mut gst = spec_scan_init();
    let n = lines.len();
    let mut i: usize = 0;
    while i < n
        invariant
            i <= n,
            n == lines@.len(),
            lviews == str_views(lines@),
            lviews == spec_lines_from(output@, 0),
            spec_scan(lviews, i as int, gst) == spec_scan(lviews, 0, spec_scan_init()),
            devices_match(devices@, gst.devices),
            current_name@ == gst.name,
            current_vram == gst.vram,
            devices@.len() + (if gst.name.len() > 0 {
                1int
            } else {
                0int
            }) <= i,
        decreases n - i,
    {
        let line = lines[i];
        proof {
            assert(line@ == lviews[i as int]);
        }
        let t = trim_str(line);
        let is_name = if ends_with_char(t, ':') {
            !str_starts_with(t, "Graphics") && !str_contains(t, "Displays") && !str_contains(
                t,
                "VRAM",
            ) && !str_contains(t, "Vendor") && !str_contains(t, "Device") && !str_contains(
                t,
                "Bus",
            ) && !str_contains(t, "Slot") && !str_contains(t, "Metal")
        } else {
            false
        };
        proof {
            assert(is_name == spec_is_name_line(t@));
        }
        if is_name {
            if !current_name.as_str().is_empty() {
                let ghost before = devices@;
                let device = create_device(current_name.as_str(), current_vram, devices.len());
                devices.push(device);
                proof {
                    assert(devices@ =~= before.push(device));
                }
            }
            current_name = strip_trailing(t, ':').to_owned();
            current_vram = 0;
        }
        if str_starts_with(t, "VRAM") {
            match vram_of_line(t) {
                Some(v) => {
                    current_vram = v;
                },
                None => {},
            }
        }
        proof {
            gst = spec_step(gst, lviews[i as int]);
        }
        i = i + 1;
    }
    if !current_name.as_str().is_empty() {
        let ghost before = devices@;
        let device = create_device(current_name.as_str(), current_vram, devices.len());
        devices.push(device);
        proof {
            assert(devices@ =~= before.push(device));
        }
    }
    if devices.len() == 0 {
        return fallback_devices();
    }
    devices
}

/// A compiled compute shader: a validated kernel name.
#[derive(Debug)]
pub struct CompiledShader {
    name: String,
}

impl CompiledShader {
    /// The kernel name, as seen by specifications.
    pub closed spec fn spec_name(&self) -> Seq<char> {
        self.name@
    }

    /// Get the shader function name.
    pub fn name(&self) -> (r: &str)
        ensures
            r@ == self.spec_name(),
    {
        self.name.as_str()
    }
}

/// A buffer allocation record on a GPU device.
#[derive(Debug)]
pub struct MetalBuffer {
    length: usize,
    device_index: usize,
}

impl MetalBuffer {
    /// The buffer length, as seen by specifications.
    pub closed spec fn spec_len(&self) -> usize {
        self.length
    }

    /// The owning device index, as seen by specifications.
    pub closed spec fn spec_device_index(&self) -> usize {
        self.device_index
    }

    /// Get the buffer length in bytes.
    pub fn len(&self) -> (r: usize)
        ensures
            r == self.spec_len(),
    {
        self.length
    }

    /// Check if the buffer is empty.
    pub fn is_empty(&self) -> (r: bool)
        ensures
            r == (self.spec_len() == 0),
    {
        self.length == 0
    }

    /// Get the device this buffer is allocated on.
    pub fn device_index(&self) -> (r: usize)
        ensures
            r == self.spec_device_index(),
    {
        self.device_index
    }
}

/// Metal compute pipeline on one device.
///
/// The pipeline is confined to the context that created it; it is not
/// shared between threads.
#[derive(Debug)]
pub struct MetalCompute {
    device_index: usize,
    device_name: String,
}

impl MetalCompute {
    /// The selected device index, as seen by specifications.
    pub closed spec fn spec_device_index(&self) -> usize {
        self.device_index
    }

    /// The selected device name, as seen by specifications.
    pub closed spec fn spec_device_name(&self) -> Seq<char> {
        self.device_name@
    }

    /// Enumerate the known Metal devices.
    ///
    /// Live enumeration reads the system profiler, which is process I/O
    /// performed by the embedding program and handed to
    /// [`devices_from_profiler_output`]; with no output presented, this
    /// detects nothing and reports an empty list.
    pub fn devices() -> (r: Vec<MetalDevice>)
        ensures
            r@.len() == 0,
    {
        Vec::new()
    }

    /// Check if any Metal device is available.  Enumeration without
    /// profiler output detects nothing, so the probe reports `false`.
    pub fn is_available() -> (r: bool)
        ensures
            !r,
    {
        let devices = Self::devices();
        devices.len() > 0
    }

    /// Create a compute pipeline on the device at `device_index` of an
    /// enumerated device list, such as the one
    /// [`devices_from_profiler_output`] parses.
    ///
    /// Fails with a not-found error naming the index exactly when the
    /// index is out of bounds.
    pub fn from_devices(devices: &Vec<MetalDevice>, device_index: usize) -> (r: Result<
        MetalCompute,
        Error,
    >)
        ensures
            device_index < devices@.len() ==> (r matches Ok(c) && c.spec_device_index()
                == device_index && c.spec_device_name() == devices@[device_index as int].name@),
            device_index >= devices@.len() ==> (r matches Err(e) && e matches Error::NotFound {
                resource,
            } && resource@ == "Metal device index "@ + spec_dec(device_index as nat) + " (only "@
                + spec_dec(devices@.len() as nat) + " devices available)"@),
    {
        if device_index >= devices.len() {
            let mut resource = "Metal device index ".to_owned();
            resource.append(dec_u64(device_index as u64).as_str());
            resource.append(" (only ");
            resource.append(dec_u64(devices.len() as u64).as_str());
            resource.append(" devices available)");
            proof {
                assert(resource@ =~= "Metal device index "@ + spec_dec(device_index as nat)
                    + " (only "@ + spec_dec(devices@.len() as nat) + " devices available)"@);
            }
            return Err(Error::not_found(resource.as_str()));
        }
        let device_name = devices[device_index].name.clone();
        Ok(MetalCompute { device_index, device_name })
    }

    /// Create a compute pipeline on the device at `device_index` of the
    /// enumeration of [`MetalCompute::devices`].  That enumeration is
    /// empty, so this reports the index as not found.
    pub fn new(device_index: usize) -> (r: Result<MetalCompute, Error>)
        ensures
            r matches Err(e) && e matches Error::NotFound { resource } && resource@
                == "Metal device index "@ + spec_dec(device_index as nat) + " (only "@ + spec_dec(
                0,
            ) + " devices available)"@,
    {
        let devices = Self::devices();
        Self::from_devices(&devices, device_index)
    }

    /// Create a compute pipeline on the default (first) enumerated
    /// device.  The enumeration is empty, so this reports the subsystem
    /// as not available.
    pub fn default_device() -> (r: Result<MetalCompute, Error>)
        ensures
            r matches Err(e) && e matches Error::NotAvailable { subsystem } && subsystem
                == Subsystem::Metal,
    {
        let devices = Self::devices();
        if devices.is_empty() {
            return Err(Error::not_available(Subsystem::Metal));
        }
        Self::from_devices(&devices, 0)
    }

    /// Get the device name.
    pub fn device_name(&self) -> (r: &str)
        ensures
            r@ == self.spec_device_name(),
    {
        self.device_name.as_str()
    }

    /// Get the device index.
    pub fn device_index(&self) -> (r: usize)
        ensures
            r == self.spec_device_index(),
    {
        self.device_index
    }

    /// Validate and record a compute shader.
    ///
    /// Fails with invalid input exactly when the source or the function
    /// name is empty (after trimming whitespace); otherwise the compiled
    /// shader carries the function name.
    pub fn compile_shader(&self, source: &str, function_name: &str) -> (r: Result<
        CompiledShader,
        Error,
    >)
        ensures
            spec_trim(source@).len() == 0 ==> (r matches Err(e) && e matches Error::InvalidInput {
                reason,
            } && reason@ == "shader source is empty"@),
            spec_trim(source@).len() > 0 && spec_trim(function_name@).len() == 0 ==> (r matches Err(
                e,
            ) && e matches Error::InvalidInput { reason } && reason@ == "function name is empty"@),
            spec_trim(source@).len() > 0 && spec_trim(function_name@).len() > 0 ==> (r matches Ok(s)
                && s.spec_name() == function_name@),
    {
        let trimmed_source = trim_str(source);
        if trimmed_source.is_empty() {
            return Err(Error::invalid_input("shader source is empty"));
        }
        let trimmed_name = trim_str(function_name);
        if trimmed_name.is_empty() {
            return Err(Error::invalid_input("function name is empty"));
        }
        Ok(CompiledShader { name: function_name.to_owned() })
    }

    /// Record a buffer allocation on this pipeline's device.
    ///
    /// Fails with invalid input exactly when the length is zero or above
    /// the 16 GiB device limit.
    pub fn allocate_buffer(&self, length: usize) -> (r: Result<MetalBuffer, Error>)
        ensures
            length == 0 ==> (r matches Err(e) && e matches Error::InvalidInput { reason } && reason@
                == "buffer length cannot be zero"@),
            length > 17_179_869_184 ==> (r matches Err(e) && e matches Error::InvalidInput {
                reason,
            } && reason@ == "buffer length "@ + spec_dec(length as nat)
                + " exceeds device limit "@ + spec_dec(17_179_869_184)),
            1 <= length <= 17_179_869_184 ==> (r matches Ok(b) && b.spec_len() == length
                && b.spec_device_index() == self.spec_device_index()),
    {
        if length == 0 {
            return Err(Error::invalid_input("buffer length cannot be zero"));
        }
        if (length as u64) > 17_179_869_184u64 {
            let mut reason = "buffer length ".to_owned();
            reason.append(dec_u64(length as u64).as_str());
            reason.append(" exceeds device limit ");
            reason.append(dec_u64(17_179_869_184u64).as_str());
            proof {
                assert(reason@ =~= "buffer length "@ + spec_dec(length as nat)
                    + " exceeds device limit "@ + spec_dec(17_179_869_184));
            }
            return Err(Error::invalid_input(reason.as_str()));
        }
        Ok(MetalBuffer { length, device_index: self.device_index })
    }

    /// Validate a compute dispatch: the grid must have no zero dimension,
    /// the threadgroup at most 1024 threads in total, and every bound
    /// buffer must live on this pipeline's device.
    pub fn dispatch(
        &self,
        shader: &CompiledShader,
        buffers: &[&MetalBuffer],
        grid_size: (u32, u32, u32),
        threadgroup_size: (u32, u32, u32),
    ) -> (r: Result<(), Error>)
        ensures
            (grid_size.0 == 0 || grid_size.1 == 0 || grid_size.2 == 0) ==> (r matches Err(e) && e
                matches Error::InvalidInput { reason } && reason@
                == "grid size dimensions cannot be zero"@),
            grid_size.0 > 0 && grid_size.1 > 0 && grid_size.2 > 0 && threadgroup_size.0
                * threadgroup_size.1 * threadgroup_size.2 > 1024 ==> (r matches Err(e) && e matches
                Error::InvalidInput { reason } && reason@ == "threadgroup size "@ + spec_dec(
                (threadgroup_size.0 * threadgroup_size.1 * threadgroup_size.2) as nat,
            ) + " exceeds maximum 1024"@),
            grid_size.0 > 0 && grid_size.1 > 0 && grid_size.2 > 0 && threadgroup_size.0
                * threadgroup_size.1 * threadgroup_size.2 <= 1024 ==> (match r {
                Ok(_) => forall|j: int|
                    0 <= j < buffers@.len() ==> (#[trigger] buffers@[j]).spec_device_index()
                        == self.spec_device_index(),
                Err(e) => {
                    &&& exists|j: int|
                        0 <= j < buffers@.len() && (#[trigger] buffers@[j]).spec_device_index()
                            != self.spec_device_index()
                    &&& e matches Error::InvalidInput { reason } && reason@
                        == "buffer allocated on different device"@
                },
            }),
    {
        if grid_size.0 == 0 || grid_size.1 == 0 || grid_size.2 == 0 {
            return Err(Error::invalid_input("grid size dimensions cannot be zero"));
        }
        let a: u128 = threadgroup_size.0 as u128;
        let b: u128 = threadgroup_size.1 as u128;
        let c: u128 = threadgroup_size.2 as u128;
        proof {
            assert(a * b <= u128::MAX && a * b * c <= u128::MAX) by (nonlinear_arith)
                requires
                    a <= 0xFFFF_FFFF,
                    b <= 0xFFFF_FFFF,
                    c <= 0xFFFF_FFFF,
            ;
        }
        let tg_total: u128 = a * b * c;
        if tg_total > 1024 {
            let mut reason = "threadgroup size ".to_owned();
            reason.append(dec_u128(tg_total).as_str());
            reason.append(" exceeds maximum 1024");
            proof {
                assert(reason@ =~= "threadgroup size "@ + spec_dec(tg_total as nat)
                    + " exceeds maximum 1024"@);
            }
            return Err(Error::invalid_input(reason.as_str()));
        }
        proof {
            assert(threadgroup_size.0 * threadgroup_size.1 * threadgroup_size.2 == tg_total as int);
        }
        let count = buffers.len();
        let mut j: usize = 0;
        while j < count
            invariant
                j <= count,
                count == buffers@.len(),
                grid_size.0 > 0 && grid_size.1 > 0 && grid_size.2 > 0,
                threadgroup_size.0 * threadgroup_size.1 * threadgroup_size.2 <= 1024,
                forall|k: int|
                    0 <= k < j ==> (#[trigger] buffers@[k]).spec_device_index()
                        == self.spec_device_index(),
        decreases count - j,
        {
            let buffer = *vstd::slice::slice_index_get(buffers, j);
            if buffer.device_index() != self.device_index {
                return Err(Error::invalid_input("buffer allocated on different device"));
            }
            j = j + 1;
        }
        let _ = shader;
        Ok(())
    }
}

/// Check if Metal is available; same answer as
/// [`MetalCompute::is_available`].
pub fn is_available() -> (r: bool)
    ensures
        !r,
{
    MetalCompute::is_available()
}

} // verus!
