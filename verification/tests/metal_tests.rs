use manzana::metal::devices_from_profiler_output;
use manzana::metal::MetalCompute;

/// A pipeline on the baseline device the parser yields when the profiler
/// text names no GPU; the zero-argument enumeration on this build is
/// empty, so pipelines are exercised through the parser path.
fn baseline_compute() -> MetalCompute {
    let devices = devices_from_profiler_output("");
    MetalCompute::from_devices(&devices, 0).unwrap()
}

#[test]
fn test_devices_no_panic() {
    let devices = MetalCompute::devices();
    assert!(
        devices.is_empty(),
        "Should have no Metal devices on non-macOS"
    );
}

#[test]
fn test_is_available_consistent() {
    let available = MetalCompute::is_available();
    let devices = MetalCompute::devices();
    assert_eq!(available, !devices.is_empty());
}

#[test]
fn test_device_properties() {
    let devices = MetalCompute::devices();
    for device in &devices {
        assert!(!device.name.is_empty());
        assert!(device.max_threads_per_threadgroup > 0);
        assert!(device.max_buffer_length > 0);
        assert!(device.vram_gb() > 0);
    }
}

#[test]
fn test_new_invalid_index() {
    let result = MetalCompute::new(999);
    assert!(result.is_err());
}

#[test]
fn test_new_valid_index() {
    let result = MetalCompute::new(0);
    assert!(result.is_err(), "no device is enumerated on this build");
}

#[test]
fn test_default_device() {
    let result = MetalCompute::default_device();
    assert!(result.unwrap_err().is_not_available());
}

#[test]
fn test_from_devices_selects_by_index() {
    let devices = devices_from_profiler_output("    AMD Radeon Pro 580X:\n    Apple M1:\n");
    let first = MetalCompute::from_devices(&devices, 0).unwrap();
    assert_eq!(first.device_name(), "AMD Radeon Pro 580X");
    assert_eq!(first.device_index(), 0);
    let second = MetalCompute::from_devices(&devices, 1).unwrap();
    assert_eq!(second.device_name(), "Apple M1");
    assert!(MetalCompute::from_devices(&devices, 2).is_err());
}

#[test]
fn test_compile_shader() {
    let compute = baseline_compute();
    let shader = compute.compile_shader(
        r"
        kernel void add(device float* a [[buffer(0)]],
                       device float* b [[buffer(1)]],
                       uint id [[thread_position_in_grid]]) {
            a[id] = a[id] + b[id];
        }
        ",
        "add",
    );
    assert!(shader.is_ok());
    assert_eq!(shader.unwrap().name(), "add");
}

#[test]
fn test_compile_shader_empty_source() {
    let compute = baseline_compute();
    let result = compute.compile_shader("", "test");
    assert!(result.is_err());
}

#[test]
fn test_compile_shader_empty_name() {
    let compute = baseline_compute();
    let result = compute.compile_shader("kernel void test() {}", "");
    assert!(result.is_err());
}

#[test]
fn test_allocate_buffer() {
    let compute = baseline_compute();
    let buffer = compute.allocate_buffer(1024);
    assert!(buffer.is_ok());
    let buffer = buffer.unwrap();
    assert_eq!(buffer.len(), 1024);
    assert!(!buffer.is_empty());
}

#[test]
fn test_allocate_buffer_zero() {
    let compute = baseline_compute();
    let result = compute.allocate_buffer(0);
    assert!(result.is_err());
}

#[test]
fn test_dispatch_invalid_grid() {
    let compute = baseline_compute();
    let shader = compute
        .compile_shader("kernel void test() {}", "test")
        .unwrap();
    let result = compute.dispatch(&shader, &[], (0, 1, 1), (1, 1, 1));
    assert!(result.is_err());
}

#[test]
fn test_dispatch_invalid_threadgroup() {
    let compute = baseline_compute();
    let shader = compute
        .compile_shader("kernel void test() {}", "test")
        .unwrap();
    let result = compute.dispatch(&shader, &[], (64, 64, 1), (32, 32, 2));
    assert!(result.is_err());
}

#[test]
fn test_dispatch_valid() {
    let compute = baseline_compute();
    let shader = compute
        .compile_shader("kernel void test() {}", "test")
        .unwrap();
    let buffer = compute.allocate_buffer(64).unwrap();
    let result = compute.dispatch(&shader, &[&buffer], (64, 1, 1), (32, 1, 1));
    assert!(result.is_ok());
}

#[test]
fn metal_test_convenience_function() {
    assert_eq!(manzana::metal::is_available(), MetalCompute::is_available());
}

#[test]
fn test_detect_real_gpus() {
    let output = "Graphics/Displays:\n\n    AMD Radeon Pro W5700X:\n\n      Chipset Model: AMD Radeon Pro W5700X\n      VRAM (Total): 16 GB\n";
    let devices = devices_from_profiler_output(output);
    assert!(!devices.is_empty(), "Should detect at least one GPU");

    let first = &devices[0];
    assert!(
        !first.name.contains("Intel UHD"),
        "Should detect real GPU, not stub. Got: {}",
        first.name
    );
}

#[test]
fn test_detect_gpu_vram() {
    let output = "    AMD Radeon Pro W5700X:\n      VRAM (Total): 16 GB\n";
    let devices = devices_from_profiler_output(output);
    if !devices.is_empty() {
        let first = &devices[0];
        assert!(
            first.vram_gb() >= 1000,
            "GPU should report at least 1GB VRAM, got: {} GB",
            first.vram_gb() as f64 / 1000.0
        );
    }
}

#[test]
fn test_metal_buffer_methods() {
    let compute = baseline_compute();
    let buffer = compute.allocate_buffer(1024).unwrap();
    assert_eq!(buffer.len(), 1024);
    assert!(!buffer.is_empty());
    assert_eq!(buffer.device_index(), 0);
    assert_eq!(buffer.device_index(), compute.device_index());
}

#[test]
fn test_profiler_parse_discrete_gpu() {
    let output = "Graphics/Displays:\n\n    AMD Radeon Pro W5700X:\n\n      Chipset Model: AMD Radeon Pro W5700X\n      VRAM (Total): 16 GB\n      Vendor: AMD (0x1002)\n";
    let devices = devices_from_profiler_output(output);
    assert_eq!(devices.len(), 1);
    assert_eq!(devices[0].name, "AMD Radeon Pro W5700X");
    assert_eq!(devices[0].max_buffer_length, 16 * 1_073_741_824);
    assert_eq!(devices[0].registry_id, 1);
    assert_eq!(devices[0].index, 0);
    assert!(!devices[0].has_unified_memory);
    assert!(!devices[0].is_low_power);
    assert_eq!(devices[0].vram_gb(), 16_000);
}

#[test]
fn test_profiler_parse_apple_gpu() {
    let output = "    Apple M2:\n      Total Number of Cores: 10\n";
    let devices = devices_from_profiler_output(output);
    assert_eq!(devices.len(), 1);
    assert_eq!(devices[0].name, "Apple M2");
    assert!(devices[0].has_unified_memory);
    assert_eq!(devices[0].max_buffer_length, 17_179_869_184);
}

#[test]
fn test_profiler_parse_megabyte_unit() {
    let output = "    Intel Iris Plus 640:\n      VRAM (Dynamic, Max): 1536 MB\n";
    let devices = devices_from_profiler_output(output);
    assert_eq!(devices.len(), 1);
    assert!(devices[0].is_low_power);
    assert_eq!(devices[0].max_buffer_length, 1536 * 1_048_576);
}

#[test]
fn test_profiler_parse_two_gpus() {
    let output = "    AMD Radeon Pro 580X:\n      VRAM (Total): 8 GB\n    Apple M1:\n";
    let devices = devices_from_profiler_output(output);
    assert_eq!(devices.len(), 2);
    assert_eq!(devices[0].name, "AMD Radeon Pro 580X");
    assert_eq!(devices[0].index, 0);
    assert_eq!(devices[0].registry_id, 1);
    assert_eq!(devices[1].name, "Apple M1");
    assert_eq!(devices[1].index, 1);
    assert_eq!(devices[1].registry_id, 2);
}

#[test]
fn test_profiler_parse_empty_falls_back() {
    let devices = devices_from_profiler_output("");
    assert_eq!(devices.len(), 1);
    assert_eq!(devices[0].name, "Unknown GPU");
}

#[test]
fn test_profiler_attribute_lines_are_not_devices() {
    let output = "Graphics/Displays:\n    Displays:\n      Metal Support: Metal 3\n";
    let devices = devices_from_profiler_output(output);
    assert_eq!(devices.len(), 1);
    assert_eq!(devices[0].name, "Unknown GPU");
}
