use manzana::unified_memory::UmaBuffer;
use manzana::unified_memory::MAX_ALLOCATION;
use manzana::unified_memory::PAGE_SIZE;

#[test]
fn test_allocation_success() {
    let buffer = UmaBuffer::new(1024);
    assert!(buffer.is_ok());
    let buffer = buffer.unwrap();
    assert_eq!(buffer.len(), 1024);
    assert!(!buffer.is_empty());
}

#[test]
fn test_allocation_zero_fails() {
    let result = UmaBuffer::new(0);
    assert!(result.is_err());
}

#[test]
fn test_allocation_too_large_fails() {
    let result = UmaBuffer::new((MAX_ALLOCATION as usize) + 1);
    assert!(result.is_err());
}

#[test]
fn test_page_alignment() {
    let buffer = UmaBuffer::new(100).unwrap();
    assert!(buffer.is_aligned(), "Buffer should be page-aligned");
    assert!(
        buffer.allocated_size() >= PAGE_SIZE,
        "Allocated size should be at least one page"
    );
}

#[test]
fn test_zeroed_buffer() {
    let buffer = UmaBuffer::zeroed(1024).unwrap();
    let slice = buffer.as_slice();
    assert!(slice.iter().all(|&b| b == 0), "Buffer should be zeroed");
}

#[test]
fn test_read_write() {
    let mut buffer = UmaBuffer::new(1024).unwrap();

    buffer.set_byte(0, 42);
    buffer.set_byte(100, 255);

    assert_eq!(buffer.byte_at(0), 42);
    assert_eq!(buffer.byte_at(100), 255);
}

#[test]
fn test_copy_from_slice() {
    let mut buffer = UmaBuffer::new(1024).unwrap();
    let src = vec![1u8, 2, 3, 4, 5];

    let result = buffer.copy_from_slice(&src);
    assert!(result.is_ok());

    let data = buffer.as_slice();
    assert_eq!(&data[..5], &src[..]);
}

#[test]
fn test_copy_from_slice_too_large() {
    let mut buffer = UmaBuffer::new(10).unwrap();
    let src = vec![0u8; 100];

    let result = buffer.copy_from_slice(&src);
    assert!(result.is_err());
}

#[test]
fn test_copy_from_slice_exact_length() {
    let mut buffer = UmaBuffer::zeroed(8).unwrap();
    let src = vec![9u8, 8, 7, 6, 5, 4, 3, 2];

    assert!(buffer.copy_from_slice(&src).is_ok());
    assert_eq!(buffer.as_slice(), &src[..]);
}

#[test]
fn test_debug_format() {
    let buffer = UmaBuffer::new(1024).unwrap();
    let debug = format!("{buffer:?}");
    assert!(debug.contains("UmaBuffer"));
    assert!(debug.contains("len"));
    assert!(debug.contains("1024"));
}

#[test]
fn test_is_uma_available() {
    let available = UmaBuffer::is_uma_available();
    assert!(!available);
}

#[test]
fn unified_memory_test_convenience_function() {
    assert_eq!(
        manzana::unified_memory::is_available(),
        UmaBuffer::is_uma_available()
    );
}

#[test]
fn test_pointers() {
    let mut buffer = UmaBuffer::new(1024).unwrap();

    let ptr = buffer.as_ptr();
    assert!(ptr != 0);

    let mut_ptr = buffer.as_mut_ptr();
    assert!(mut_ptr != 0);
    assert_eq!(ptr, mut_ptr);
}

#[test]
fn test_large_allocation() {
    let buffer = UmaBuffer::new(1024 * 1024);
    assert!(buffer.is_ok());
}

#[test]
fn test_multiple_buffers() {
    let buffer1 = UmaBuffer::new(1024).unwrap();
    let buffer2 = UmaBuffer::new(2048).unwrap();

    assert_eq!(buffer1.len(), 1024);
    assert_eq!(buffer2.len(), 2048);

    assert_ne!(buffer1.as_ptr(), buffer2.as_ptr());
}

#[test]
fn test_allocation_round_trip_lengths() {
    for len in [1usize, 5, 4095, 4096, 4097, 100_000] {
        let buffer = UmaBuffer::new(len).unwrap();
        assert_eq!(buffer.len(), len);
        assert_eq!(buffer.allocated_size() % PAGE_SIZE, 0);
        assert!(buffer.allocated_size() >= len);
        assert_eq!(buffer.as_ptr() % PAGE_SIZE, 0);
    }
}

#[test]
fn test_zeroed_rejects_bad_lengths() {
    assert!(UmaBuffer::zeroed(0).is_err());
    assert!(UmaBuffer::zeroed((MAX_ALLOCATION as usize) + 1).is_err());
}
