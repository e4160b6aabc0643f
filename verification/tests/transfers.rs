use async_cuda::buffer::{DeviceBuffer, HostBuffer};
use async_cuda::device::Device;
use async_cuda::stream::Stream;

/// The float32 scenario: upload `[1.0, 2.0, 3.0, 4.0]` on stream `A`,
/// synchronize `A`, copy back, and expect the same four values. Buffers hold
/// 32-bit words, so the floats travel as their bit patterns.
#[test]
fn test_float32_round_trip() {
    let values: [f32; 4] = [1.0, 2.0, 3.0, 4.0];
    let words: Vec<u32> = values.iter().map(|v| v.to_bits()).collect();

    let mut dev = Device::new(0, 1 << 20);
    let mut stream_a = Stream::new(&mut dev);
    let host = HostBuffer::from_slice(&words);
    let buffer = DeviceBuffer::from_slice(&host, &mut dev, &mut stream_a).unwrap();
    stream_a.synchronize();

    let mut back = HostBuffer::new(4);
    back.copy_from_device(&buffer, &mut stream_a);
    assert!(!back.is_materialized());
    stream_a.synchronize();
    back.materialize(&stream_a);
    assert!(back.is_materialized());

    let result: Vec<f32> = back.contents().iter().map(|w| f32::from_bits(*w)).collect();
    assert_eq!(result, vec![1.0, 2.0, 3.0, 4.0]);
}

/// The round-trip law on plain words, through an explicit allocation and
/// `copy_to_device` rather than `from_slice`.
#[test]
fn test_word_round_trip() {
    let mut dev = Device::new(0, 4096);
    let mut stream = Stream::new(&mut dev);
    let host = HostBuffer::from_slice(&[11, 22, 33]);
    let mut buffer = DeviceBuffer::allocate(&mut dev, &stream, 3).unwrap();
    host.copy_to_device(&mut buffer, &mut stream);
    let mut back = HostBuffer::new(3);
    back.copy_from_device(&buffer, &mut stream);
    stream.synchronize();
    back.materialize(&stream);
    assert_eq!(back.contents().as_slice(), &[11, 22, 33]);
}

/// Two streams allocate independent 1000-element buffers; after synchronizing
/// both, both read back correctly with no cross-contamination.
#[test]
fn test_two_streams_independent_buffers() {
    let mut dev = Device::new(0, 1 << 20);
    let mut stream_a = Stream::new(&mut dev);
    let mut stream_b = Stream::new(&mut dev);

    let words_a: Vec<u32> = (0..1000).collect();
    let words_b: Vec<u32> = (0..1000).map(|i| 2 * i + 1).collect();
    let host_a = HostBuffer::from_slice(&words_a);
    let host_b = HostBuffer::from_slice(&words_b);

    let buffer_a = DeviceBuffer::from_slice(&host_a, &mut dev, &mut stream_a).unwrap();
    let buffer_b = DeviceBuffer::from_slice(&host_b, &mut dev, &mut stream_b).unwrap();

    // Independent allocations never share an address.
    let a1 = buffer_a.device_ptr().as_ptr();
    let a2 = buffer_b.device_ptr().as_ptr();
    assert!(a1 + 4000 <= a2 || a2 + 4000 <= a1);

    let mut back_a = HostBuffer::new(1000);
    let mut back_b = HostBuffer::new(1000);
    back_a.copy_from_device(&buffer_a, &mut stream_a);
    back_b.copy_from_device(&buffer_b, &mut stream_b);

    stream_a.synchronize();
    stream_b.synchronize();
    back_a.materialize(&stream_a);
    back_b.materialize(&stream_b);

    assert_eq!(back_a.contents().as_slice(), words_a.as_slice());
    assert_eq!(back_b.contents().as_slice(), words_b.as_slice());
}

/// Two dependent operations on the same stream complete in order: the upload
/// enqueued first is visible to the download enqueued second.
#[test]
fn test_fifo_dependent_operations() {
    let mut dev = Device::new(0, 4096);
    let mut stream = Stream::new(&mut dev);
    let host = HostBuffer::from_slice(&[5, 6, 7]);
    let mut buffer = DeviceBuffer::allocate(&mut dev, &stream, 3).unwrap();

    let t1 = host.copy_to_device(&mut buffer, &mut stream);
    let mut back = HostBuffer::new(3);
    let t2 = back.copy_from_device(&buffer, &mut stream);
    assert!(t1 < t2);

    stream.synchronize();
    back.materialize(&stream);
    assert_eq!(back.contents().as_slice(), &[5, 6, 7]);
}

/// Of two uploads to the same buffer on one stream, the later one wins: the
/// queue applies effects in enqueue order.
#[test]
fn test_fifo_later_write_wins() {
    let mut dev = Device::new(0, 4096);
    let mut stream = Stream::new(&mut dev);
    let first = HostBuffer::from_slice(&[1, 1]);
    let second = HostBuffer::from_slice(&[2, 2]);
    let mut buffer = DeviceBuffer::allocate(&mut dev, &stream, 2).unwrap();

    first.copy_to_device(&mut buffer, &mut stream);
    second.copy_to_device(&mut buffer, &mut stream);
    let mut back = HostBuffer::new(2);
    back.copy_from_device(&buffer, &mut stream);

    stream.synchronize();
    back.materialize(&stream);
    assert_eq!(back.contents().as_slice(), &[2, 2]);
}

#[test]
fn test_host_buffer_starts_zeroed() {
    let host = HostBuffer::new(5);
    assert_eq!(host.len(), 5);
    assert!(host.is_materialized());
    assert_eq!(host.contents().as_slice(), &[0, 0, 0, 0, 0]);
}

#[test]
fn test_host_buffer_from_slice_copies() {
    let words: Vec<u32> = vec![8, 9, 10];
    let host = HostBuffer::from_slice(&words);
    assert_eq!(host.len(), 3);
    assert!(host.is_materialized());
    assert_eq!(host.contents().as_slice(), words.as_slice());
}
