use async_cuda::buffer::{DeviceBuffer, HostBuffer};
use async_cuda::device::Device;
use async_cuda::stream::Stream;

#[test]
fn test_streams_get_distinct_identities() {
    let mut dev = Device::new(0, 1024);
    let a = Stream::new(&mut dev);
    let b = Stream::new(&mut dev);
    assert_ne!(a.id_value(), b.id_value());
    assert_ne!(a.id_value(), 0);
    assert_ne!(b.id_value(), 0);
    assert_eq!(a.device_index(), 0);
    assert_eq!(b.device_index(), 0);
    assert!(!a.is_default_stream());
}

#[test]
fn test_default_stream_is_distinguished() {
    let dev = Device::new(3, 1024);
    let s = Stream::default_stream(&dev);
    assert!(s.is_default_stream());
    assert_eq!(s.id_value(), 0);
    assert_eq!(s.device_index(), 3);
    assert!(!s.has_outstanding());
}

#[test]
fn test_outstanding_work_lifecycle() {
    let mut dev = Device::new(0, 1024);
    let mut stream = Stream::new(&mut dev);
    assert!(!stream.has_outstanding());
    assert_eq!(stream.issued_count(), 0);
    assert_eq!(stream.completed_count(), 0);

    let host = HostBuffer::from_slice(&[1, 2, 3]);
    let buffer = DeviceBuffer::from_slice(&host, &mut dev, &mut stream).unwrap();
    // The host-to-device copy is queued, not done.
    assert!(stream.has_outstanding());
    assert_eq!(stream.issued_count(), 1);
    assert_eq!(stream.completed_count(), 0);

    stream.synchronize();
    assert!(!stream.has_outstanding());
    assert_eq!(stream.completed_count(), 1);
    assert_eq!(buffer.stream_id(), stream.id_value());
}

#[test]
fn test_destroy_after_synchronize() {
    let mut dev = Device::new(0, 1024);
    let mut stream = Stream::new(&mut dev);
    let host = HostBuffer::from_slice(&[9, 9]);
    let buffer = DeviceBuffer::from_slice(&host, &mut dev, &mut stream).unwrap();
    buffer.free(&mut dev, &mut stream);
    // Destruction demands a drained queue: synchronize first.
    stream.synchronize();
    assert!(!stream.has_outstanding());
    stream.destroy();
}

#[test]
fn test_tickets_are_issued_in_order() {
    let mut dev = Device::new(0, 4096);
    let mut stream = Stream::new(&mut dev);
    let host = HostBuffer::from_slice(&[4, 5, 6, 7]);
    let mut buffer = DeviceBuffer::allocate(&mut dev, &stream, 4).unwrap();
    let t1 = host.copy_to_device(&mut buffer, &mut stream);
    let mut back = HostBuffer::new(4);
    let t2 = back.copy_from_device(&buffer, &mut stream);
    assert!(t1 < t2);
    assert_eq!(t1, 1);
    assert_eq!(t2, 2);
    assert_eq!(stream.issued_count(), 2);
    stream.synchronize();
    assert_eq!(stream.completed_count(), 2);
}

#[test]
fn test_synchronize_is_idempotent() {
    let mut dev = Device::new(0, 1024);
    let mut stream = Stream::new(&mut dev);
    let host = HostBuffer::from_slice(&[1]);
    let _buffer = DeviceBuffer::from_slice(&host, &mut dev, &mut stream).unwrap();
    stream.synchronize();
    let completed = stream.completed_count();
    stream.synchronize();
    assert_eq!(stream.completed_count(), completed);
    assert!(!stream.has_outstanding());
}
