use async_cuda::context::ExecutionContext;
use async_cuda::device::Device;
use async_cuda::stream::Stream;

#[test]
fn test_context_from_null_stream() {
    let ctx = ExecutionContext::from_null_stream();
    assert!(ctx.uses_null_stream());
    assert_eq!(ctx.bound_stream_id(), None);
    assert_eq!(ctx.bound_device_index(), None);
}

#[test]
fn test_context_from_stream() {
    let mut dev = Device::new(2, 1024);
    let stream = Stream::new(&mut dev);
    let ctx = ExecutionContext::from_stream(&stream);
    assert!(!ctx.uses_null_stream());
    assert_eq!(ctx.bound_stream_id(), Some(stream.id_value()));
    assert_eq!(ctx.bound_device_index(), Some(2));
}

#[test]
fn test_context_does_not_own_the_stream() {
    let mut dev = Device::new(0, 1024);
    let stream = Stream::new(&mut dev);
    let id = stream.id_value();
    let ctx = ExecutionContext::from_stream(&stream);
    // The binding is by value: the stream can be torn down while the
    // context value lives on.
    stream.destroy();
    assert_eq!(ctx.bound_stream_id(), Some(id));
}
