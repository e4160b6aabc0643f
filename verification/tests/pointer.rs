use async_cuda::ptr::DevicePtr;

#[test]
fn test_it_holds_on() {
    let fake: u64 = 0xffffffff;
    let ptr = DevicePtr::from_addr(fake);
    assert_eq!(ptr.as_ptr(), 0xffffffff);
}

#[test]
fn test_null() {
    let ptr = DevicePtr::null();
    assert!(ptr.is_null());
    assert_eq!(ptr.as_ptr(), 0);
}

#[test]
fn test_take() {
    let fake: u64 = 0xffffffff;
    let mut ptr = DevicePtr::from_addr(fake);
    assert_eq!(ptr.take().as_ptr(), 0xffffffff);
}

#[test]
fn test_take_leaves_null() {
    let mut ptr = DevicePtr::from_addr(0x1000);
    let taken = ptr.take();
    assert!(ptr.is_null());
    assert!(!taken.is_null());
    assert_eq!(taken.as_ptr(), 0x1000);
}

#[test]
fn test_from_addr_not_null() {
    let ptr = DevicePtr::from_addr(1);
    assert!(!ptr.is_null());
    assert_eq!(ptr.as_ptr(), 1);
}

#[test]
fn test_as_mut_ptr_preserves() {
    let mut ptr = DevicePtr::from_addr(0xabcd);
    assert_eq!(ptr.as_mut_ptr(), 0xabcd);
    assert_eq!(ptr.as_ptr(), 0xabcd);
    assert!(!ptr.is_null());
}
