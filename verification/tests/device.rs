use wdk_safe::device::IoBufferingMode;
use wdk_safe::Device;

fn dummy_device() -> Device<'static> {
    Device::from_raw(1)
}

#[test]
fn as_raw_ptr_roundtrip() {
    let ptr = 0xDEAD_BEEFusize;
    let dev = Device::from_raw(ptr);
    assert_eq!(dev.as_raw_ptr(), ptr);
}

#[test]
fn is_valid_for_non_null() {
    assert!(dummy_device().is_valid());
}

#[test]
fn two_devices_with_same_ptr_return_same_raw() {
    let ptr = 0xCAFE_BABEusize;
    let d1 = Device::from_raw(ptr);
    let d2 = Device::from_raw(ptr);
    assert_eq!(d1.as_raw_ptr(), d2.as_raw_ptr());
}

#[test]
fn different_ptrs_return_different_raw() {
    let d1 = Device::from_raw(1);
    let d2 = Device::from_raw(2);
    assert_ne!(d1.as_raw_ptr(), d2.as_raw_ptr());
}

#[test]
fn lifetime_constrains_scope() {
    let dev = Device::from_raw(1);
    assert!(dev.is_valid());
}

#[test]
fn buffering_modes_are_distinct() {
    assert_ne!(IoBufferingMode::Buffered, IoBufferingMode::Direct);
    assert_ne!(IoBufferingMode::Direct, IoBufferingMode::Neither);
    assert_ne!(IoBufferingMode::Buffered, IoBufferingMode::Neither);
}

#[test]
fn highest_address_is_valid() {
    let dev = Device::from_raw(usize::MAX);
    assert!(dev.is_valid());
    assert_eq!(dev.as_raw_ptr(), usize::MAX);
}
