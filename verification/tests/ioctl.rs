use wdk_safe::ioctl::{IoControlCode, IoStackOffsets, RequiredAccess, TransferMethod};

fn test_code() -> IoControlCode {
    IoControlCode::new(0x8000, 0x800, TransferMethod::Buffered, RequiredAccess::Any)
}

// ── Field accessors ──────────────────────────────────────────────────────────

#[test]
fn device_type_roundtrip() {
    assert_eq!(test_code().device_type(), 0x8000);
}

#[test]
fn function_roundtrip() {
    assert_eq!(test_code().function(), 0x800);
}

#[test]
fn method_is_buffered() {
    assert_eq!(test_code().method(), TransferMethod::Buffered);
}

#[test]
fn access_is_any() {
    assert_eq!(test_code().access(), RequiredAccess::Any);
}

// ── Raw value encoding ───────────────────────────────────────────────────────

#[test]
fn raw_value_deterministic() {
    // (0x8000 << 16) | (0 << 14) | (0x800 << 2) | 0 = 0x8000_2000
    assert_eq!(test_code().into_raw(), 0x8000_2000);
}

#[test]
fn from_raw_roundtrip() {
    let raw = 0x8000_2000_u32;
    assert_eq!(IoControlCode::from_raw(raw).into_raw(), raw);
}

#[test]
fn const_context() {
    let c = IoControlCode::new(0x0001, 0x900, TransferMethod::Neither, RequiredAccess::ReadWrite);
    assert_eq!(c.device_type(), 0x0001);
    assert_eq!(c.function(), 0x900);
}

#[test]
fn all_methods_roundtrip() {
    for method in [
        TransferMethod::Buffered,
        TransferMethod::InDirect,
        TransferMethod::OutDirect,
        TransferMethod::Neither,
    ] {
        let code = IoControlCode::new(0x8000, 0x800, method, RequiredAccess::Any);
        assert_eq!(code.method(), method, "method {method:?} did not roundtrip");
    }
}

#[test]
fn all_access_roundtrip() {
    for access in [
        RequiredAccess::Any,
        RequiredAccess::Read,
        RequiredAccess::Write,
        RequiredAccess::ReadWrite,
    ] {
        let code = IoControlCode::new(0x8000, 0x800, TransferMethod::Buffered, access);
        assert_eq!(code.access(), access, "access {access:?} did not roundtrip");
    }
}

#[test]
fn read_write_raw_value() {
    let code =
        IoControlCode::new(0x8000, 0x800, TransferMethod::Buffered, RequiredAccess::ReadWrite);
    // (0x8000 << 16) | (3 << 14) | (0x800 << 2) | 0 = 0x8000_E000
    assert_eq!(code.into_raw(), 0x8000_E000);
}

// ── Vendor / Microsoft detection ─────────────────────────────────────────────

#[test]
fn vendor_device_type_detected() {
    assert!(test_code().is_vendor_device_type());
    assert!(!test_code().is_microsoft_device_type());
}

#[test]
fn microsoft_device_type_detected() {
    let ms = IoControlCode::new(0x0022, 0x800, TransferMethod::Buffered, RequiredAccess::Any);
    assert!(ms.is_microsoft_device_type());
    assert!(!ms.is_vendor_device_type());
}

#[test]
fn vendor_function_detected() {
    assert!(test_code().is_vendor_function());
}

#[test]
fn microsoft_function_detected() {
    let ms_fn = IoControlCode::new(0x8000, 0x100, TransferMethod::Buffered, RequiredAccess::Any);
    assert!(!ms_fn.is_vendor_function());
}

// ── Collision avoidance ──────────────────────────────────────────────────────

#[test]
fn different_functions_do_not_collide() {
    let a = IoControlCode::new(0x8000, 0x800, TransferMethod::Buffered, RequiredAccess::Any);
    let b = IoControlCode::new(0x8000, 0x801, TransferMethod::Buffered, RequiredAccess::Any);
    assert_ne!(a.into_raw(), b.into_raw());
}

#[test]
fn different_device_types_do_not_collide() {
    let a = IoControlCode::new(0x8000, 0x800, TransferMethod::Buffered, RequiredAccess::Any);
    let b = IoControlCode::new(0x0022, 0x800, TransferMethod::Buffered, RequiredAccess::Any);
    assert_ne!(a.into_raw(), b.into_raw());
}

// ── Formatting ───────────────────────────────────────────────────────────────

#[test]
fn debug_contains_raw_hex() {
    let s = test_code().debug_string();
    assert!(s.contains("0x80002000"), "got: {s}");
}

#[test]
fn display_is_hex() {
    assert_eq!(test_code().display_string(), "0x80002000");
}

// ── Copy / Eq / Hash ─────────────────────────────────────────────────────────

#[test]
fn ioctl_copy_semantics() {
    let a = test_code();
    let b = a;
    assert_eq!(a, b);
}

#[test]
fn equal_codes_compare_equal() {
    let a = IoControlCode::new(0x8000, 0x800, TransferMethod::Buffered, RequiredAccess::Any);
    let b = IoControlCode::new(0x8000, 0x800, TransferMethod::Buffered, RequiredAccess::Any);
    assert_eq!(a, b);
}

// ── Further cases ────────────────────────────────────────────────────────────

#[test]
fn debug_string_exact_text() {
    assert_eq!(
        test_code().debug_string(),
        "IoControlCode { raw: 0x80002000, device_type: 0x8000, function: 0x800, method: Buffered, access: Any }"
    );
    let small = IoControlCode::from_raw(0x0022_4013);
    assert_eq!(
        small.debug_string(),
        "IoControlCode { raw: 0x00224013, device_type: 0x0022, function: 0x004, method: Neither, access: Read }"
    );
}

#[test]
fn decompose_then_recompose_gives_same_code() {
    for raw in [0u32, 1, 0x8000_2000, 0x0022_4013, 0xDEAD_BEEF, 0xFFFF_FFFF] {
        let c = IoControlCode::from_raw(raw);
        let again = IoControlCode::new(c.device_type(), c.function(), c.method(), c.access());
        assert_eq!(again.into_raw(), raw);
    }
}

#[test]
fn oversized_function_spills_into_other_fields() {
    // Function 0x1000 does not fit in 12 bits: like CTL_CODE, the bits are
    // OR-ed in unmasked, and decoding does not give the function back.
    let c = IoControlCode::new(0x8000, 0x1000, TransferMethod::Buffered, RequiredAccess::Any);
    assert_eq!(c.into_raw(), 0x8000_4000);
    assert_eq!(c.function(), 0);
    assert_eq!(c.access(), RequiredAccess::Read);
}

#[test]
fn device_type_zero_is_neither_range() {
    let c = IoControlCode::new(0, 0x800, TransferMethod::Buffered, RequiredAccess::Any);
    assert!(!c.is_microsoft_device_type());
    assert!(!c.is_vendor_device_type());
    let top = IoControlCode::new(0x7FFF, 0x7FF, TransferMethod::Buffered, RequiredAccess::Any);
    assert!(top.is_microsoft_device_type());
    assert!(!top.is_vendor_function());
    let v = IoControlCode::new(0xFFFF, 0xFFF, TransferMethod::Buffered, RequiredAccess::Any);
    assert!(v.is_vendor_device_type());
    assert!(v.is_vendor_function());
}

#[test]
fn method_and_access_bits() {
    assert_eq!(TransferMethod::Buffered.bits(), 0);
    assert_eq!(TransferMethod::InDirect.bits(), 1);
    assert_eq!(TransferMethod::OutDirect.bits(), 2);
    assert_eq!(TransferMethod::Neither.bits(), 3);
    assert_eq!(RequiredAccess::Any.bits(), 0);
    assert_eq!(RequiredAccess::Read.bits(), 1);
    assert_eq!(RequiredAccess::Write.bits(), 2);
    assert_eq!(RequiredAccess::ReadWrite.bits(), 3);
}

#[test]
fn wdk_sys_offsets() {
    let o = IoStackOffsets::wdk_sys_0_5_x64();
    assert_eq!(o.ioctl_code, 0x18);
    assert_eq!(o.input_buffer_length, 0x10);
    assert_eq!(o.output_buffer_length, 0x08);
    assert_eq!(o.irp_system_buffer, 0x70);
    assert_eq!(o.irp_information, 0x38);
}
