use std::collections::hash_map::DefaultHasher;
use std::hash::{Hash, Hasher};

use wdk_safe::error::{Severity, STATUS_NOT_SUPPORTED, STATUS_SUCCESS};
use wdk_safe::NtStatus;

// ── Success ──────────────────────────────────────────────────────────────────

#[test]
fn success_is_success() {
    assert!(NtStatus::success().is_success());
}

#[test]
fn success_is_not_error() {
    assert!(!NtStatus::success().is_error());
}

#[test]
fn success_is_not_warning() {
    assert!(!NtStatus::success().is_warning());
}

#[test]
fn success_is_not_informational() {
    assert!(!NtStatus::success().is_informational());
}

#[test]
fn success_severity_is_success() {
    assert_eq!(NtStatus::success().severity(), Severity::Success);
}

// ── STATUS_PENDING ───────────────────────────────────────────────────────────

#[test]
fn pending_is_success() {
    assert!(NtStatus::pending().is_success());
}

#[test]
fn pending_is_not_error() {
    assert!(!NtStatus::pending().is_error());
}

#[test]
fn pending_severity_is_success() {
    assert_eq!(NtStatus::pending().severity(), Severity::Success);
}

// ── Warning ──────────────────────────────────────────────────────────────────

#[test]
fn buffer_overflow_is_warning() {
    assert!(NtStatus::buffer_overflow().is_warning());
    assert!(!NtStatus::buffer_overflow().is_success());
    assert!(!NtStatus::buffer_overflow().is_error());
}

#[test]
fn warning_severity_detected_by_raw() {
    let warning = NtStatus::from_raw(0x8000_0005_u32 as i32);
    assert!(warning.is_warning());
    assert!(!warning.is_error());
    assert!(!warning.is_success());
    assert_eq!(warning.severity(), Severity::Warning);
}

// ── Informational ────────────────────────────────────────────────────────────

#[test]
fn informational_severity_detected() {
    let info = NtStatus::from_raw(0x4000_0000_u32 as i32);
    assert!(info.is_informational());
    assert!(!info.is_error());
    assert!(!info.is_warning());
    assert!(info.is_success());
    assert_eq!(info.severity(), Severity::Informational);
}

// ── Error constants ──────────────────────────────────────────────────────────

#[test]
fn unsuccessful_is_error() {
    assert!(NtStatus::unsuccessful().is_error());
    assert!(!NtStatus::unsuccessful().is_success());
}

#[test]
fn not_supported_is_error() {
    assert!(NtStatus::not_supported().is_error());
}

#[test]
fn not_implemented_is_error() {
    assert!(NtStatus::not_implemented().is_error());
}

#[test]
fn invalid_parameter_is_error() {
    assert!(NtStatus::invalid_parameter().is_error());
}

#[test]
fn buffer_too_small_is_error() {
    assert!(NtStatus::buffer_too_small().is_error());
    assert_ne!(NtStatus::buffer_too_small(), NtStatus::buffer_overflow());
}

#[test]
fn access_denied_is_error() {
    assert!(NtStatus::access_denied().is_error());
}

#[test]
fn insufficient_resources_is_error() {
    assert!(NtStatus::insufficient_resources().is_error());
}

#[test]
fn device_not_ready_is_error() {
    assert!(NtStatus::device_not_ready().is_error());
}

#[test]
fn invalid_device_request_is_error() {
    assert!(NtStatus::invalid_device_request().is_error());
}

#[test]
fn delete_pending_is_error() {
    assert!(NtStatus::delete_pending().is_error());
}

#[test]
fn no_memory_is_error() {
    assert!(NtStatus::no_memory().is_error());
}

#[test]
fn object_name_not_found_is_error() {
    assert!(NtStatus::object_name_not_found().is_error());
}

#[test]
fn error_codes_have_error_severity() {
    for status in [
        NtStatus::unsuccessful(),
        NtStatus::not_supported(),
        NtStatus::invalid_parameter(),
        NtStatus::access_denied(),
    ] {
        assert_eq!(status.severity(), Severity::Error, "for {}", status.debug_string());
    }
}

// ── Raw roundtrips ───────────────────────────────────────────────────────────

#[test]
fn raw_roundtrip_success() {
    assert_eq!(NtStatus::from_raw(0).into_raw(), 0);
}

#[test]
fn raw_roundtrip_error() {
    let raw = 0xC000_0001_u32 as i32;
    assert_eq!(NtStatus::from_raw(raw).into_raw(), raw);
}

#[test]
fn raw_roundtrip_arbitrary() {
    for raw_u32 in [0u32, 0x4000_0000, 0x8000_0005, 0xC000_0001, 0xFFFF_FFFF] {
        let raw = raw_u32 as i32;
        assert_eq!(NtStatus::from_raw(raw).into_raw(), raw);
    }
}

// ── Formatting ───────────────────────────────────────────────────────────────

#[test]
fn debug_format_success() {
    let s = NtStatus::success().debug_string();
    assert!(s.contains("0x00000000"), "got: {s}");
    assert!(s.contains("Success"), "got: {s}");
}

#[test]
fn debug_format_error() {
    let s = NtStatus::unsuccessful().debug_string();
    assert!(s.contains("0xC0000001"), "got: {s}");
    assert!(s.contains("Error"), "got: {s}");
}

#[test]
fn display_format_is_hex() {
    assert_eq!(NtStatus::success().display_string(), "0x00000000");
    let err = NtStatus::from_raw(0xC000_0001_u32 as i32);
    assert_eq!(err.display_string(), "0xC0000001");
}

// ── Equality & Hash ──────────────────────────────────────────────────────────

#[test]
fn equality_same_value() {
    assert_eq!(NtStatus::success(), NtStatus::from_raw(0));
}

#[test]
fn inequality_different_values() {
    assert_ne!(NtStatus::success(), NtStatus::unsuccessful());
}

#[test]
fn error_copy_semantics() {
    let a = NtStatus::success();
    let b = a;
    assert_eq!(a, b);
}

#[test]
fn hash_consistent_with_eq() {
    fn hash(s: NtStatus) -> u64 {
        let mut h = DefaultHasher::new();
        s.hash(&mut h);
        h.finish()
    }

    assert_eq!(hash(NtStatus::success()), hash(NtStatus::from_raw(0)));
    assert_ne!(hash(NtStatus::success()), hash(NtStatus::unsuccessful()));
}

// ── Further cases ────────────────────────────────────────────────────────────

#[test]
fn debug_format_exact_text() {
    assert_eq!(NtStatus::success().debug_string(), "NtStatus(0x00000000 / Success)");
    assert_eq!(
        NtStatus::buffer_overflow().debug_string(),
        "NtStatus(0x80000005 / Warning)"
    );
    assert_eq!(
        NtStatus::from_raw(0x4000_0012_u32 as i32).debug_string(),
        "NtStatus(0x40000012 / Informational)"
    );
}

#[test]
fn named_statuses_have_documented_codes() {
    let expected: [(NtStatus, u32); 15] = [
        (NtStatus::success(), 0x0000_0000),
        (NtStatus::pending(), 0x0000_0103),
        (NtStatus::buffer_overflow(), 0x8000_0005),
        (NtStatus::unsuccessful(), 0xC000_0001),
        (NtStatus::not_implemented(), 0xC000_0002),
        (NtStatus::invalid_parameter(), 0xC000_000D),
        (NtStatus::access_denied(), 0xC000_0022),
        (NtStatus::buffer_too_small(), 0xC000_0023),
        (NtStatus::object_name_not_found(), 0xC000_0034),
        (NtStatus::insufficient_resources(), 0xC000_009A),
        (NtStatus::device_not_ready(), 0xC000_00A3),
        (NtStatus::not_supported(), 0xC000_00BB),
        (NtStatus::invalid_device_request(), 0xC000_0010),
        (NtStatus::delete_pending(), 0xC000_0056),
        (NtStatus::no_memory(), 0xC000_0017),
    ];
    for (status, raw) in expected {
        assert_eq!(status.into_raw() as u32, raw);
    }
    assert_eq!(STATUS_SUCCESS, 0);
    assert_eq!(STATUS_NOT_SUPPORTED as u32, 0xC000_00BB);
}

#[test]
fn severity_boundaries() {
    // Each class edge: the first and last code of every severity.
    let cases: [(u32, Severity); 8] = [
        (0x0000_0000, Severity::Success),
        (0x3FFF_FFFF, Severity::Success),
        (0x4000_0000, Severity::Informational),
        (0x7FFF_FFFF, Severity::Informational),
        (0x8000_0000, Severity::Warning),
        (0xBFFF_FFFF, Severity::Warning),
        (0xC000_0000, Severity::Error),
        (0xFFFF_FFFF, Severity::Error),
    ];
    for (raw, severity) in cases {
        let s = NtStatus::from_raw(raw as i32);
        assert_eq!(s.severity(), severity);
        // Exactly one class, and the predicates agree with it.
        assert_eq!(s.is_informational(), severity == Severity::Informational);
        assert_eq!(s.is_warning(), severity == Severity::Warning);
        assert_eq!(s.is_error(), severity == Severity::Error);
        assert_eq!(
            s.is_success(),
            severity == Severity::Success || severity == Severity::Informational
        );
    }
}

#[test]
fn severity_names() {
    assert_eq!(Severity::Success.name(), "Success");
    assert_eq!(Severity::Informational.name(), "Informational");
    assert_eq!(Severity::Warning.name(), "Warning");
    assert_eq!(Severity::Error.name(), "Error");
}
