use std::sync::atomic::{AtomicBool, Ordering};

use wdk_safe::irp::{Irp, IrpCompleter, NoopCompleter, RawIrp};
use wdk_safe::NtStatus;

/// Set by `TrackingCompleter::complete`.
static TRACKING_COMPLETE_CALLED: AtomicBool = AtomicBool::new(false);

/// An `IrpCompleter` that records that it was called.
struct TrackingCompleter;

impl IrpCompleter for TrackingCompleter {
    fn complete(_irp: usize, _status: i32, _information: usize) {
        TRACKING_COMPLETE_CALLED.store(true, Ordering::SeqCst);
    }
}

fn dummy() -> usize {
    1
}

// ── Completion ───────────────────────────────────────────────────────────────

#[test]
fn complete_returns_success() {
    let irp = Irp::<NoopCompleter>::from_raw(dummy());
    assert!(irp.complete(NtStatus::success()).is_success());
}

#[test]
fn complete_returns_error() {
    let irp = Irp::<NoopCompleter>::from_raw(dummy());
    assert!(irp.complete(NtStatus::unsuccessful()).is_error());
}

#[test]
fn complete_propagates_exact_status() {
    let irp = Irp::<NoopCompleter>::from_raw(dummy());
    let custom = NtStatus::from_raw(0xC000_00BB_u32 as i32);
    assert_eq!(irp.complete(custom).into_raw(), custom.into_raw());
}

#[test]
fn complete_invokes_completer() {
    TRACKING_COMPLETE_CALLED.store(false, Ordering::SeqCst);
    let irp = Irp::<TrackingCompleter>::from_raw(dummy());
    let _ = irp.complete(NtStatus::success());
    assert!(
        TRACKING_COMPLETE_CALLED.load(Ordering::SeqCst),
        "IrpCompleter::complete was not called"
    );
}

#[test]
fn complete_all_status_values() {
    for status in [
        NtStatus::success(),
        NtStatus::pending(),
        NtStatus::not_supported(),
        NtStatus::invalid_parameter(),
        NtStatus::unsuccessful(),
    ] {
        let irp = Irp::<NoopCompleter>::from_raw(dummy());
        assert_eq!(irp.complete(status), status);
    }
}

// ── Forwarding ───────────────────────────────────────────────────────────────

#[test]
fn into_raw_recovers_pointer() {
    let ptr = dummy();
    let irp = Irp::<NoopCompleter>::from_raw(ptr);
    assert_eq!(irp.into_raw(), ptr);
}

#[test]
fn into_raw_does_not_call_completer() {
    TRACKING_COMPLETE_CALLED.store(false, Ordering::SeqCst);
    let irp = Irp::<TrackingCompleter>::from_raw(dummy());
    let _ = irp.into_raw();
    assert!(
        !TRACKING_COMPLETE_CALLED.load(Ordering::SeqCst),
        "IrpCompleter::complete must NOT be called by into_raw"
    );
}

// ── Pointer identity ─────────────────────────────────────────────────────────

#[test]
fn as_raw_ptr_matches_input() {
    let ptr = 0xDEAD_C0DEusize;
    let irp = Irp::<NoopCompleter>::from_raw(ptr);
    let recovered = irp.as_raw_ptr();
    let _ = irp.complete(NtStatus::success());
    assert_eq!(recovered, ptr);
}

#[test]
fn two_irps_stay_distinct() {
    let irp_a = Irp::<NoopCompleter>::from_raw(1);
    let irp_b = Irp::<NoopCompleter>::from_raw(2);
    assert_ne!(irp_a.as_raw_ptr(), irp_b.as_raw_ptr());
    let _ = irp_a.complete(NtStatus::success());
    let _ = irp_b.complete(NtStatus::success());
}

// ── Completers ───────────────────────────────────────────────────────────────

#[test]
fn noop_completer_is_safe_to_call() {
    NoopCompleter::complete(dummy(), 0, 0);
}

#[test]
fn tracking_completer_starts_false() {
    TRACKING_COMPLETE_CALLED.store(false, Ordering::SeqCst);
    assert!(!TRACKING_COMPLETE_CALLED.load(Ordering::SeqCst));
}

#[test]
fn tracking_completer_records_call() {
    TRACKING_COMPLETE_CALLED.store(false, Ordering::SeqCst);
    TrackingCompleter::complete(dummy(), 0, 0);
    assert!(TRACKING_COMPLETE_CALLED.load(Ordering::SeqCst));
}

// ── Further cases ────────────────────────────────────────────────────────────

/// Records the arguments of the last completion.
static LAST_IRP: std::sync::atomic::AtomicUsize = std::sync::atomic::AtomicUsize::new(0);
static LAST_STATUS: std::sync::atomic::AtomicI32 = std::sync::atomic::AtomicI32::new(0);
static LAST_INFORMATION: std::sync::atomic::AtomicUsize = std::sync::atomic::AtomicUsize::new(0);

struct RecordingCompleter;

impl IrpCompleter for RecordingCompleter {
    fn complete(irp: usize, status: i32, information: usize) {
        LAST_IRP.store(irp, Ordering::SeqCst);
        LAST_STATUS.store(status, Ordering::SeqCst);
        LAST_INFORMATION.store(information, Ordering::SeqCst);
    }
}

#[test]
fn complete_hands_address_status_and_count_to_completer() {
    let irp = Irp::<RecordingCompleter>::from_raw(0x1234_5678);
    let status = NtStatus::access_denied();
    let _ = irp.complete(status);
    assert_eq!(LAST_IRP.load(Ordering::SeqCst), 0x1234_5678);
    assert_eq!(LAST_STATUS.load(Ordering::SeqCst), status.into_raw());
    assert_eq!(LAST_INFORMATION.load(Ordering::SeqCst), 0);
    let irp = Irp::<RecordingCompleter>::from_raw(0x1234_5678);
    assert_eq!(irp.complete_with_info(NtStatus::success(), 17), NtStatus::success());
    assert_eq!(LAST_STATUS.load(Ordering::SeqCst), 0);
    assert_eq!(LAST_INFORMATION.load(Ordering::SeqCst), 17);
}

#[test]
fn raw_irp_carries_address() {
    let r = RawIrp(0xABCD);
    assert_eq!(r.0, 0xABCD);
}
