use std::sync::Mutex;

use wdk_safe::irp::{IrpCompleter, NoopCompleter};
use wdk_safe::{Device, IoRequest, NtStatus, WdmDriver};

struct DefaultDriver;
impl WdmDriver<NoopCompleter> for DefaultDriver {}

fn dev() -> Device<'static> {
    Device::from_raw(1)
}

fn req() -> IoRequest<'static, NoopCompleter> {
    IoRequest::from_raw(1, &[], &[])
}

// ── Default return values ────────────────────────────────────────────────────

#[test]
fn default_create_is_success() {
    assert!(DefaultDriver::on_create(&dev(), req()).is_success());
}

#[test]
fn default_close_is_success() {
    assert!(DefaultDriver::on_close(&dev(), req()).is_success());
}

#[test]
fn default_cleanup_is_success() {
    assert!(DefaultDriver::on_cleanup(&dev(), req()).is_success());
}

#[test]
fn default_read_is_not_supported() {
    assert_eq!(DefaultDriver::on_read(&dev(), req()), NtStatus::not_supported());
}

#[test]
fn default_write_is_not_supported() {
    assert_eq!(DefaultDriver::on_write(&dev(), req()), NtStatus::not_supported());
}

#[test]
fn default_device_control_is_not_supported() {
    assert_eq!(DefaultDriver::on_device_control(&dev(), req()), NtStatus::not_supported());
}

#[test]
fn default_internal_device_control_is_not_supported() {
    assert_eq!(
        DefaultDriver::on_internal_device_control(&dev(), req()),
        NtStatus::not_supported()
    );
}

#[test]
fn default_power_is_not_supported() {
    assert_eq!(DefaultDriver::on_power(&dev(), req()), NtStatus::not_supported());
}

#[test]
fn default_pnp_is_not_supported() {
    assert_eq!(DefaultDriver::on_pnp(&dev(), req()), NtStatus::not_supported());
}

#[test]
fn default_query_information_is_not_supported() {
    assert_eq!(DefaultDriver::on_query_information(&dev(), req()), NtStatus::not_supported());
}

#[test]
fn default_set_information_is_not_supported() {
    assert_eq!(DefaultDriver::on_set_information(&dev(), req()), NtStatus::not_supported());
}

// ── Custom override ──────────────────────────────────────────────────────────

struct EchoDriver;
impl WdmDriver<NoopCompleter> for EchoDriver {
    fn on_device_control(_device: &Device<'_>, request: IoRequest<'_, NoopCompleter>) -> NtStatus {
        request.complete(NtStatus::success())
    }
}

#[test]
fn custom_override_is_called() {
    assert_eq!(EchoDriver::on_device_control(&dev(), req()), NtStatus::success());
    assert_eq!(EchoDriver::on_read(&dev(), req()), NtStatus::not_supported());
}

struct StrictDriver;
impl WdmDriver<NoopCompleter> for StrictDriver {
    fn on_create(_device: &Device<'_>, request: IoRequest<'_, NoopCompleter>) -> NtStatus {
        request.complete(NtStatus::access_denied())
    }
}

#[test]
fn custom_create_with_different_status() {
    assert_eq!(StrictDriver::on_create(&dev(), req()), NtStatus::access_denied());
}

// ── All defaults are errors or success ───────────────────────────────────────

#[test]
fn not_supported_defaults_are_errors() {
    for status in [
        DefaultDriver::on_read(&dev(), req()),
        DefaultDriver::on_write(&dev(), req()),
        DefaultDriver::on_device_control(&dev(), req()),
        DefaultDriver::on_internal_device_control(&dev(), req()),
        DefaultDriver::on_power(&dev(), req()),
        DefaultDriver::on_pnp(&dev(), req()),
        DefaultDriver::on_query_information(&dev(), req()),
        DefaultDriver::on_set_information(&dev(), req()),
    ] {
        assert!(status.is_error(), "expected error, got {}", status.debug_string());
    }
}

#[test]
fn success_defaults_are_successes() {
    for status in [
        DefaultDriver::on_create(&dev(), req()),
        DefaultDriver::on_close(&dev(), req()),
        DefaultDriver::on_cleanup(&dev(), req()),
    ] {
        assert!(status.is_success(), "expected success, got {}", status.debug_string());
    }
}

/// Every completion seen by `RecordingCompleter`: (IRP, status, information).
static COMPLETIONS: Mutex<Vec<(usize, i32, usize)>> = Mutex::new(Vec::new());

/// Records its arguments, so a test can look up the completion of its own IRP.
struct RecordingCompleter;

impl IrpCompleter for RecordingCompleter {
    fn complete(irp: usize, status: i32, information: usize) {
        COMPLETIONS.lock().unwrap().push((irp, status, information));
    }
}

/// The (status, information) that the IRP at `irp` was completed with.
fn completion_of(irp: usize) -> Option<(i32, usize)> {
    COMPLETIONS
        .lock()
        .unwrap()
        .iter()
        .rev()
        .find(|c| c.0 == irp)
        .map(|c| (c.1, c.2))
}

struct RecordedDriver;
impl WdmDriver<RecordingCompleter> for RecordedDriver {}

#[test]
fn defaults_report_zero_bytes() {
    let req = IoRequest::<RecordingCompleter>::from_raw(0x6001, &[], &[]);
    let _ = RecordedDriver::on_create(&dev(), req);
    assert_eq!(completion_of(0x6001), Some((NtStatus::success().into_raw(), 0)));
    let req2 = IoRequest::<RecordingCompleter>::from_raw(0x6002, &[], &[]);
    let _ = RecordedDriver::on_read(&dev(), req2);
    assert_eq!(completion_of(0x6002), Some((NtStatus::not_supported().into_raw(), 0)));
}

#[test]
fn defaults_complete_the_request_they_are_given() {
    assert_eq!(completion_of(0x6003), None);
    let _ = RecordedDriver::on_pnp(&dev(), IoRequest::from_raw(0x6003, &[], &[]));
    assert_eq!(completion_of(0x6003), Some((NtStatus::not_supported().into_raw(), 0)));
}
