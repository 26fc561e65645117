//! [`WdmDriver`]: the dispatch behaviour of a WDM driver, one method per IRP
//! major function.
//!
//! Every method has a default that completes the request:
//! `on_create`, `on_close` and `on_cleanup` with `STATUS_SUCCESS`, all others
//! with `STATUS_NOT_SUPPORTED`. A driver overrides only what it handles.

use vstd::prelude::*;

use crate::device::Device;
use crate::error::{NtStatus, STATUS_NOT_SUPPORTED, STATUS_SUCCESS};
use crate::irp::IrpCompleter;
use crate::request::IoRequest;

verus! {

/// The dispatch routines of a WDM kernel-mode driver that completes IRPs
/// through `C`.
pub trait WdmDriver<C: IrpCompleter> {
    /// `IRP_MJ_CREATE`: a client opened a handle to the device.
    ///
    /// The default completes the request with `STATUS_SUCCESS` and zero
    /// bytes transferred (through `C::complete`, with the request's IRP
    /// address, that status and an `Information` of 0) and returns that
    /// status.
    fn on_create(_device: &Device<'_>, request: IoRequest<'_, C>) -> (r: NtStatus)
        default_ensures
            r@ == STATUS_SUCCESS,
            call_ensures(C::complete, (request.irp_addr(), STATUS_SUCCESS, 0usize), ()),
    {
        request.complete(NtStatus::success())
    }

    /// `IRP_MJ_CLOSE`: the last handle to the device file was closed.
    ///
    /// The default completes the request with `STATUS_SUCCESS` and zero
    /// bytes transferred (through `C::complete`, with the request's IRP
    /// address, that status and an `Information` of 0) and returns that
    /// status.
    fn on_close(_device: &Device<'_>, request: IoRequest<'_, C>) -> (r: NtStatus)
        default_ensures
            r@ == STATUS_SUCCESS,
            call_ensures(C::complete, (request.irp_addr(), STATUS_SUCCESS, 0usize), ()),
    {
        request.complete(NtStatus::success())
    }

    /// `IRP_MJ_READ`: data is read from the device.
    ///
    /// The default completes the request with `STATUS_NOT_SUPPORTED` and zero
    /// bytes transferred (through `C::complete`, with the request's IRP
    /// address, that status and an `Information` of 0) and returns that
    /// status.
    fn on_read(_device: &Device<'_>, request: IoRequest<'_, C>) -> (r: NtStatus)
        default_ensures
            r@ == STATUS_NOT_SUPPORTED,
            call_ensures(C::complete, (request.irp_addr(), STATUS_NOT_SUPPORTED, 0usize), ()),
    {
        request.complete(NtStatus::not_supported())
    }

    /// `IRP_MJ_WRITE`: data is written to the device.
    ///
    /// The default completes the request with `STATUS_NOT_SUPPORTED` and zero
    /// bytes transferred (through `C::complete`, with the request's IRP
    /// address, that status and an `Information` of 0) and returns that
    /// status.
    fn on_write(_device: &Device<'_>, request: IoRequest<'_, C>) -> (r: NtStatus)
        default_ensures
            r@ == STATUS_NOT_SUPPORTED,
            call_ensures(C::complete, (request.irp_addr(), STATUS_NOT_SUPPORTED, 0usize), ()),
    {
        request.complete(NtStatus::not_supported())
    }

    /// `IRP_MJ_DEVICE_CONTROL`: a user-mode IOCTL (`DeviceIoControl`).
    ///
    /// The default completes the request with `STATUS_NOT_SUPPORTED` and zero
    /// bytes transferred (through `C::complete`, with the request's IRP
    /// address, that status and an `Information` of 0) and returns that
    /// status.
    fn on_device_control(_device: &Device<'_>, request: IoRequest<'_, C>) -> (r: NtStatus)
        default_ensures
            r@ == STATUS_NOT_SUPPORTED,
            call_ensures(C::complete, (request.irp_addr(), STATUS_NOT_SUPPORTED, 0usize), ()),
    {
        request.complete(NtStatus::not_supported())
    }

    /// `IRP_MJ_INTERNAL_DEVICE_CONTROL`: a kernel-mode internal IOCTL.
    ///
    /// The default completes the request with `STATUS_NOT_SUPPORTED` and zero
    /// bytes transferred (through `C::complete`, with the request's IRP
    /// address, that status and an `Information` of 0) and returns that
    /// status.
    fn on_internal_device_control(_device: &Device<'_>, request: IoRequest<'_, C>) -> (r: NtStatus)
        default_ensures
            r@ == STATUS_NOT_SUPPORTED,
            call_ensures(C::complete, (request.irp_addr(), STATUS_NOT_SUPPORTED, 0usize), ()),
    {
        request.complete(NtStatus::not_supported())
    }

    /// `IRP_MJ_POWER`: a power state transition. Drivers attached to a device stack must override this to pass power IRPs down.
    ///
    /// The default completes the request with `STATUS_NOT_SUPPORTED` and zero
    /// bytes transferred (through `C::complete`, with the request's IRP
    /// address, that status and an `Information` of 0) and returns that
    /// status.
    fn on_power(_device: &Device<'_>, request: IoRequest<'_, C>) -> (r: NtStatus)
        default_ensures
            r@ == STATUS_NOT_SUPPORTED,
            call_ensures(C::complete, (request.irp_addr(), STATUS_NOT_SUPPORTED, 0usize), ()),
    {
        request.complete(NtStatus::not_supported())
    }

    /// `IRP_MJ_PNP`: a Plug-and-Play request. Filter drivers must override this to forward PnP IRPs.
    ///
    /// The default completes the request with `STATUS_NOT_SUPPORTED` and zero
    /// bytes transferred (through `C::complete`, with the request's IRP
    /// address, that status and an `Information` of 0) and returns that
    /// status.
    fn on_pnp(_device: &Device<'_>, request: IoRequest<'_, C>) -> (r: NtStatus)
        default_ensures
            r@ == STATUS_NOT_SUPPORTED,
            call_ensures(C::complete, (request.irp_addr(), STATUS_NOT_SUPPORTED, 0usize), ()),
    {
        request.complete(NtStatus::not_supported())
    }

    /// `IRP_MJ_CLEANUP`: all handles to the device file were closed.
    ///
    /// The default completes the request with `STATUS_SUCCESS` and zero
    /// bytes transferred (through `C::complete`, with the request's IRP
    /// address, that status and an `Information` of 0) and returns that
    /// status.
    fn on_cleanup(_device: &Device<'_>, request: IoRequest<'_, C>) -> (r: NtStatus)
        default_ensures
            r@ == STATUS_SUCCESS,
            call_ensures(C::complete, (request.irp_addr(), STATUS_SUCCESS, 0usize), ()),
    {
        request.complete(NtStatus::success())
    }

    /// `IRP_MJ_QUERY_INFORMATION`: query file/device information.
    ///
    /// The default completes the request with `STATUS_NOT_SUPPORTED` and zero
    /// bytes transferred (through `C::complete`, with the request's IRP
    /// address, that status and an `Information` of 0) and returns that
    /// status.
    fn on_query_information(_device: &Device<'_>, request: IoRequest<'_, C>) -> (r: NtStatus)
        default_ensures
            r@ == STATUS_NOT_SUPPORTED,
            call_ensures(C::complete, (request.irp_addr(), STATUS_NOT_SUPPORTED, 0usize), ()),
    {
        request.complete(NtStatus::not_supported())
    }

    /// `IRP_MJ_SET_INFORMATION`: set file/device information.
    ///
    /// The default completes the request with `STATUS_NOT_SUPPORTED` and zero
    /// bytes transferred (through `C::complete`, with the request's IRP
    /// address, that status and an `Information` of 0) and returns that
    /// status.
    fn on_set_information(_device: &Device<'_>, request: IoRequest<'_, C>) -> (r: NtStatus)
        default_ensures
            r@ == STATUS_NOT_SUPPORTED,
            call_ensures(C::complete, (request.irp_addr(), STATUS_NOT_SUPPORTED, 0usize), ()),
    {
        request.complete(NtStatus::not_supported())
    }
}

} // verus!
