//! [`IoRequest`]: a dispatched I/O request, the [`Irp`] together with byte
//! views of the IRP and of its current `IO_STACK_LOCATION`.
//!
//! The IOCTL parameters are read from the stack location at the byte offsets
//! that an [`IoStackOffsets`] gives for the running WDK layout.

use core::marker::PhantomData;
use std::rc::Rc;

use vstd::prelude::*;

use crate::error::NtStatus;
use crate::ioctl::{IoControlCode, IoStackOffsets};
use crate::irp::{Irp, IrpCompleter};
use crate::layout::{field_value, read_u32_le, read_usize_le, usize_width};

verus! {

/// An I/O request received in a dispatch callback. It must be completed
/// ([`complete`](IoRequest::complete), [`complete_with_info`](IoRequest::complete_with_info))
/// or forwarded ([`into_raw_irp`](IoRequest::into_raw_irp)); each of these
/// consumes it.
#[must_use]
pub struct IoRequest<'irp, C: IrpCompleter> {
    irp: Irp<'irp, C>,
    irp_bytes: &'irp [u8],
    stack: &'irp [u8],
    // A request stays on the thread that dispatched it: neither `Send` nor `Sync`.
    _not_send: PhantomData<Rc<()>>,
}

impl<'irp, C: IrpCompleter> IoRequest<'irp, C> {
    /// The address of the request's IRP.
    pub closed spec fn irp_addr(self) -> usize {
        self.irp.addr()
    }

    /// The bytes of the request's IRP.
    pub closed spec fn irp_view(self) -> Seq<u8> {
        self.irp_bytes@
    }

    /// The bytes of the request's current stack location.
    pub closed spec fn stack_bytes(self) -> Seq<u8> {
        self.stack@
    }

    /// Builds a request from the address of its IRP (non-zero), a byte view of
    /// that IRP, and a byte view of `IoGetCurrentIrpStackLocation(irp)`.
    pub fn from_raw(irp: usize, irp_bytes: &'irp [u8], stack: &'irp [u8]) -> (r: Self)
        requires
            irp != 0,
        ensures
            r.irp_addr() == irp,
            r.irp_view() == irp_bytes@,
            r.stack_bytes() == stack@,
    {
        IoRequest { irp: Irp::from_raw(irp), irp_bytes, stack, _not_send: PhantomData }
    }

    /// Reads `Parameters.DeviceIoControl.IoControlCode`. Returns `None` when
    /// the field is zero (the IRP is not a device-control request).
    pub fn ioctl_code(&self, offsets: &IoStackOffsets) -> (r: Option<IoControlCode>)
        requires
            offsets.ioctl_code + 4 <= self.stack_bytes().len(),
        ensures
            match r {
                None => field_value(self.stack_bytes(), offsets.ioctl_code as int, 4) == 0,
                Some(code) => field_value(self.stack_bytes(), offsets.ioctl_code as int, 4) != 0
                    && code@ as nat == field_value(
                    self.stack_bytes(),
                    offsets.ioctl_code as int,
                    4,
                ),
            },
    {
        let raw = read_u32_le(self.stack, offsets.ioctl_code);
        if raw == 0 {
            None
        } else {
            Some(IoControlCode::from_raw(raw))
        }
    }

    /// Reads `Parameters.DeviceIoControl.InputBufferLength`.
    pub fn input_buffer_length(&self, offsets: &IoStackOffsets) -> (r: usize)
        requires
            offsets.input_buffer_length + 4 <= self.stack_bytes().len(),
        ensures
            r as nat == field_value(self.stack_bytes(), offsets.input_buffer_length as int, 4),
    {
        read_u32_le(self.stack, offsets.input_buffer_length) as usize
    }

    /// Reads `Parameters.DeviceIoControl.OutputBufferLength`.
    pub fn output_buffer_length(&self, offsets: &IoStackOffsets) -> (r: usize)
        requires
            offsets.output_buffer_length + 4 <= self.stack_bytes().len(),
        ensures
            r as nat == field_value(self.stack_bytes(), offsets.output_buffer_length as int, 4),
    {
        read_u32_le(self.stack, offsets.output_buffer_length) as usize
    }

    /// Reads the `AssociatedIrp.SystemBuffer` address (pointer-sized) from
    /// the request's IRP. Returns `None` when the address is null. Meaningful
    /// for `METHOD_BUFFERED` requests only.
    pub fn system_buffer(&self, offsets: &IoStackOffsets) -> (r: Option<usize>)
        requires
            offsets.irp_system_buffer + usize_width() <= self.irp_view().len(),
        ensures
            match r {
                None => field_value(self.irp_view(), offsets.irp_system_buffer as int, usize_width())
                    == 0,
                Some(addr) => addr != 0 && addr as nat == field_value(
                    self.irp_view(),
                    offsets.irp_system_buffer as int,
                    usize_width(),
                ),
            },
    {
        let addr = read_usize_le(self.irp_bytes, offsets.irp_system_buffer);
        if addr == 0 {
            None
        } else {
            Some(addr)
        }
    }

    /// The address of the IRP's `IoStatus.Information` field.
    pub fn io_status_information_ptr(&self, offsets: &IoStackOffsets) -> (r: usize)
        requires
            self.irp_addr() + offsets.irp_information <= usize::MAX,
        ensures
            r == self.irp_addr() + offsets.irp_information,
    {
        self.irp.as_raw_ptr() + offsets.irp_information
    }

    /// Completes the request with `status` and zero bytes transferred:
    /// `C::complete` is called with the request's IRP address, the raw status
    /// and an `IoStatus.Information` of 0. Returns `status`.
    pub fn complete(self, status: NtStatus) -> (r: NtStatus)
        ensures
            r == status,
            call_ensures(C::complete, (self.irp_addr(), status@, 0usize), ()),
    {
        self.irp.complete(status)
    }

    /// Completes the request with `status`, reporting `bytes_transferred` in
    /// `IoStatus.Information`: `C::complete` is called with the request's IRP
    /// address, the raw status and `bytes_transferred`. Returns `status`.
    pub fn complete_with_info(self, status: NtStatus, bytes_transferred: usize) -> (r: NtStatus)
        ensures
            r == status,
            call_ensures(C::complete, (self.irp_addr(), status@, bytes_transferred), ()),
    {
        self.irp.complete_with_info(status, bytes_transferred)
    }

    /// Gives up the request and returns its IRP address, for forwarding to a
    /// lower driver. The completer is not called.
    pub fn into_raw_irp(self) -> (r: usize)
        ensures
            r == self.irp_addr(),
    {
        self.irp.into_raw()
    }
}

} // verus!
