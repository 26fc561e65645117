//! Ownership of a Windows I/O Request Packet (`IRP`).
//!
//! An [`Irp<C>`] is consumed by exactly one of
//! [`complete`](Irp::complete) or [`complete_with_info`](Irp::complete_with_info),
//! which hand the packet, its status and its byte count to the completer `C`
//! (`IoCompleteRequest` in a driver), or [`into_raw`](Irp::into_raw), which
//! hands the address back for forwarding to a lower driver. Each takes `self`
//! by value, so a packet cannot be completed twice or completed after it was
//! forwarded.
//!
//! Kernel pointers are carried as their addresses (`usize`); a driver converts
//! its `*mut IRP` with `as usize` at the boundary.

use core::marker::PhantomData;

use vstd::prelude::*;

use crate::error::NtStatus;

verus! {

/// The address of a kernel `IRP`, as a distinct type so that it is not
/// confused with other addresses in dispatch code.
#[derive(Debug)]
pub struct RawIrp(pub usize);

/// Completes an IRP: the `IoCompleteRequest` / `IofCompleteRequest` step.
///
/// A driver implements this once, on a zero-sized type, with a body that
/// stores `information` in the packet's `IoStatus.Information`, `status` in
/// its `IoStatus.Status`, and then calls `IofCompleteRequest`. Because the
/// byte count is handed to the completer, it is in place when the I/O manager
/// reads it. The library calls the completer exactly once per [`Irp`], from
/// [`Irp::complete`] or [`Irp::complete_with_info`], with a non-zero address.
///
/// The method is a safe `fn`, but a kernel implementation dereferences `irp`:
/// it may rely on being called only by [`Irp`], that is with the address of a
/// valid IRP that has not been completed, at `IRQL <= DISPATCH_LEVEL`. It must
/// not be called directly with any other address.
pub trait IrpCompleter {
    /// Completes the IRP at address `irp` with the raw status `status`,
    /// reporting `information` bytes transferred.
    fn complete(irp: usize, status: i32, information: usize);
}

/// An [`IrpCompleter`] that does nothing; for host-side tests, where the
/// addresses are dummies that must not be dereferenced.
pub struct NoopCompleter;

impl IrpCompleter for NoopCompleter {
    fn complete(_irp: usize, _status: i32, _information: usize) {
    }
}

/// An owned, non-aliased handle to a kernel `IRP` that must be completed or
/// forwarded.
#[must_use]
pub struct Irp<'irp, C: IrpCompleter> {
    raw: RawIrp,
    _marker: PhantomData<(&'irp mut RawIrp, C)>,
}

impl<'irp, C: IrpCompleter> Irp<'irp, C> {
    /// The packet's address is never zero.
    #[verifier::type_invariant]
    spec fn wf(self) -> bool {
        self.raw.0 != 0
    }

    /// The packet's address.
    pub closed spec fn addr(self) -> usize {
        self.raw.0
    }

    /// Wraps the address of an IRP received in a dispatch callback. The
    /// address must be non-zero (a null `IRP` pointer is a caller bug).
    pub fn from_raw(raw: usize) -> (irp: Self)
        requires
            raw != 0,
        ensures
            irp.addr() == raw,
    {
        Irp { raw: RawIrp(raw), _marker: PhantomData }
    }

    /// Returns the packet's address without giving up ownership.
    pub fn as_raw_ptr(&self) -> (r: usize)
        ensures
            r == self.addr(),
            r != 0,
    {
        proof {
            use_type_invariant(self);
        }
        self.raw.0
    }

    /// Gives up ownership and returns the address, for forwarding the packet
    /// to a lower driver. The completer is not called.
    pub fn into_raw(self) -> (r: usize)
        ensures
            r == self.addr(),
            r != 0,
    {
        proof {
            use_type_invariant(&self);
        }
        self.raw.0
    }

    /// Completes the packet with `status` and zero bytes transferred through
    /// `C::complete`, and returns `status`, so that a dispatch routine can
    /// return it directly. The completer has been called with the packet's
    /// address, the raw status and an `Information` of 0.
    pub fn complete(self, status: NtStatus) -> (r: NtStatus)
        ensures
            r == status,
            call_ensures(C::complete, (self.addr(), status@, 0usize), ()),
    {
        self.complete_with_info(status, 0)
    }

    /// Completes the packet with `status`, reporting `information` bytes
    /// transferred, through `C::complete`; returns `status`. The completer has
    /// been called with the packet's address, the raw status and
    /// `information`.
    pub fn complete_with_info(self, status: NtStatus, information: usize) -> (r: NtStatus)
        ensures
            r == status,
            call_ensures(C::complete, (self.addr(), status@, information), ()),
    {
        let raw = self.raw.0;
        let complete_irp = C::complete;
        complete_irp(raw, status.into_raw(), information);
        status
    }
}

} // verus!
