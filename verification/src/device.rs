//! [`Device`]: a non-owning, lifetime-scoped handle to a kernel `DEVICE_OBJECT`.
//!
//! The `'stack` lifetime ties the handle to the dispatch callback frame, so a
//! `Device` cannot be stored past the point where the I/O manager's pointer is
//! valid. The object is carried as its address.

use core::marker::PhantomData;
use std::rc::Rc;

use vstd::prelude::*;

verus! {

/// How the I/O manager handles data buffers for a device (`DEVICE_OBJECT.Flags`).
#[derive(Clone, Copy, Debug, PartialEq, Eq, Structural)]
pub enum IoBufferingMode {
    /// `DO_BUFFERED_IO`: user buffers are copied through a system buffer.
    Buffered,
    /// `DO_DIRECT_IO`: user pages are locked and mapped through an MDL.
    Direct,
    /// Neither flag: the driver receives raw user-mode addresses.
    Neither,
}

/// A non-owning reference to a kernel `DEVICE_OBJECT`, valid for `'stack`.
#[derive(Debug)]
pub struct Device<'stack> {
    raw: usize,
    _stack: PhantomData<&'stack mut ()>,
    // Kernel objects are accessed only under the caller's IRQL discipline:
    // a `Device` is neither `Send` nor `Sync`.
    _not_send: PhantomData<Rc<()>>,
}

impl<'stack> Device<'stack> {
    /// The object's address is never zero.
    #[verifier::type_invariant]
    spec fn wf(self) -> bool {
        self.raw != 0
    }

    /// The object's address.
    pub closed spec fn addr(self) -> usize {
        self.raw
    }

    /// Wraps the address of a `DEVICE_OBJECT`. The address must be non-zero
    /// (a null pointer is a caller bug).
    pub fn from_raw(raw: usize) -> (d: Self)
        requires
            raw != 0,
        ensures
            d.addr() == raw,
    {
        Device { raw, _stack: PhantomData, _not_send: PhantomData }
    }

    /// Returns the object's address, for calls that need a `PDEVICE_OBJECT`.
    pub fn as_raw_ptr(&self) -> (r: usize)
        ensures
            r == self.addr(),
    {
        self.raw
    }

    /// Returns `true` when the address is non-zero, which holds of every
    /// `Device`.
    pub fn is_valid(&self) -> (r: bool)
        ensures
            r == (self.addr() != 0),
            r,
    {
        proof {
            use_type_invariant(self);
        }
        self.raw != 0
    }
}

} // verus!
