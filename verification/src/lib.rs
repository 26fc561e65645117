//! Verified core of a safe layer for Windows kernel-mode (WDM) driver
//! development.
//!
//! - [`NtStatus`]: `NTSTATUS` codes and their severity classes.
//! - [`IoControlCode`]: the `CTL_CODE` packing of IOCTL codes.
//! - [`irp::Irp`] / [`IoRequest`]: an IRP that is completed or forwarded
//!   exactly once, and the IOCTL parameters of its stack location.
//! - [`Device`]: a lifetime-scoped handle to a `DEVICE_OBJECT`.
//! - [`WdmDriver`]: dispatch routines with the documented defaults.
//! - [`decl`]: the rules of an IOCTL declaration (`define_ioctl!`).
//!
//! Kernel objects are carried as their addresses (`usize`) and kernel
//! structures are read from byte views, so the whole library can be verified
//! and tested on a host without the WDK.

pub mod decl;
pub mod device;
pub mod driver;
pub mod error;
pub mod ioctl;
pub mod irp;
pub mod layout;
pub mod request;
pub mod text;

pub use decl::define_ioctl;
pub use device::Device;
pub use driver::WdmDriver;
pub use error::NtStatus;
pub use ioctl::IoControlCode;
pub use irp::{IrpCompleter, NoopCompleter};
pub use request::IoRequest;
