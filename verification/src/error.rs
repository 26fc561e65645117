//! [`NtStatus`]: a newtype over Windows `NTSTATUS` codes.
//!
//! An `NTSTATUS` is a 32-bit integer; bits 31–30 hold the severity
//! (`00` success, `01` informational, `10` warning, `11` error).
//! `NT_SUCCESS(s)` is `s >= 0` as a signed value.

use vstd::prelude::*;
use vstd::string::*;

use crate::text::{hex_text, hex_upper, lemma_hex_text_len};

verus! {

/// The severity class of an [`NtStatus`] (bits 31–30).
#[derive(Clone, Copy, Debug, PartialEq, Eq, Structural)]
pub enum Severity {
    /// Severity bits `00`.
    Success,
    /// Severity bits `01`.
    Informational,
    /// Severity bits `10`.
    Warning,
    /// Severity bits `11`.
    Error,
}

impl Severity {
    /// The variant's name, as `{:?}` prints it.
    pub open spec fn spec_name(self) -> Seq<char> {
        match self {
            Severity::Success => "Success"@,
            Severity::Informational => "Informational"@,
            Severity::Warning => "Warning"@,
            Severity::Error => "Error"@,
        }
    }

    /// The variant's name, as `{:?}` prints it.
    pub fn name(self) -> (s: &'static str)
        ensures
            s@ == self.spec_name(),
    {
        match self {
            Severity::Success => "Success",
            Severity::Informational => "Informational",
            Severity::Warning => "Warning",
            Severity::Error => "Error",
        }
    }
}

/// The severity bits (31–30) of a raw status, read as an unsigned value.
pub open spec fn severity_bits(raw: i32) -> u32 {
    (raw as u32) >> 30u32
}

/// The severity class named by severity bits.
pub open spec fn severity_of_bits(bits: u32) -> Severity {
    if bits == 0 {
        Severity::Success
    } else if bits == 1 {
        Severity::Informational
    } else if bits == 2 {
        Severity::Warning
    } else {
        Severity::Error
    }
}

/// `STATUS_SUCCESS` (`0x0000_0000`): operation completed successfully.
pub const STATUS_SUCCESS: i32 = 0i32;

/// `STATUS_PENDING` (`0x0000_0103`): operation is pending completion (a success value).
pub const STATUS_PENDING: i32 = 259i32;

/// `STATUS_BUFFER_OVERFLOW` (`0x8000_0005`): data was truncated; a warning, not an error.
pub const STATUS_BUFFER_OVERFLOW: i32 = -2147483643i32;

/// `STATUS_UNSUCCESSFUL` (`0xC000_0001`): generic failure.
pub const STATUS_UNSUCCESSFUL: i32 = -1073741823i32;

/// `STATUS_NOT_IMPLEMENTED` (`0xC000_0002`): function not implemented.
pub const STATUS_NOT_IMPLEMENTED: i32 = -1073741822i32;

/// `STATUS_INVALID_PARAMETER` (`0xC000_000D`): invalid parameter passed.
pub const STATUS_INVALID_PARAMETER: i32 = -1073741811i32;

/// `STATUS_ACCESS_DENIED` (`0xC000_0022`): access denied.
pub const STATUS_ACCESS_DENIED: i32 = -1073741790i32;

/// `STATUS_BUFFER_TOO_SMALL` (`0xC000_0023`): buffer too small for the required data; an error.
pub const STATUS_BUFFER_TOO_SMALL: i32 = -1073741789i32;

/// `STATUS_OBJECT_NAME_NOT_FOUND` (`0xC000_0034`): object not found.
pub const STATUS_OBJECT_NAME_NOT_FOUND: i32 = -1073741772i32;

/// `STATUS_INSUFFICIENT_RESOURCES` (`0xC000_009A`): not enough kernel memory.
pub const STATUS_INSUFFICIENT_RESOURCES: i32 = -1073741670i32;

/// `STATUS_DEVICE_NOT_READY` (`0xC000_00A3`): device is not ready.
pub const STATUS_DEVICE_NOT_READY: i32 = -1073741661i32;

/// `STATUS_NOT_SUPPORTED` (`0xC000_00BB`): request not supported by the driver.
pub const STATUS_NOT_SUPPORTED: i32 = -1073741637i32;

/// `STATUS_INVALID_DEVICE_REQUEST` (`0xC000_0010`): invalid request for the device.
pub const STATUS_INVALID_DEVICE_REQUEST: i32 = -1073741808i32;

/// `STATUS_DELETE_PENDING` (`0xC000_0056`): device is being deleted.
pub const STATUS_DELETE_PENDING: i32 = -1073741738i32;

/// `STATUS_NO_MEMORY` (`0xC000_0017`): insufficient virtual memory.
pub const STATUS_NO_MEMORY: i32 = -1073741801i32;

/// A strongly-typed wrapper around a Windows `NTSTATUS` code.
#[derive(Clone, Copy, Debug, PartialEq, Eq, Hash, Structural)]
pub struct NtStatus(i32);

impl View for NtStatus {
    type V = i32;

    closed spec fn view(&self) -> i32 {
        self.0
    }
}

impl NtStatus {
    /// `STATUS_SUCCESS` (`0x0000_0000`).
    pub fn success() -> (s: Self)
        ensures
            s@ == STATUS_SUCCESS,
    {
        NtStatus(STATUS_SUCCESS)
    }

    /// `STATUS_PENDING` (`0x0000_0103`).
    pub fn pending() -> (s: Self)
        ensures
            s@ == STATUS_PENDING,
    {
        NtStatus(STATUS_PENDING)
    }

    /// `STATUS_BUFFER_OVERFLOW` (`0x8000_0005`).
    pub fn buffer_overflow() -> (s: Self)
        ensures
            s@ == STATUS_BUFFER_OVERFLOW,
    {
        NtStatus(STATUS_BUFFER_OVERFLOW)
    }

    /// `STATUS_UNSUCCESSFUL` (`0xC000_0001`).
    pub fn unsuccessful() -> (s: Self)
        ensures
            s@ == STATUS_UNSUCCESSFUL,
    {
        NtStatus(STATUS_UNSUCCESSFUL)
    }

    /// `STATUS_NOT_IMPLEMENTED` (`0xC000_0002`).
    pub fn not_implemented() -> (s: Self)
        ensures
            s@ == STATUS_NOT_IMPLEMENTED,
    {
        NtStatus(STATUS_NOT_IMPLEMENTED)
    }

    /// `STATUS_INVALID_PARAMETER` (`0xC000_000D`).
    pub fn invalid_parameter() -> (s: Self)
        ensures
            s@ == STATUS_INVALID_PARAMETER,
    {
        NtStatus(STATUS_INVALID_PARAMETER)
    }

    /// `STATUS_ACCESS_DENIED` (`0xC000_0022`).
    pub fn access_denied() -> (s: Self)
        ensures
            s@ == STATUS_ACCESS_DENIED,
    {
        NtStatus(STATUS_ACCESS_DENIED)
    }

    /// `STATUS_BUFFER_TOO_SMALL` (`0xC000_0023`).
    pub fn buffer_too_small() -> (s: Self)
        ensures
            s@ == STATUS_BUFFER_TOO_SMALL,
    {
        NtStatus(STATUS_BUFFER_TOO_SMALL)
    }

    /// `STATUS_OBJECT_NAME_NOT_FOUND` (`0xC000_0034`).
    pub fn object_name_not_found() -> (s: Self)
        ensures
            s@ == STATUS_OBJECT_NAME_NOT_FOUND,
    {
        NtStatus(STATUS_OBJECT_NAME_NOT_FOUND)
    }

    /// `STATUS_INSUFFICIENT_RESOURCES` (`0xC000_009A`).
    pub fn insufficient_resources() -> (s: Self)
        ensures
            s@ == STATUS_INSUFFICIENT_RESOURCES,
    {
        NtStatus(STATUS_INSUFFICIENT_RESOURCES)
    }

    /// `STATUS_DEVICE_NOT_READY` (`0xC000_00A3`).
    pub fn device_not_ready() -> (s: Self)
        ensures
            s@ == STATUS_DEVICE_NOT_READY,
    {
        NtStatus(STATUS_DEVICE_NOT_READY)
    }

    /// `STATUS_NOT_SUPPORTED` (`0xC000_00BB`).
    pub fn not_supported() -> (s: Self)
        ensures
            s@ == STATUS_NOT_SUPPORTED,
    {
        NtStatus(STATUS_NOT_SUPPORTED)
    }

    /// `STATUS_INVALID_DEVICE_REQUEST` (`0xC000_0010`).
    pub fn invalid_device_request() -> (s: Self)
        ensures
            s@ == STATUS_INVALID_DEVICE_REQUEST,
    {
        NtStatus(STATUS_INVALID_DEVICE_REQUEST)
    }

    /// `STATUS_DELETE_PENDING` (`0xC000_0056`).
    pub fn delete_pending() -> (s: Self)
        ensures
            s@ == STATUS_DELETE_PENDING,
    {
        NtStatus(STATUS_DELETE_PENDING)
    }

    /// `STATUS_NO_MEMORY` (`0xC000_0017`).
    pub fn no_memory() -> (s: Self)
        ensures
            s@ == STATUS_NO_MEMORY,
    {
        NtStatus(STATUS_NO_MEMORY)
    }

    /// Creates an [`NtStatus`] from a raw `i32` NTSTATUS value.
    pub fn from_raw(status: i32) -> (s: Self)
        ensures
            s@ == status,
    {
        NtStatus(status)
    }

    /// Returns the underlying raw `i32` NTSTATUS value.
    pub fn into_raw(self) -> (r: i32)
        ensures
            r == self@,
    {
        self.0
    }

    /// Returns `true` if this status is a success (`NT_SUCCESS`): the signed
    /// value is `>= 0`, so informational codes count as successes too.
    pub fn is_success(self) -> (r: bool)
        ensures
            r == (self@ >= 0),
    {
        self.0 >= 0
    }

    /// Returns `true` if the severity bits are `01`.
    pub fn is_informational(self) -> (r: bool)
        ensures
            r == (severity_bits(self@) == 1),
    {
        (self.0 as u32) >> 30u32 == 1
    }

    /// Returns `true` if the severity bits are `10`.
    pub fn is_warning(self) -> (r: bool)
        ensures
            r == (severity_bits(self@) == 2),
    {
        (self.0 as u32) >> 30u32 == 2
    }

    /// Returns `true` if the severity bits are `11` (`NT_ERROR`): the value,
    /// read as unsigned, is at least `0xC000_0000`.
    pub fn is_error(self) -> (r: bool)
        ensures
            r == (self@ as u32 >= 0xC000_0000u32),
    {
        (self.0 as u32) >= 0xC000_0000u32
    }

    /// Returns the severity field (bits 31–30) as a [`Severity`].
    pub fn severity(self) -> (r: Severity)
        ensures
            r == severity_of_bits(severity_bits(self@)),
    {
        let bits = (self.0 as u32) >> 30u32;
        if bits == 0 {
            Severity::Success
        } else if bits == 1 {
            Severity::Informational
        } else if bits == 2 {
            Severity::Warning
        } else {
            Severity::Error
        }
    }

    /// The display form: `0x` and eight upper-case hexadecimal digits of
    /// the code read as unsigned (`{:#010X}`).
    pub fn display_string(self) -> (s: String)
        ensures
            s@ == hex_text(self@ as u32 as nat, 8),
            s@.len() == 10,
    {
        proof {
            lemma_hex_text_len(self.0 as u32, 8);
        }
        hex_upper(self.0 as u32, 8)
    }

    /// The debug form: `NtStatus(<display form> / <severity>)`.
    pub fn debug_string(self) -> (s: String)
        ensures
            s@ == "NtStatus("@ + hex_text(self@ as u32 as nat, 8) + " / "@
                + severity_of_bits(severity_bits(self@)).spec_name() + ")"@,
    {
        let mut s = String::from_str("NtStatus(");
        let hex = hex_upper(self.0 as u32, 8);
        s.append(hex.as_str());
        s.append(" / ");
        s.append(self.severity().name());
        s.append(")");
        s
    }
}

/// Each severity predicate agrees with [`NtStatus::severity`]: a status is
/// informational, a warning or an error exactly when its severity class says
/// so, and it is a success (`NT_SUCCESS`) exactly when its class is `Success`
/// or `Informational`. The four classes cover every code.
pub proof fn lemma_severity_predicates(s: NtStatus)
    ensures
        (severity_bits(s@) == 1) <==> severity_of_bits(severity_bits(s@))
            == Severity::Informational,
        (severity_bits(s@) == 2) <==> severity_of_bits(severity_bits(s@)) == Severity::Warning,
        (s@ as u32 >= 0xC000_0000u32) <==> severity_of_bits(severity_bits(s@))
            == Severity::Error,
        (s@ >= 0) <==> (severity_of_bits(severity_bits(s@)) == Severity::Success
            || severity_of_bits(severity_bits(s@)) == Severity::Informational),
{
    let raw = s@;
    assert((raw as u32) >> 30u32 <= 3) by (bit_vector);
    assert(((raw as u32) >= 0xC000_0000u32) <==> ((raw as u32) >> 30u32 == 3)) by (bit_vector);
    assert((raw >= 0) <==> ((raw as u32) >> 30u32 < 2)) by (bit_vector);
}

/// Two statuses are equal exactly when their raw codes are equal, so
/// `from_raw` and `into_raw` are inverse to each other.
pub proof fn lemma_raw_identity(a: NtStatus, b: NtStatus)
    ensures
        (a@ == b@) <==> (a == b),
{
}

} // verus!
