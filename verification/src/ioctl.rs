//! [`IoControlCode`]: a typed Windows I/O control code, and [`IoStackOffsets`],
//! the byte offsets of the `IO_STACK_LOCATION` / `IRP` fields that dispatch
//! code reads.
//!
//! An IOCTL code is a 32-bit value packed as (the `CTL_CODE` layout):
//!
//! ```text
//! Bits 31–16  DeviceType   (0x0001–0x7FFF = Microsoft, 0x8000–0xFFFF = custom)
//! Bits 15–14  Access
//! Bits 13– 2  Function     (0x000–0x7FF = Microsoft, 0x800–0xFFF = custom)
//! Bits  1– 0  Method
//! ```

use vstd::prelude::*;
use vstd::string::*;

use crate::text::{hex_text, hex_upper, lemma_hex_text_len};

verus! {

/// Buffer transfer method of an IOCTL (bits 1–0).
#[derive(Clone, Copy, Debug, PartialEq, Eq, Hash, Structural)]
pub enum TransferMethod {
    /// `METHOD_BUFFERED` (0): buffers are copied through `AssociatedIrp.SystemBuffer`.
    Buffered,
    /// `METHOD_IN_DIRECT` (1): input via the system buffer, output via an MDL.
    InDirect,
    /// `METHOD_OUT_DIRECT` (2): output via an MDL, input via the system buffer.
    OutDirect,
    /// `METHOD_NEITHER` (3): the driver receives raw user-mode addresses.
    Neither,
}

/// Required access of an IOCTL (bits 15–14).
#[derive(Clone, Copy, Debug, PartialEq, Eq, Hash, Structural)]
pub enum RequiredAccess {
    /// `FILE_ANY_ACCESS` (0).
    Any,
    /// `FILE_READ_DATA` (1).
    Read,
    /// `FILE_WRITE_DATA` (2).
    Write,
    /// `FILE_READ_DATA | FILE_WRITE_DATA` (3).
    ReadWrite,
}

impl TransferMethod {
    /// The two-bit field value of this method.
    pub open spec fn spec_bits(self) -> u32 {
        match self {
            TransferMethod::Buffered => 0,
            TransferMethod::InDirect => 1,
            TransferMethod::OutDirect => 2,
            TransferMethod::Neither => 3,
        }
    }

    /// The method a two-bit field value names (only the low two bits count).
    pub open spec fn spec_from_bits(bits: u32) -> TransferMethod {
        let b = bits & 3u32;
        if b == 0 {
            TransferMethod::Buffered
        } else if b == 1 {
            TransferMethod::InDirect
        } else if b == 2 {
            TransferMethod::OutDirect
        } else {
            TransferMethod::Neither
        }
    }

    /// The two-bit field value of this method.
    pub fn bits(self) -> (b: u32)
        ensures
            b == self.spec_bits(),
    {
        match self {
            TransferMethod::Buffered => 0,
            TransferMethod::InDirect => 1,
            TransferMethod::OutDirect => 2,
            TransferMethod::Neither => 3,
        }
    }

    /// The variant's name, as `{:?}` prints it.
    pub open spec fn spec_name(self) -> Seq<char> {
        match self {
            TransferMethod::Buffered => "Buffered"@,
            TransferMethod::InDirect => "InDirect"@,
            TransferMethod::OutDirect => "OutDirect"@,
            TransferMethod::Neither => "Neither"@,
        }
    }

    /// The variant's name, as `{:?}` prints it.
    pub fn name(self) -> (s: &'static str)
        ensures
            s@ == self.spec_name(),
    {
        match self {
            TransferMethod::Buffered => "Buffered",
            TransferMethod::InDirect => "InDirect",
            TransferMethod::OutDirect => "OutDirect",
            TransferMethod::Neither => "Neither",
        }
    }
}

impl RequiredAccess {
    /// The two-bit field value of this access.
    pub open spec fn spec_bits(self) -> u32 {
        match self {
            RequiredAccess::Any => 0,
            RequiredAccess::Read => 1,
            RequiredAccess::Write => 2,
            RequiredAccess::ReadWrite => 3,
        }
    }

    /// The access a two-bit field value names (only the low two bits count).
    pub open spec fn spec_from_bits(bits: u32) -> RequiredAccess {
        let b = bits & 3u32;
        if b == 0 {
            RequiredAccess::Any
        } else if b == 1 {
            RequiredAccess::Read
        } else if b == 2 {
            RequiredAccess::Write
        } else {
            RequiredAccess::ReadWrite
        }
    }

    /// The two-bit field value of this access.
    pub fn bits(self) -> (b: u32)
        ensures
            b == self.spec_bits(),
    {
        match self {
            RequiredAccess::Any => 0,
            RequiredAccess::Read => 1,
            RequiredAccess::Write => 2,
            RequiredAccess::ReadWrite => 3,
        }
    }

    /// The variant's name, as `{:?}` prints it.
    pub open spec fn spec_name(self) -> Seq<char> {
        match self {
            RequiredAccess::Any => "Any"@,
            RequiredAccess::Read => "Read"@,
            RequiredAccess::Write => "Write"@,
            RequiredAccess::ReadWrite => "ReadWrite"@,
        }
    }

    /// The variant's name, as `{:?}` prints it.
    pub fn name(self) -> (s: &'static str)
        ensures
            s@ == self.spec_name(),
    {
        match self {
            RequiredAccess::Any => "Any",
            RequiredAccess::Read => "Read",
            RequiredAccess::Write => "Write",
            RequiredAccess::ReadWrite => "ReadWrite",
        }
    }
}

/// The `CTL_CODE` packing of the four fields.
pub open spec fn ctl_code(
    device_type: u16,
    function: u16,
    method: TransferMethod,
    access: RequiredAccess,
) -> u32 {
    ((device_type as u32) << 16u32) | (access.spec_bits() << 14u32) | ((function as u32) << 2u32)
        | method.spec_bits()
}

/// The `DeviceType` field (bits 31–16) of a raw code.
pub open spec fn code_device_type(raw: u32) -> u16 {
    (raw >> 16u32) as u16
}

/// The `Function` field (bits 13–2) of a raw code.
pub open spec fn code_function(raw: u32) -> u16 {
    ((raw >> 2u32) & 0x0FFFu32) as u16
}

/// The `Method` field (bits 1–0) of a raw code.
pub open spec fn code_method(raw: u32) -> TransferMethod {
    TransferMethod::spec_from_bits(raw)
}

/// The `Access` field (bits 15–14) of a raw code.
pub open spec fn code_access(raw: u32) -> RequiredAccess {
    RequiredAccess::spec_from_bits(raw >> 14u32)
}

/// A strongly-typed Windows I/O control code.
#[derive(Clone, Copy, Debug, PartialEq, Eq, Hash, Structural)]
pub struct IoControlCode(u32);

impl View for IoControlCode {
    type V = u32;

    closed spec fn view(&self) -> u32 {
        self.0
    }
}

impl IoControlCode {
    /// Packs the four fields as `CTL_CODE` does. The fields are OR-ed without
    /// masking, so a `function` above `0xFFF` spills into the access and
    /// device-type bits, as in the C macro.
    pub fn new(
        device_type: u16,
        function: u16,
        method: TransferMethod,
        access: RequiredAccess,
    ) -> (c: Self)
        ensures
            c@ == ctl_code(device_type, function, method, access),
    {
        let code = ((device_type as u32) << 16u32) | (access.bits() << 14u32) | ((function as u32)
            << 2u32) | method.bits();
        IoControlCode(code)
    }

    /// Wraps a raw 32-bit IOCTL code.
    pub fn from_raw(code: u32) -> (c: Self)
        ensures
            c@ == code,
    {
        IoControlCode(code)
    }

    /// Returns the raw 32-bit IOCTL code.
    pub fn into_raw(self) -> (r: u32)
        ensures
            r == self@,
    {
        self.0
    }

    /// Returns the `DeviceType` field (bits 31–16).
    pub fn device_type(self) -> (r: u16)
        ensures
            r == code_device_type(self@),
    {
        (self.0 >> 16u32) as u16
    }

    /// Returns the `Function` field (bits 13–2).
    pub fn function(self) -> (r: u16)
        ensures
            r == code_function(self@),
    {
        ((self.0 >> 2u32) & 0x0FFFu32) as u16
    }

    /// Returns the [`TransferMethod`] field (bits 1–0).
    pub fn method(self) -> (r: TransferMethod)
        ensures
            r == code_method(self@),
    {
        let b = self.0 & 3u32;
        if b == 0 {
            TransferMethod::Buffered
        } else if b == 1 {
            TransferMethod::InDirect
        } else if b == 2 {
            TransferMethod::OutDirect
        } else {
            TransferMethod::Neither
        }
    }

    /// Returns the [`RequiredAccess`] field (bits 15–14).
    pub fn access(self) -> (r: RequiredAccess)
        ensures
            r == code_access(self@),
    {
        let b = (self.0 >> 14u32) & 3u32;
        if b == 0 {
            RequiredAccess::Any
        } else if b == 1 {
            RequiredAccess::Read
        } else if b == 2 {
            RequiredAccess::Write
        } else {
            RequiredAccess::ReadWrite
        }
    }

    /// `true` if the device type is Microsoft-reserved (`0x0001`–`0x7FFF`).
    pub fn is_microsoft_device_type(self) -> (r: bool)
        ensures
            r == (1 <= code_device_type(self@) <= 0x7FFF),
    {
        let dt = self.device_type();
        dt >= 0x0001 && dt <= 0x7FFF
    }

    /// `true` if the device type is vendor-defined (`0x8000`–`0xFFFF`).
    pub fn is_vendor_device_type(self) -> (r: bool)
        ensures
            r == (code_device_type(self@) >= 0x8000),
    {
        self.device_type() >= 0x8000
    }

    /// `true` if the function code is vendor-defined (`0x800`–`0xFFF`).
    pub fn is_vendor_function(self) -> (r: bool)
        ensures
            r == (code_function(self@) >= 0x800),
    {
        self.function() >= 0x800
    }

    /// The display form: `{:#010X}` of the raw code.
    pub fn display_string(self) -> (s: String)
        ensures
            s@ == hex_text(self@ as nat, 8),
            s@.len() == 10,
    {
        proof {
            lemma_hex_text_len(self.0, 8);
        }
        hex_upper(self.0, 8)
    }

    /// The debug form, as a derived-style struct listing:
    /// `IoControlCode { raw: .., device_type: .., function: .., method: .., access: .. }`
    /// with the raw code as `{:#010X}`, the device type as `{:#06X}` and the
    /// function as `{:#05X}`.
    pub fn debug_string(self) -> (s: String)
        ensures
            s@ == "IoControlCode { raw: "@ + hex_text(self@ as nat, 8) + ", device_type: "@
                + hex_text(code_device_type(self@) as nat, 4) + ", function: "@ + hex_text(
                code_function(self@) as nat,
                3,
            ) + ", method: "@ + code_method(self@).spec_name() + ", access: "@ + code_access(
                self@,
            ).spec_name() + " }"@,
    {
        let mut s = String::from_str("IoControlCode { raw: ");
        let raw = hex_upper(self.0, 8);
        s.append(raw.as_str());
        s.append(", device_type: ");
        let dt = hex_upper(self.device_type() as u32, 4);
        s.append(dt.as_str());
        s.append(", function: ");
        let func = hex_upper(self.function() as u32, 3);
        s.append(func.as_str());
        s.append(", method: ");
        s.append(self.method().name());
        s.append(", access: ");
        s.append(self.access().name());
        s.append(" }");
        s
    }
}

/// Two codes are equal exactly when their raw values are, so `from_raw` and
/// `into_raw` are inverse to each other.
pub proof fn lemma_raw_identity(a: IoControlCode, b: IoControlCode)
    ensures
        (a@ == b@) <==> (a == b),
{
}

/// Decoding a packed code gives back the fields it was packed from, provided
/// the function code fits its twelve bits (`function <= 0xFFF`).
pub proof fn lemma_decode_encode(
    device_type: u16,
    function: u16,
    method: TransferMethod,
    access: RequiredAccess,
)
    requires
        function <= 0xFFF,
    ensures
        code_device_type(ctl_code(device_type, function, method, access)) == device_type,
        code_function(ctl_code(device_type, function, method, access)) == function,
        code_method(ctl_code(device_type, function, method, access)) == method,
        code_access(ctl_code(device_type, function, method, access)) == access,
{
    let d = device_type as u32;
    let f = function as u32;
    let m = method.spec_bits();
    let a = access.spec_bits();
    assert(d < 0x10000 && f <= 0xFFF && m < 4 && a < 4);
    let c = (d << 16u32) | (a << 14u32) | (f << 2u32) | m;
    assert(c >> 16u32 == d && (c >> 2u32) & 0x0FFFu32 == f && c & 3u32 == m && (c >> 14u32)
        & 3u32 == a) by (bit_vector)
        requires
            d < 0x10000 && f <= 0xFFF && m < 4 && a < 4,
            c == (d << 16u32) | (a << 14u32) | (f << 2u32) | m,
    ;
    assert(((c >> 16u32) as u16) as u32 == c >> 16u32);
}

/// Every 32-bit code is the packing of its own four fields: decoding and
/// re-encoding any code gives the same code back.
pub proof fn lemma_encode_decode(raw: u32)
    ensures
        ctl_code(code_device_type(raw), code_function(raw), code_method(raw), code_access(raw))
            == raw,
{
    let d = raw >> 16u32;
    let f = (raw >> 2u32) & 0x0FFFu32;
    let m = raw & 3u32;
    let a = (raw >> 14u32) & 3u32;
    assert(d < 0x10000) by (bit_vector)
        requires
            d == raw >> 16u32,
    ;
    assert(f <= 0xFFF) by (bit_vector)
        requires
            f == (raw >> 2u32) & 0x0FFFu32,
    ;
    assert(m < 4) by (bit_vector)
        requires
            m == raw & 3u32,
    ;
    assert(a < 4 && a == (raw >> 14u32) & 3u32) by (bit_vector)
        requires
            a == (raw >> 14u32) & 3u32,
    ;
    assert(code_method(raw).spec_bits() == m);
    assert(code_access(raw).spec_bits() == a);
    assert((d << 16u32) | (a << 14u32) | (f << 2u32) | m == raw) by (bit_vector)
        requires
            d == raw >> 16u32,
            f == (raw >> 2u32) & 0x0FFFu32,
            m == raw & 3u32,
            a == (raw >> 14u32) & 3u32,
    ;
}

/// Codes built from different fields differ (no two field tuples collide),
/// as long as both function codes fit their twelve bits.
pub proof fn lemma_encode_injective(
    d1: u16,
    f1: u16,
    m1: TransferMethod,
    a1: RequiredAccess,
    d2: u16,
    f2: u16,
    m2: TransferMethod,
    a2: RequiredAccess,
)
    requires
        f1 <= 0xFFF,
        f2 <= 0xFFF,
    ensures
        (ctl_code(d1, f1, m1, a1) == ctl_code(d2, f2, m2, a2)) <==> (d1 == d2 && f1 == f2 && m1
            == m2 && a1 == a2),
{
    lemma_decode_encode(d1, f1, m1, a1);
    lemma_decode_encode(d2, f2, m2, a2);
}

/// The device-type ranges do not overlap: no code is both Microsoft and
/// vendor, and a code is neither exactly when its device type is `0`.
pub proof fn lemma_device_type_ranges(raw: u32)
    ensures
        !((1 <= code_device_type(raw) <= 0x7FFF) && code_device_type(raw) >= 0x8000),
        (!(1 <= code_device_type(raw) <= 0x7FFF) && !(code_device_type(raw) >= 0x8000)) <==> (
        code_device_type(raw) == 0),
{
}

/// Byte offsets of the `IO_STACK_LOCATION` and `IRP` fields that dispatch
/// code reads, for one WDK version and architecture.
#[derive(Clone, Copy, Debug)]
pub struct IoStackOffsets {
    /// Byte offset of `Parameters.DeviceIoControl.IoControlCode` in the stack location.
    pub ioctl_code: usize,
    /// Byte offset of `Parameters.DeviceIoControl.InputBufferLength` in the stack location.
    pub input_buffer_length: usize,
    /// Byte offset of `Parameters.DeviceIoControl.OutputBufferLength` in the stack location.
    pub output_buffer_length: usize,
    /// Byte offset of `AssociatedIrp.SystemBuffer` within the `IRP`.
    pub irp_system_buffer: usize,
    /// Byte offset of `IoStatus.Information` within the `IRP`.
    pub irp_information: usize,
}

impl IoStackOffsets {
    /// Offsets for `wdk-sys 0.5.x` on x86-64 (Windows 11 22H2 layout):
    /// stack `+0x18` code, `+0x10` input length, `+0x08` output length;
    /// IRP `+0x70` system buffer, `+0x38` information.
    pub fn wdk_sys_0_5_x64() -> (o: Self)
        ensures
            o.ioctl_code == 0x18,
            o.input_buffer_length == 0x10,
            o.output_buffer_length == 0x08,
            o.irp_system_buffer == 0x70,
            o.irp_information == 0x38,
    {
        IoStackOffsets {
            ioctl_code: 0x18,
            input_buffer_length: 0x10,
            output_buffer_length: 0x08,
            irp_system_buffer: 0x70,
            irp_information: 0x38,
        }
    }
}

} // verus!
