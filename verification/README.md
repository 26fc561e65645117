# wdk_safe

A safe layer for Windows kernel-mode (WDM) driver development, written in
Verus. Every function in `src/` carries a contract that Verus proves, except
two trusted wrappers around std's `str::to_uppercase` / `str::to_lowercase`
(`src/decl.rs`), whose results are named rather than proved.

Kernel objects are carried as their addresses (`usize`) and kernel structures
are read from byte views, so the library verifies and tests on any host
without the WDK.

## Layout

- `src/error.rs` — `NtStatus`, the `NTSTATUS` severity classes, the named
  status codes.
- `src/ioctl.rs` — `IoControlCode` (the `CTL_CODE` packing), `TransferMethod`,
  `RequiredAccess`, `IoStackOffsets`; laws on packing and unpacking.
- `src/irp.rs` — `Irp<C>`, consumed by exactly one of `complete` /
  `complete_with_info` / `into_raw`; the `IrpCompleter` trait that a driver
  implements by storing `IoStatus.Information` and `IoStatus.Status` and then
  calling `IofCompleteRequest`.
- `src/request.rs` — `IoRequest<C>`: the IRP with byte views of its header and
  its stack location; reads the IOCTL parameters and the system buffer,
  completes (handing the byte count to the completer) or forwards.
- `src/device.rs` — `Device<'stack>`, a scoped `DEVICE_OBJECT` handle.
- `src/driver.rs` — `WdmDriver<C>`, dispatch routines with their defaults.
- `src/decl.rs` — the rules of an IOCTL declaration (`define_ioctl!`): the
  leading arguments, the option list, defaults, alias names, doc texts,
  diagnostics with token positions.
- `src/layout.rs`, `src/text.rs` — little-endian field reads; hexadecimal text.
- `app/lib.rs` — pointer-to-address glue and the `dispatch_fn!` thunk macro for
  driver crates.
- `tests/` — host tests.
