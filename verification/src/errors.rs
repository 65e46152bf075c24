//! Error values for the driver's caller-facing operations.

use vstd::prelude::*;

verus! {

/// Why an operation was refused. Every refusal is an ordinary value: callers
/// may probe indices or retry with corrected arguments, so nothing here ever
/// terminates the process.
#[derive(Clone, Copy, Debug, PartialEq, Eq)]
pub enum PufError {
    /// The peripheral's allow register does not currently permit the command.
    CmdDisallowed,
    /// A requested key length is not a multiple of 8 bytes.
    InvalidKeyLength,
    /// A requested key size has no hardware encoding (the encoding must be
    /// below 32, which caps keys at 255 bytes).
    UnsupportedSize,
    /// The caller's output buffer cannot hold the computed key code.
    BufferTooSmall,
    /// A key index lies outside the range the operation accepts.
    IndexOutOfRange,
    /// A key code with no words at all was presented.
    InvalidKeycode,
    /// The key index embedded in a key code is blocked by an index blocking
    /// register.
    IndexBlocked,
    /// The target blocking register does not read as writable, so an update
    /// to it would be dropped by the hardware.
    RegisterLocked,
}

} // verus!
