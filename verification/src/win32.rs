//! Status and result codes of the operating system.

use vstd::prelude::*;

verus! {

/// The error code of a call that was denied access.
pub const ERROR_ACCESS_DENIED: u32 = 5;

/// The error code of a call on a handle that is not valid.
pub const ERROR_INVALID_HANDLE: u32 = 6;

/// The error code of a call that the object does not support.
pub const ERROR_NOT_SUPPORTED: u32 = 50;

/// The error code of a call whose buffer was too small.
pub const ERROR_INSUFFICIENT_BUFFER: u32 = 122;

/// The result code that stands for an error code: zero and codes with
/// the top bit set are taken as they are, read as a signed number; of any
/// other code the low sixteen bits are kept and marked as a failure of
/// the Win32 facility.
pub open spec fn hresult_from_win32(code: u32) -> int {
    if code == 0 {
        0
    } else if code >= 0x8000_0000 {
        code - 0x1_0000_0000
    } else {
        code % 0x1_0000 - 2147024896
    }
}

/// Tells whether a status reports an error: exactly the negative ones
/// do.
pub fn status_is_err(nt_status: i32) -> (r: bool)
    ensures
        r == (nt_status < 0),
{
    nt_status < 0
}

/// The result code that a failed call reports for an error code.
pub fn hresult_of(code: u32) -> (r: i32)
    ensures
        r == hresult_from_win32(code),
{
    if code == 0 {
        0
    } else if code >= 0x8000_0000 {
        (code as i64 - 0x1_0000_0000) as i32
    } else {
        ((code % 0x1_0000) as i64 - 2147024896) as i32
    }
}

} // verus!
