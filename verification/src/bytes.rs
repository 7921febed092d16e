//! Bounds-checked little-endian reads from a byte snapshot. No read
//! needs an aligned offset.

use vstd::prelude::*;

verus! {

/// The 16-bit little-endian number at offset `at`.
pub open spec fn le_u16(s: Seq<u8>, at: int) -> int {
    s[at] as int + 256 * (s[at + 1] as int)
}

/// The 32-bit little-endian number at offset `at`.
pub open spec fn le_u32(s: Seq<u8>, at: int) -> int {
    le_u16(s, at) + 65536 * le_u16(s, at + 2)
}

/// The 64-bit little-endian number at offset `at`.
pub open spec fn le_u64(s: Seq<u8>, at: int) -> int {
    le_u32(s, at) + 4294967296 * le_u32(s, at + 4)
}

/// `width` bytes starting at `at` lie inside a buffer of `len` bytes.
pub open spec fn in_bounds(len: int, at: int, width: int) -> bool {
    0 <= at && at + width <= len
}

/// Reads a `u16` at `at`, or nothing if two bytes are not there.
pub fn read_u16(buffer: &[u8], at: usize) -> (r: Option<u16>)
    ensures
        in_bounds(buffer@.len() as int, at as int, 2) ==> r == Some(le_u16(buffer@, at as int) as u16),
        !in_bounds(buffer@.len() as int, at as int, 2) ==> r is None,
        0 <= le_u16(buffer@, at as int) <= u16::MAX,
{
    let len: usize = buffer.len();
    if at > len || len - at < 2 {
        return None;
    }
    let lo: u16 = buffer[at] as u16;
    let hi: u16 = buffer[at + 1] as u16;
    Some(lo + 256 * hi)
}

/// Reads a `u32` at `at`, or nothing if four bytes are not there.
pub fn read_u32(buffer: &[u8], at: usize) -> (r: Option<u32>)
    ensures
        in_bounds(buffer@.len() as int, at as int, 4) ==> r == Some(le_u32(buffer@, at as int) as u32),
        !in_bounds(buffer@.len() as int, at as int, 4) ==> r is None,
        0 <= le_u32(buffer@, at as int) <= u32::MAX,
{
    let len: usize = buffer.len();
    if at > len || len - at < 4 {
        return None;
    }
    let lo: u32 = buffer[at] as u32 + 256 * (buffer[at + 1] as u32);
    let hi: u32 = buffer[at + 2] as u32 + 256 * (buffer[at + 3] as u32);
    Some(lo + 65536 * hi)
}

/// Reads a `u64` at `at`, or nothing if eight bytes are not there.
pub fn read_u64(buffer: &[u8], at: usize) -> (r: Option<u64>)
    ensures
        in_bounds(buffer@.len() as int, at as int, 8) ==> r == Some(le_u64(buffer@, at as int) as u64),
        !in_bounds(buffer@.len() as int, at as int, 8) ==> r is None,
        0 <= le_u64(buffer@, at as int) <= u64::MAX,
{
    let len: usize = buffer.len();
    if at > len || len - at < 8 {
        return None;
    }
    let a: u64 = buffer[at] as u64 + 256 * (buffer[at + 1] as u64);
    let b: u64 = buffer[at + 2] as u64 + 256 * (buffer[at + 3] as u64);
    let c: u64 = buffer[at + 4] as u64 + 256 * (buffer[at + 5] as u64);
    let d: u64 = buffer[at + 6] as u64 + 256 * (buffer[at + 7] as u64);
    let lo: u64 = a + 65536 * b;
    let hi: u64 = c + 65536 * d;
    Some(lo + 4294967296 * hi)
}

} // verus!
