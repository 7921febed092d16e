//! The failures that the scan and its parts report.

use vstd::prelude::*;

verus! {

/// Why an operation of this library failed. Only the first two and the
/// two `Target` variants end a whole scan; the others exclude a single
/// candidate.
#[derive(Debug, Clone, Copy, PartialEq, Eq, Structural)]
pub enum CoreError {
    /// A system-wide query failed with this status for a reason other than
    /// the size of its buffer.
    QueryUnavailable(i32),
    /// A query kept asking for a larger buffer until the retry limit.
    QueryUnstable,
    /// A query on a single object failed with this status.
    QueryFailed(i32),
    /// A snapshot ended before a record that it announced.
    BufferTooSmall,
    /// A counted string with a null or unreachable buffer, an odd byte
    /// length, or a length beyond the longest path.
    MalformedName,
    /// A per-process lookup gave nothing.
    LookupFailed,
    /// The target path is empty or cannot be opened.
    TargetNotFound,
    /// The target path names something that is no disk file.
    TargetNotAFile,
}

} // verus!
