//! Finds the processes that hold a lock on a file: the decoding of the
//! kernel's handle and process snapshots, the protocol for growable
//! information queries, the per-handle probing rules, and the path
//! matching that decides which processes are reported.

pub mod bytes;
pub mod errors;
pub mod handle_ext;
pub mod locker;
pub mod nt_ext;
pub mod path_ext;
pub mod process_ext;
pub mod string_ext;
pub mod win32;
