//! The system-wide process list: walking its snapshot, the growth rule
//! for a process's module list, and the assembly of what is known about
//! one process.

use crate::bytes::{le_u16, le_u32, le_u64, read_u32, read_u64};
use crate::errors::CoreError;
use crate::nt_ext::resized;
use crate::string_ext::{
    decoded_text,
    pointee,
    read_unicode_string,
    text_or_empty,
    utf16_lossy,
    utf16_lossy_text,
    ToString,
};
use crate::win32::ERROR_INSUFFICIENT_BUFFER;
use vstd::prelude::*;
use vstd::slice::slice_subrange;

verus! {

/// The bytes of the fixed part of one process record.
pub const PROCESS_RECORD_SIZE: usize = 256;

/// Where the image name's counted string stands in a record.
pub const IMAGE_NAME_OFFSET: usize = 56;

/// Where the process id stands in a record.
pub const PROCESS_ID_OFFSET: usize = 80;

/// The bytes of one module handle in a module list.
pub const MODULE_HANDLE_SIZE: usize = 8;

/// The buffer length, in bytes, that a module list query starts with, and
/// the length, in code units, that a name lookup starts with.
pub const INITIAL_LOOKUP_LEN: usize = 260;

/// One record of the process list as it stands in the snapshot: the
/// process id, the image's base name and the distance to the next record,
/// zero on the last one.
#[derive(Debug, PartialEq, Eq)]
pub struct ProcessRecord {
    pub pid: u32,
    pub image_name: String,
    pub next_entry_offset: u32,
}

/// What is known about one process: its id, its image's base name, the
/// full path of its image and the canonical paths of its loaded modules,
/// in load order.
#[derive(Debug, PartialEq, Eq)]
pub struct ProcessInfo {
    pub pid: u32,
    pub process_name: String,
    pub process_full_path: String,
    pub modules: Vec<String>,
}

/// What to do after one attempt to list a process's modules.
#[derive(Debug, PartialEq, Eq)]
pub enum ModuleStep {
    /// The buffer was too small and has grown: list again.
    Retry,
    /// The module handles of the process, in load order.
    Modules(Vec<u64>),
}

/// The process id of the record at `at`: the low 32 bits of the stored
/// id.
pub open spec fn record_pid(buf: Seq<u8>, at: int) -> u32 {
    (le_u64(buf, at + PROCESS_ID_OFFSET) % 4294967296) as u32
}

/// The image name of the record at `at`, empty where the record has none
/// that can be trusted.
pub open spec fn record_name(buf: Seq<u8>, base: int, at: int) -> Seq<char> {
    text_or_empty(
        decoded_text(
            le_u16(buf, at + IMAGE_NAME_OFFSET) as u16,
            pointee(
                buf,
                base,
                le_u64(buf, at + IMAGE_NAME_OFFSET + 8),
                le_u16(buf, at + IMAGE_NAME_OFFSET),
            ),
        ),
    )
}

/// `record` is what the snapshot holds at offset `at`.
pub open spec fn record_matches(record: ProcessRecord, buf: Seq<u8>, base: int, at: int) -> bool {
    &&& record.pid == record_pid(buf, at)
    &&& record.image_name@ == record_name(buf, base, at)
    &&& record.next_entry_offset == le_u32(buf, at)
}

/// The offsets of the records that the chain starting at `at` leads
/// through, the last one being the record whose offset to the next is
/// zero; nothing if a record of the chain does not fit the snapshot.
pub open spec fn chain_offsets(buf: Seq<u8>, at: int) -> Option<Seq<int>>
    decreases buf.len() - at,
{
    if at < 0 || at + PROCESS_RECORD_SIZE > buf.len() {
        None
    } else if le_u32(buf, at) <= 0 {
        Some(seq![at])
    } else if at + le_u32(buf, at) > buf.len() {
        None
    } else {
        match chain_offsets(buf, at + le_u32(buf, at)) {
            Some(rest) => Some(seq![at] + rest),
            None => None,
        }
    }
}

/// `found` followed by what the chain from `at` on still holds.
pub open spec fn chain_after(found: Seq<int>, buf: Seq<u8>, at: int) -> Option<Seq<int>> {
    match chain_offsets(buf, at) {
        Some(rest) => Some(found + rest),
        None => None,
    }
}

/// Walks the process list in a snapshot that was filled at address
/// `base`: from offset zero on, each record gives the distance to the
/// next, and the record with distance zero is the last. Records are
/// found by these distances alone. A chain that leaves the snapshot is
/// refused as a whole.
pub fn enum_processes(buffer: &[u8], base: u64) -> (r: Result<Vec<ProcessRecord>, CoreError>)
    ensures
        chain_offsets(buffer@, 0) is None ==> r == Err::<Vec<ProcessRecord>, CoreError>(
            CoreError::BufferTooSmall,
        ),
        chain_offsets(buffer@, 0) is Some ==> r is Ok && r->Ok_0@.len() == chain_offsets(
            buffer@,
            0,
        )->0.len() && forall|i: int|
            0 <= i < r->Ok_0@.len() ==> record_matches(
                #[trigger] r->Ok_0@[i],
                buffer@,
                base as int,
                chain_offsets(buffer@, 0)->0[i],
            ),
{
    let len: usize = buffer.len();
    let mut records: Vec<ProcessRecord> = Vec::new();
    let mut at: usize = 0;
    let ghost mut found: Seq<int> = Seq::empty();
    assert(found + chain_offsets(buffer@, 0)->0 =~= chain_offsets(buffer@, 0)->0);
    loop
        invariant
            len == buffer@.len(),
            at <= len,
            records@.len() == found.len(),
            forall|i: int|
                0 <= i < found.len() ==> record_matches(
                    #[trigger] records@[i],
                    buffer@,
                    base as int,
                    found[i],
                ),
            chain_offsets(buffer@, 0) == chain_after(found, buffer@, at as int),
        decreases len - at,
    {
        if len - at < PROCESS_RECORD_SIZE {
            return Err(CoreError::BufferTooSmall);
        }
        let next: u32 = match read_u32(buffer, at) {
            Some(v) => v,
            None => { return Err(CoreError::BufferTooSmall); },
        };
        let id: u64 = match read_u64(buffer, at + PROCESS_ID_OFFSET) {
            Some(v) => v,
            None => { return Err(CoreError::BufferTooSmall); },
        };
        let image_name: String = match read_unicode_string(buffer, base, at + IMAGE_NAME_OFFSET) {
            Some(name) => name.to_string(),
            None => { return Err(CoreError::BufferTooSmall); },
        };
        let record = ProcessRecord {
            pid: (id % 4294967296) as u32,
            image_name,
            next_entry_offset: next,
        };
        assert(record_matches(record, buffer@, base as int, at as int));
        records.push(record);
        proof {
            let rest = chain_offsets(buffer@, at + le_u32(buffer@, at as int));
            if next != 0 && rest is Some {
                assert(found + (seq![at as int] + rest->0) =~= found.push(at as int) + rest->0);
            }
            found = found.push(at as int);
        }
        if next == 0 {
            assert(found =~= found.drop_last() + seq![at as int]);
            return Ok(records);
        }
        if next as usize > len - at {
            return Err(CoreError::BufferTooSmall);
        }
        at = at + next as usize;
    }
}

impl ProcessInfo {
    /// Puts together what was found out about the process of `record`.
    /// A full path that could not be resolved is reported as `unknown`,
    /// a module list that could not be read as empty.
    pub fn new(record: ProcessRecord, full_path: Option<String>, modules: Option<Vec<String>>) -> (info:
        Self)
        ensures
            info.pid == record.pid,
            info.process_name == record.image_name,
            info.process_full_path@ == path_or_unknown(full_path),
            info.modules@ == match modules {
                Some(m) => m@,
                None => Seq::<String>::empty(),
            },
    {
        let process_full_path: String = or_unknown(full_path);
        let modules: Vec<String> = match modules {
            Some(m) => m,
            None => Vec::new(),
        };
        ProcessInfo {
            pid: record.pid,
            process_name: record.image_name,
            process_full_path,
            modules,
        }
    }
}

/// The text of a lookup, or the placeholder `unknown` where it gave
/// nothing.
pub open spec fn path_or_unknown(text: Option<String>) -> Seq<char> {
    match text {
        Some(t) => t@,
        None => "unknown"@,
    }
}

/// The text of a lookup, or the placeholder `unknown` where it gave
/// nothing.
pub fn or_unknown(text: Option<String>) -> (r: String)
    ensures
        r@ == path_or_unknown(text),
{
    match text {
        Some(t) => t,
        None => "unknown".to_owned(),
    }
}

/// The module handles in the first `size_needed` bytes of a module list.
pub open spec fn module_handles(buf: Seq<u8>, size_needed: int) -> Seq<u64> {
    Seq::new(
        (size_needed / MODULE_HANDLE_SIZE as int) as nat,
        |i: int| le_u64(buf, MODULE_HANDLE_SIZE * i) as u64,
    )
}

/// Takes the outcome of one successful attempt to list a process's
/// modules into `buffer`: the number of bytes that the full list needs.
/// While that exceeds the buffer, the buffer grows to it and the caller
/// lists again; otherwise the handles are read out of the buffer.
pub fn enum_process_modules(buffer: &mut Vec<u8>, size_needed: u32) -> (step: ModuleStep)
    ensures
        size_needed > old(buffer)@.len() ==> step == ModuleStep::Retry && final(buffer)@ == resized(
            old(buffer)@,
            size_needed as nat,
        ),
        size_needed <= old(buffer)@.len() ==> final(buffer)@ == old(buffer)@ && step is Modules
            && step->Modules_0@ == module_handles(old(buffer)@, size_needed as int),
{
    if size_needed as usize > buffer.len() {
        let ghost before = buffer@;
        buffer.resize(size_needed as usize, 0u8);
        assert(buffer@ =~= resized(before, size_needed as nat));
        return ModuleStep::Retry;
    }
    let count: usize = size_needed as usize / MODULE_HANDLE_SIZE;
    let mut handles: Vec<u64> = Vec::new();
    let mut i: usize = 0;
    while i < count
        invariant
            i <= count,
            count == size_needed as int / MODULE_HANDLE_SIZE as int,
            size_needed <= buffer@.len(),
            handles@.len() == i,
            forall|j: int|
                0 <= j < i ==> #[trigger] handles@[j] == le_u64(buffer@, MODULE_HANDLE_SIZE * j) as u64,
        decreases count - i,
    {
        let handle: u64 = match read_u64(buffer.as_slice(), MODULE_HANDLE_SIZE * i) {
            Some(v) => v,
            None => 0,
        };
        handles.push(handle);
        i += 1;
    }
    assert(handles@ =~= module_handles(buffer@, size_needed as int));
    ModuleStep::Modules(handles)
}

/// The paths that were resolved, in their order; the lookups that
/// failed leave no trace.
pub open spec fn resolved(results: Seq<Option<String>>) -> Seq<String>
    decreases results.len(),
{
    if results.len() == 0 {
        Seq::empty()
    } else {
        match results.last() {
            Some(path) => resolved(results.drop_last()).push(path),
            None => resolved(results.drop_last()),
        }
    }
}

/// Keeps the module paths that could be resolved. A module whose name or
/// canonical path could not be had is left out; the others stay in load
/// order.
pub fn keep_resolved(results: &Vec<Option<String>>) -> (paths: Vec<String>)
    ensures
        paths@ == resolved(results@),
{
    let mut paths: Vec<String> = Vec::new();
    let mut i: usize = 0;
    while i < results.len()
        invariant
            i <= results.len(),
            paths@ == resolved(results@.subrange(0, i as int)),
        decreases results.len() - i,
    {
        assert(results@.subrange(0, i + 1).drop_last() =~= results@.subrange(0, i as int));
        match &results[i] {
            Some(path) => {
                paths.push(path.clone());
            },
            None => {},
        }
        i += 1;
    }
    assert(results@.subrange(0, i as int) =~= results@);
    paths
}

/// The text in the first `len` code units of a name buffer, or in all of
/// it where `len` exceeds the buffer; `LookupFailed` for a length of zero,
/// which is how a lookup reports that it found nothing.
pub open spec fn wide_text(units: Seq<u16>, len: u32) -> Result<Seq<char>, CoreError> {
    if len == 0 {
        Err(CoreError::LookupFailed)
    } else if len <= units.len() {
        Ok(utf16_lossy_text(units.subrange(0, len as int)))
    } else {
        Ok(utf16_lossy_text(units))
    }
}

/// Tells whether a name lookup is to be repeated, and with a buffer of
/// how many code units: after a lookup that left the error code of a
/// buffer too small, with room for the length it returned and the
/// terminator.
pub fn regrown_name_len(last_error: u32, actual_len: u32) -> (r: Option<u64>)
    ensures
        last_error == ERROR_INSUFFICIENT_BUFFER ==> r == Some((actual_len + 1) as u64),
        last_error != ERROR_INSUFFICIENT_BUFFER ==> r is None,
{
    if last_error == ERROR_INSUFFICIENT_BUFFER {
        Some(actual_len as u64 + 1)
    } else {
        None
    }
}

/// The file name of a module from the buffer that the lookup filled and
/// the length that it returned.
pub fn get_module_name(buffer: &[u16], actual_len: u32) -> (r: Result<String, CoreError>)
    ensures
        match r {
            Ok(text) => wide_text(buffer@, actual_len) == Ok::<Seq<char>, CoreError>(text@),
            Err(e) => wide_text(buffer@, actual_len) == Err::<Seq<char>, CoreError>(e),
        },
{
    if actual_len == 0 {
        return Err(CoreError::LookupFailed);
    }
    if actual_len as usize <= buffer.len() {
        Ok(utf16_lossy(slice_subrange(buffer, 0, actual_len as usize)))
    } else {
        Ok(utf16_lossy(buffer))
    }
}

/// The base name of a process's image from the buffer that the lookup
/// filled and the length that it returned.
pub fn pid_to_process_name(buffer: &[u16], len: u32) -> (r: Result<String, CoreError>)
    ensures
        match r {
            Ok(text) => wide_text(buffer@, len) == Ok::<Seq<char>, CoreError>(text@),
            Err(e) => wide_text(buffer@, len) == Err::<Seq<char>, CoreError>(e),
        },
{
    get_module_name(buffer, len)
}

/// The full path of a process's image: the file name of its main
/// module.
pub fn pid_to_process_full_path(buffer: &[u16], actual_len: u32) -> (r: Result<String, CoreError>)
    ensures
        match r {
            Ok(text) => wide_text(buffer@, actual_len) == Ok::<Seq<char>, CoreError>(text@),
            Err(e) => wide_text(buffer@, actual_len) == Err::<Seq<char>, CoreError>(e),
        },
{
    get_module_name(buffer, actual_len)
}

} // verus!
