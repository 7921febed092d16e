//! The system-wide handle table: decoding its snapshot, and the rules by
//! which one entry is probed and, if it is an open disk file, resolved to
//! its canonical path.

use crate::bytes::{le_u16, le_u32, le_u64, read_u16, read_u32, read_u64};
use crate::errors::CoreError;
use crate::string_ext::{decoded_text, pointee, read_unicode_string};
use crate::win32::{
    hresult_from_win32,
    hresult_of,
    ERROR_ACCESS_DENIED,
    ERROR_INVALID_HANDLE,
    ERROR_NOT_SUPPORTED,
};
use vstd::prelude::*;

verus! {

/// The bytes of the table's header: the handle count and a reserved
/// word.
pub const HANDLE_TABLE_HEADER_SIZE: usize = 16;

/// The bytes of one record of the table.
pub const HANDLE_ENTRY_SIZE: usize = 40;

/// The least length of a table snapshot: the header and room for one
/// record.
pub const HANDLE_TABLE_MIN_SIZE: usize = 56;

/// The least length of an answer to a type query.
pub const OBJECT_TYPE_INFORMATION_SIZE: usize = 104;

/// The least length of an answer to a name query.
pub const OBJECT_NAME_INFORMATION_SIZE: usize = 16;

/// The file type of a file on a disk.
pub const FILE_TYPE_DISK: u32 = 1;

/// The result code of a call that was denied access.
pub const E_ACCESS_DENIED: i32 = -2147024891;

/// The result code of a call on a handle that is no longer valid.
pub const E_INVALID_HANDLE: i32 = -2147024890;

/// The result code of a call that the object does not support.
pub const E_NOT_SUPPORTED: i32 = -2147024846;

/// The three result codes above are those of the error codes that they
/// are named after.
pub proof fn lemma_result_codes()
    ensures
        E_ACCESS_DENIED == hresult_from_win32(ERROR_ACCESS_DENIED),
        E_INVALID_HANDLE == hresult_from_win32(ERROR_INVALID_HANDLE),
        E_NOT_SUPPORTED == hresult_from_win32(ERROR_NOT_SUPPORTED),
{
}

/// An open handle to a disk file: the process that owns it and the
/// canonical path of the file.
#[derive(Debug, PartialEq, Eq)]
pub struct HandleInfo {
    pub pid: u32,
    pub nt_path: String,
}

/// The header of the handle table.
#[derive(Debug, Clone, Copy, PartialEq, Eq, Structural)]
pub struct SystemHandleInformationEx {
    pub number_of_handles: u64,
    pub reserved: u64,
}

/// One record of the handle table. `object` is the address of the kernel
/// object; it tells objects apart and is never followed.
#[derive(Debug, Clone, Copy, PartialEq, Eq, Structural)]
pub struct SystemHandleTableEntryInfoEx {
    pub object: u64,
    pub unique_process_id: u64,
    pub handle_value: u64,
    pub granted_access: u32,
    pub creator_back_trace_index: u16,
    pub object_type_index: u16,
    pub handle_attributes: u32,
    pub reserved: u32,
}

/// The header that a snapshot starts with.
pub open spec fn header_of(buf: Seq<u8>) -> SystemHandleInformationEx {
    SystemHandleInformationEx {
        number_of_handles: le_u64(buf, 0) as u64,
        reserved: le_u64(buf, 8) as u64,
    }
}

/// The record that stands at byte offset `at`.
pub open spec fn entry_at(buf: Seq<u8>, at: int) -> SystemHandleTableEntryInfoEx {
    SystemHandleTableEntryInfoEx {
        object: le_u64(buf, at) as u64,
        unique_process_id: le_u64(buf, at + 8) as u64,
        handle_value: le_u64(buf, at + 16) as u64,
        granted_access: le_u32(buf, at + 24) as u32,
        creator_back_trace_index: le_u16(buf, at + 28) as u16,
        object_type_index: le_u16(buf, at + 30) as u16,
        handle_attributes: le_u32(buf, at + 32) as u32,
        reserved: le_u32(buf, at + 36) as u32,
    }
}

/// The byte offset of the record with this index.
pub open spec fn entry_offset(index: int) -> int {
    HANDLE_TABLE_HEADER_SIZE + index * HANDLE_ENTRY_SIZE
}

/// The snapshot is long enough for its header and for every record that
/// the header counts.
pub open spec fn table_fits(buf: Seq<u8>) -> bool {
    &&& buf.len() >= HANDLE_TABLE_MIN_SIZE
    &&& entry_offset(le_u64(buf, 0)) <= buf.len()
}

/// The records of a snapshot that fits, in table order.
pub open spec fn entries_of(buf: Seq<u8>) -> Seq<SystemHandleTableEntryInfoEx> {
    Seq::new(le_u64(buf, 0) as nat, |i: int| entry_at(buf, entry_offset(i)))
}

/// The process that owns an entry: the low 32 bits of its process id.
pub open spec fn owner_of(entry: SystemHandleTableEntryInfoEx) -> u32 {
    (entry.unique_process_id % 4294967296) as u32
}

/// Reads the header of a snapshot, if sixteen bytes are there.
pub fn read_header(buffer: &[u8]) -> (r: Option<SystemHandleInformationEx>)
    ensures
        buffer@.len() >= HANDLE_TABLE_HEADER_SIZE ==> r == Some(header_of(buffer@)),
        buffer@.len() < HANDLE_TABLE_HEADER_SIZE ==> r is None,
{
    let number_of_handles: u64 = match read_u64(buffer, 0) {
        Some(v) => v,
        None => { return None; },
    };
    let reserved: u64 = match read_u64(buffer, 8) {
        Some(v) => v,
        None => { return None; },
    };
    Some(SystemHandleInformationEx { number_of_handles, reserved })
}

/// Reads the record at byte offset `at`, if forty bytes are there. The
/// offset need not be aligned.
pub fn read_entry(buffer: &[u8], at: usize) -> (r: Option<SystemHandleTableEntryInfoEx>)
    ensures
        at + HANDLE_ENTRY_SIZE <= buffer@.len() ==> r == Some(entry_at(buffer@, at as int)),
        at + HANDLE_ENTRY_SIZE > buffer@.len() ==> r is None,
{
    let len: usize = buffer.len();
    if at > len || len - at < HANDLE_ENTRY_SIZE {
        return None;
    }
    let object: u64 = match read_u64(buffer, at) {
        Some(v) => v,
        None => { return None; },
    };
    let unique_process_id: u64 = match read_u64(buffer, at + 8) {
        Some(v) => v,
        None => { return None; },
    };
    let handle_value: u64 = match read_u64(buffer, at + 16) {
        Some(v) => v,
        None => { return None; },
    };
    let granted_access: u32 = match read_u32(buffer, at + 24) {
        Some(v) => v,
        None => { return None; },
    };
    let creator_back_trace_index: u16 = match read_u16(buffer, at + 28) {
        Some(v) => v,
        None => { return None; },
    };
    let object_type_index: u16 = match read_u16(buffer, at + 30) {
        Some(v) => v,
        None => { return None; },
    };
    let handle_attributes: u32 = match read_u32(buffer, at + 32) {
        Some(v) => v,
        None => { return None; },
    };
    let reserved: u32 = match read_u32(buffer, at + 36) {
        Some(v) => v,
        None => { return None; },
    };
    Some(
        SystemHandleTableEntryInfoEx {
            object,
            unique_process_id,
            handle_value,
            granted_access,
            creator_back_trace_index,
            object_type_index,
            handle_attributes,
            reserved,
        },
    )
}

/// Decodes a snapshot of the handle table: exactly as many records as the
/// header counts, each read at the header size plus its index times the
/// record size. A snapshot too short for its header or for one of the
/// records is refused as a whole.
pub fn enum_handles(buffer: &[u8]) -> (r: Result<Vec<SystemHandleTableEntryInfoEx>, CoreError>)
    ensures
        table_fits(buffer@) ==> r is Ok && r->Ok_0@ == entries_of(buffer@),
        !table_fits(buffer@) ==> r == Err::<Vec<SystemHandleTableEntryInfoEx>, CoreError>(
            CoreError::BufferTooSmall,
        ),
{
    let len: usize = buffer.len();
    if len < HANDLE_TABLE_MIN_SIZE {
        return Err(CoreError::BufferTooSmall);
    }
    let header: SystemHandleInformationEx = match read_header(buffer) {
        Some(h) => h,
        None => { return Err(CoreError::BufferTooSmall); },
    };
    let room: usize = (len - HANDLE_TABLE_HEADER_SIZE) / HANDLE_ENTRY_SIZE;
    if header.number_of_handles > room as u64 {
        return Err(CoreError::BufferTooSmall);
    }
    let count: usize = header.number_of_handles as usize;
    let mut entries: Vec<SystemHandleTableEntryInfoEx> = Vec::new();
    let mut index: usize = 0;
    while index < count
        invariant
            index <= count,
            count == le_u64(buffer@, 0),
            len == buffer@.len(),
            HANDLE_TABLE_HEADER_SIZE + count * HANDLE_ENTRY_SIZE <= len,
            entries@.len() == index,
            forall|i: int| 0 <= i < index ==> #[trigger] entries@[i] == entry_at(buffer@, entry_offset(i)),
        decreases count - index,
    {
        let at: usize = HANDLE_TABLE_HEADER_SIZE + index * HANDLE_ENTRY_SIZE;
        let entry: SystemHandleTableEntryInfoEx = match read_entry(buffer, at) {
            Some(e) => e,
            None => { return Err(CoreError::BufferTooSmall); },
        };
        entries.push(entry);
        index += 1;
    }
    assert(entries@ =~= entries_of(buffer@));
    Ok(entries)
}

/// The text of the counted string that an answer of at least `min_len`
/// bytes starts with, for a buffer that was filled at address `base`.
pub open spec fn leading_name(buf: Seq<u8>, base: int, min_len: int) -> Result<
    Seq<char>,
    CoreError,
> {
    if buf.len() < min_len {
        Err(CoreError::BufferTooSmall)
    } else {
        decoded_text(le_u16(buf, 0) as u16, pointee(buf, base, le_u64(buf, 8), le_u16(buf, 0)))
    }
}

fn read_leading_name(buffer: &[u8], base: u64, min_len: usize) -> (r: Result<String, CoreError>)
    requires
        min_len >= 16,
    ensures
        match r {
            Ok(text) => leading_name(buffer@, base as int, min_len as int) == Ok::<
                Seq<char>,
                CoreError,
            >(text@),
            Err(e) => leading_name(buffer@, base as int, min_len as int) == Err::<
                Seq<char>,
                CoreError,
            >(e),
        },
{
    if buffer.len() < min_len {
        return Err(CoreError::BufferTooSmall);
    }
    match read_unicode_string(buffer, base, 0) {
        Some(name) => name.decode(),
        None => Err(CoreError::BufferTooSmall),
    }
}

/// The type name in the answer to a type query on an object. `base` is
/// the address at which `buffer` was filled.
pub fn object_type_name(buffer: &[u8], base: u64) -> (r: Result<String, CoreError>)
    ensures
        match r {
            Ok(text) => leading_name(buffer@, base as int, OBJECT_TYPE_INFORMATION_SIZE as int)
                == Ok::<Seq<char>, CoreError>(text@),
            Err(e) => leading_name(buffer@, base as int, OBJECT_TYPE_INFORMATION_SIZE as int)
                == Err::<Seq<char>, CoreError>(e),
        },
{
    read_leading_name(buffer, base, OBJECT_TYPE_INFORMATION_SIZE)
}

/// The canonical path in the answer to a name query on a file handle.
/// `base` is the address at which `buffer` was filled. A name that cannot
/// be trusted is `MalformedName`, an answer shorter than its header
/// `BufferTooSmall`.
pub fn handle_to_nt_path(buffer: &[u8], base: u64) -> (r: Result<String, CoreError>)
    ensures
        match r {
            Ok(text) => leading_name(buffer@, base as int, OBJECT_NAME_INFORMATION_SIZE as int)
                == Ok::<Seq<char>, CoreError>(text@),
            Err(e) => leading_name(buffer@, base as int, OBJECT_NAME_INFORMATION_SIZE as int)
                == Err::<Seq<char>, CoreError>(e),
        },
{
    read_leading_name(buffer, base, OBJECT_NAME_INFORMATION_SIZE)
}

/// What is known of a handle after its type name, and perhaps its file
/// type, were read: `Some(false)` for anything but a file, whatever the
/// file type says; `None` for a file whose file type is still to be
/// asked; otherwise whether the file is on a disk.
pub open spec fn file_verdict(kind_name: Seq<char>, file_type: Option<u32>) -> Option<bool> {
    if kind_name != "File"@ {
        Some(false)
    } else {
        match file_type {
            None => None,
            Some(t) => Some(t == FILE_TYPE_DISK),
        }
    }
}

/// Decides whether a handle is an open disk file. The file type of a
/// handle may only be asked once its type name is known to be `File`:
/// for any other type the answer is `Some(false)` at once. For a file,
/// `None` asks the caller to get the file type and call again.
pub fn is_handle_type_file(kind_name: &str, file_type: Option<u32>) -> (r: Option<bool>)
    ensures
        r == file_verdict(kind_name@, file_type),
{
    let name: String = kind_name.to_owned();
    let file: String = "File".to_owned();
    if name != file {
        return Some(false);
    }
    match file_type {
        None => None,
        Some(t) => Some(t == FILE_TYPE_DISK),
    }
}

/// Why an entry of the handle table was left out of the result. None of
/// these ends the scan.
#[derive(Debug, Clone, Copy, PartialEq, Eq, Structural)]
pub enum SkipReason {
    /// The owning process denied access: the usual case, not worth a note.
    OpenDenied,
    /// The owning process could not be opened, with this unusual code.
    OpenFailed(i32),
    /// The handle could not be duplicated because it was gone, denied or
    /// of a kind that cannot be duplicated: expected races.
    DuplicateExpected,
    /// The handle could not be duplicated, with this unusual code.
    DuplicateFailed(i32),
    /// The object is no file, or no file on a disk, or its type could not
    /// be read.
    NotDiskFile,
    /// The path of the file could not be resolved.
    NameFailed(CoreError),
    /// The event does not answer the step that was asked for.
    OutOfOrder,
}

/// What the caller is to do next for one entry, or how the entry ended.
#[derive(Debug, PartialEq, Eq)]
pub enum ProbeStep {
    /// Open the owning process with the right to duplicate its handles.
    OpenProcess { pid: u32, handle_value: u64 },
    /// Duplicate the handle into this process with the same access.
    DuplicateHandle { pid: u32, handle_value: u64 },
    /// Ask for the type name of the duplicated handle.
    QueryTypeName { pid: u32 },
    /// Ask for the file type of the duplicated handle.
    QueryFileType { pid: u32 },
    /// Ask for the name of the duplicated handle.
    QueryName { pid: u32 },
    /// The entry is an open disk file.
    Emit(HandleInfo),
    /// The entry is left out.
    Skip(SkipReason),
}

/// What the caller found when it carried out a step.
#[derive(Debug, PartialEq, Eq)]
pub enum ProbeEvent {
    /// Opening the process or duplicating the handle succeeded.
    Succeeded,
    /// Opening the process or duplicating the handle failed with this
    /// result code.
    Failed(i32),
    /// The outcome of the type query.
    TypeName(Result<String, CoreError>),
    /// The file type of the handle.
    FileType(u32),
    /// The outcome of the name query.
    Name(Result<String, CoreError>),
}

/// A failure to duplicate that is expected of a live system.
pub open spec fn expected_duplicate_failure(code: i32) -> bool {
    code == E_NOT_SUPPORTED || code == E_ACCESS_DENIED || code == E_INVALID_HANDLE
}

/// The first step for an entry: open its owning process.
pub open spec fn first_step(entry: SystemHandleTableEntryInfoEx) -> ProbeStep {
    ProbeStep::OpenProcess { pid: owner_of(entry), handle_value: entry.handle_value }
}

/// The step that follows `step` once the caller reports `event`. A step
/// that has ended stays as it is.
pub open spec fn next_step(step: ProbeStep, event: ProbeEvent) -> ProbeStep {
    match step {
        ProbeStep::OpenProcess { pid, handle_value } => match event {
            ProbeEvent::Succeeded => ProbeStep::DuplicateHandle { pid, handle_value },
            ProbeEvent::Failed(code) => if code == E_ACCESS_DENIED {
                ProbeStep::Skip(SkipReason::OpenDenied)
            } else {
                ProbeStep::Skip(SkipReason::OpenFailed(code))
            },
            _ => ProbeStep::Skip(SkipReason::OutOfOrder),
        },
        ProbeStep::DuplicateHandle { pid, handle_value } => match event {
            ProbeEvent::Succeeded => ProbeStep::QueryTypeName { pid },
            ProbeEvent::Failed(code) => if expected_duplicate_failure(code) {
                ProbeStep::Skip(SkipReason::DuplicateExpected)
            } else {
                ProbeStep::Skip(SkipReason::DuplicateFailed(code))
            },
            _ => ProbeStep::Skip(SkipReason::OutOfOrder),
        },
        ProbeStep::QueryTypeName { pid } => match event {
            ProbeEvent::TypeName(Ok(name)) => if file_verdict(name@, None) is None {
                ProbeStep::QueryFileType { pid }
            } else {
                ProbeStep::Skip(SkipReason::NotDiskFile)
            },
            ProbeEvent::TypeName(Err(_)) => ProbeStep::Skip(SkipReason::NotDiskFile),
            _ => ProbeStep::Skip(SkipReason::OutOfOrder),
        },
        ProbeStep::QueryFileType { pid } => match event {
            ProbeEvent::FileType(t) => if t == FILE_TYPE_DISK {
                ProbeStep::QueryName { pid }
            } else {
                ProbeStep::Skip(SkipReason::NotDiskFile)
            },
            _ => ProbeStep::Skip(SkipReason::OutOfOrder),
        },
        ProbeStep::QueryName { pid } => match event {
            ProbeEvent::Name(Ok(nt_path)) => ProbeStep::Emit(HandleInfo { pid, nt_path }),
            ProbeEvent::Name(Err(e)) => ProbeStep::Skip(SkipReason::NameFailed(e)),
            _ => ProbeStep::Skip(SkipReason::OutOfOrder),
        },
        ProbeStep::Emit(info) => ProbeStep::Emit(info),
        ProbeStep::Skip(reason) => ProbeStep::Skip(reason),
    }
}

/// Starts the probe of one entry of the handle table.
pub fn begin_handle_probe(entry: &SystemHandleTableEntryInfoEx) -> (step: ProbeStep)
    ensures
        step == first_step(*entry),
{
    let pid: u32 = (entry.unique_process_id % 4294967296) as u32;
    ProbeStep::OpenProcess { pid, handle_value: entry.handle_value }
}

/// Carries the probe of one entry one step further. The caller performs
/// the step it was given and reports what happened; the answer is the
/// next step, or the end of the probe: `Emit` with the owner and the
/// canonical path of an open disk file, or `Skip`. No outcome is an
/// error of the scan.
pub fn get_handle_info(step: ProbeStep, event: ProbeEvent) -> (next: ProbeStep)
    ensures
        next == next_step(step, event),
{
    match step {
        ProbeStep::OpenProcess { pid, handle_value } => match event {
            ProbeEvent::Succeeded => ProbeStep::DuplicateHandle { pid, handle_value },
            ProbeEvent::Failed(code) => if code == hresult_of(ERROR_ACCESS_DENIED) {
                ProbeStep::Skip(SkipReason::OpenDenied)
            } else {
                ProbeStep::Skip(SkipReason::OpenFailed(code))
            },
            _ => ProbeStep::Skip(SkipReason::OutOfOrder),
        },
        ProbeStep::DuplicateHandle { pid, handle_value } => match event {
            ProbeEvent::Succeeded => ProbeStep::QueryTypeName { pid },
            ProbeEvent::Failed(code) => if code == hresult_of(ERROR_NOT_SUPPORTED) || code
                == hresult_of(ERROR_ACCESS_DENIED) || code == hresult_of(ERROR_INVALID_HANDLE) {
                ProbeStep::Skip(SkipReason::DuplicateExpected)
            } else {
                ProbeStep::Skip(SkipReason::DuplicateFailed(code))
            },
            _ => ProbeStep::Skip(SkipReason::OutOfOrder),
        },
        ProbeStep::QueryTypeName { pid } => match event {
            ProbeEvent::TypeName(Ok(name)) => match is_handle_type_file(name.as_str(), None) {
                None => ProbeStep::QueryFileType { pid },
                Some(_) => ProbeStep::Skip(SkipReason::NotDiskFile),
            },
            ProbeEvent::TypeName(Err(_)) => ProbeStep::Skip(SkipReason::NotDiskFile),
            _ => ProbeStep::Skip(SkipReason::OutOfOrder),
        },
        ProbeStep::QueryFileType { pid } => match event {
            ProbeEvent::FileType(t) => match is_handle_type_file("File", Some(t)) {
                Some(true) => ProbeStep::QueryName { pid },
                _ => ProbeStep::Skip(SkipReason::NotDiskFile),
            },
            _ => ProbeStep::Skip(SkipReason::OutOfOrder),
        },
        ProbeStep::QueryName { pid } => match event {
            ProbeEvent::Name(Ok(nt_path)) => ProbeStep::Emit(HandleInfo { pid, nt_path }),
            ProbeEvent::Name(Err(e)) => ProbeStep::Skip(SkipReason::NameFailed(e)),
            _ => ProbeStep::Skip(SkipReason::OutOfOrder),
        },
        ProbeStep::Emit(info) => ProbeStep::Emit(info),
        ProbeStep::Skip(reason) => ProbeStep::Skip(reason),
    }
}

/// The file type of a handle is asked for only after its type name was
/// read and found to be `File`: no other step and no other event leads
/// there.
pub proof fn lemma_file_type_asked_of_files_only(step: ProbeStep, event: ProbeEvent)
    requires
        next_step(step, event) is QueryFileType,
    ensures
        step is QueryTypeName,
        event is TypeName,
        event->TypeName_0 is Ok,
        event->TypeName_0->Ok_0@ == "File"@,
{
}

/// A name is asked for only of a handle whose file type was read and is
/// that of a disk file, and an entry is reported only when that name was
/// resolved, for the process that the probe began with.
pub proof fn lemma_emit_follows_name(step: ProbeStep, event: ProbeEvent)
    ensures
        next_step(step, event) is QueryName ==> step is QueryFileType && event
            == ProbeEvent::FileType(FILE_TYPE_DISK),
        next_step(step, event) is Emit && !(step is Emit) ==> step is QueryName && event is Name
            && event->Name_0 is Ok && next_step(step, event)->Emit_0.pid == step->QueryName_pid
            && next_step(step, event)->Emit_0.nt_path == event->Name_0->Ok_0,
{
}

/// Where the probe of `entry` stands after the caller has reported
/// `events`, one after the other.
pub open spec fn probe_after(entry: SystemHandleTableEntryInfoEx, events: Seq<ProbeEvent>) -> ProbeStep
    decreases events.len(),
{
    if events.len() == 0 {
        first_step(entry)
    } else {
        next_step(probe_after(entry, events.drop_last()), events.last())
    }
}

/// The five reports that lead to an entry being emitted: the process was
/// opened, the handle duplicated, the type name read as `File`, the file
/// type read as that of a disk file, and the name resolved.
pub open spec fn passed_every_step(events: Seq<ProbeEvent>) -> bool {
    &&& events.len() >= 5
    &&& events[0] == ProbeEvent::Succeeded
    &&& events[1] == ProbeEvent::Succeeded
    &&& events[2] is TypeName
    &&& events[2]->TypeName_0 is Ok
    &&& events[2]->TypeName_0->Ok_0@ == "File"@
    &&& events[3] == ProbeEvent::FileType(FILE_TYPE_DISK)
    &&& events[4] is Name
    &&& events[4]->Name_0 is Ok
}

/// An entry is emitted only after it passed every step, in order, and
/// then with the owner of the entry and the name that was resolved.
/// Whatever else the caller reports, the probe asks for each step only
/// when the steps before it succeeded.
pub proof fn lemma_probe_history(entry: SystemHandleTableEntryInfoEx, events: Seq<ProbeEvent>)
    ensures
        probe_after(entry, events) is OpenProcess ==> events.len() == 0,
        probe_after(entry, events) is DuplicateHandle ==> events.len() == 1 && events[0]
            == ProbeEvent::Succeeded && probe_after(entry, events)->DuplicateHandle_pid == owner_of(
            entry,
        ) && probe_after(entry, events)->DuplicateHandle_handle_value == entry.handle_value,
        probe_after(entry, events) is QueryTypeName ==> events.len() == 2 && events[0]
            == ProbeEvent::Succeeded && events[1] == ProbeEvent::Succeeded && probe_after(
            entry,
            events,
        )->QueryTypeName_pid == owner_of(entry),
        probe_after(entry, events) is QueryFileType ==> events.len() == 3 && events[0]
            == ProbeEvent::Succeeded && events[1] == ProbeEvent::Succeeded && events[2] is TypeName
            && events[2]->TypeName_0 is Ok && events[2]->TypeName_0->Ok_0@ == "File"@
            && probe_after(entry, events)->QueryFileType_pid == owner_of(entry),
        probe_after(entry, events) is QueryName ==> events.len() == 4 && events[0]
            == ProbeEvent::Succeeded && events[1] == ProbeEvent::Succeeded && events[2] is TypeName
            && events[2]->TypeName_0 is Ok && events[2]->TypeName_0->Ok_0@ == "File"@ && events[3]
            == ProbeEvent::FileType(FILE_TYPE_DISK) && probe_after(entry, events)->QueryName_pid
            == owner_of(entry),
        probe_after(entry, events) is Emit ==> passed_every_step(events) && probe_after(
            entry,
            events,
        )->Emit_0.pid == owner_of(entry) && probe_after(entry, events)->Emit_0.nt_path
            == events[4]->Name_0->Ok_0,
    decreases events.len(),
{
    if events.len() > 0 {
        let before = events.drop_last();
        lemma_probe_history(entry, before);
        if before.len() > 0 {
            assert(before[0] == events[0]);
        }
        if before.len() > 1 {
            assert(before[1] == events[1]);
        }
        if before.len() > 2 {
            assert(before[2] == events[2]);
        }
        if before.len() > 3 {
            assert(before[3] == events[3]);
        }
        if before.len() > 4 {
            assert(before[4] == events[4]);
        }
    }
}

} // verus!
