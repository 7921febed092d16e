//! Canonical path comparison and the steps that turn a user-facing path
//! into its canonical device-relative form.

use crate::errors::CoreError;
use crate::handle_ext::FILE_TYPE_DISK;
use vstd::prelude::*;
use vstd::string::*;
use vstd::utf8::encode_utf8;

verus! {

/// The path separator of canonical paths, a backslash.
pub const SEPARATOR: u8 = 0x5C;

/// The ASCII lower-case form of a byte; bytes that are no upper-case
/// ASCII letter stay as they are.
pub open spec fn ascii_lower(b: u8) -> u8 {
    if 0x41 <= b && b <= 0x5A {
        (b + 32) as u8
    } else {
        b
    }
}

/// Two byte strings are equal when ASCII letters are compared without
/// regard to case.
pub open spec fn eq_ignore_case(a: Seq<u8>, b: Seq<u8>) -> bool {
    &&& a.len() == b.len()
    &&& forall|i: int| 0 <= i < a.len() ==> ascii_lower(#[trigger] a[i]) == ascii_lower(b[i])
}

/// `reference` is a strict ancestor of `subject`: `subject` is longer,
/// starts with `reference` (case-insensitively), and a separator stands at
/// the boundary, either as the last byte of `reference` or as the next
/// byte of `subject`.
pub open spec fn strict_ancestor(reference: Seq<u8>, subject: Seq<u8>) -> bool {
    &&& 0 < reference.len() < subject.len()
    &&& eq_ignore_case(subject.subrange(0, reference.len() as int), reference)
    &&& (reference.last() == SEPARATOR || subject[reference.len() as int] == SEPARATOR)
}

/// `reference` names the same path as `subject`, or one of its ancestors.
/// Paths are taken as their UTF-8 bytes.
pub open spec fn same_or_ancestor(reference: Seq<u8>, subject: Seq<u8>) -> bool {
    eq_ignore_case(reference, subject) || strict_ancestor(reference, subject)
}

/// The path `reference` is the path `subject` or one of its ancestors,
/// both taken as text.
pub open spec fn covers(reference: Seq<char>, subject: Seq<char>) -> bool {
    same_or_ancestor(encode_utf8(reference), encode_utf8(subject))
}

/// Lower-cases one byte if it is an upper-case ASCII letter.
pub fn to_ascii_lower(b: u8) -> (r: u8)
    ensures
        r == ascii_lower(b),
{
    if 0x41 <= b && b <= 0x5A {
        b + 32
    } else {
        b
    }
}

/// Compares the first `len` bytes of two slices without regard to ASCII
/// case. Slices that are shorter than `len` do not compare equal.
pub fn prefix_eq_ignore_case(a: &[u8], b: &[u8], len: usize) -> (r: bool)
    ensures
        r == (len <= a@.len() && len <= b@.len() && eq_ignore_case(
            a@.subrange(0, len as int),
            b@.subrange(0, len as int),
        )),
{
    if len > a.len() || len > b.len() {
        return false;
    }
    let mut i: usize = 0;
    while i < len
        invariant
            i <= len,
            len <= a.len(),
            len <= b.len(),
            forall|j: int| 0 <= j < i ==> ascii_lower(#[trigger] a@[j]) == ascii_lower(b@[j]),
        decreases len - i,
    {
        if to_ascii_lower(a[i]) != to_ascii_lower(b[i]) {
            assert(a@.subrange(0, len as int)[i as int] == a@[i as int]);
            assert(b@.subrange(0, len as int)[i as int] == b@[i as int]);
            return false;
        }
        i += 1;
    }
    assert forall|j: int| 0 <= j < len implies ascii_lower(
        #[trigger] a@.subrange(0, len as int)[j],
    ) == ascii_lower(b@.subrange(0, len as int)[j]) by {
        assert(ascii_lower(a@[j]) == ascii_lower(b@[j]));
    }
    true
}

/// Tells whether `reference_path` is the same path as `subject_path` or
/// one of its ancestors. The comparison ignores ASCII case. A prefix only
/// counts at a path boundary: `...\Us` is no ancestor of `...\Users`. The
/// empty path matches the empty path and nothing else.
pub fn is_same_or_ancestor_of(reference_path: &str, subject_path: &str) -> (r: bool)
    ensures
        r == covers(reference_path@, subject_path@),
{
    let reference = reference_path.as_bytes();
    let subject = subject_path.as_bytes();
    let ref_len: usize = reference.len();
    let sub_len: usize = subject.len();
    if ref_len == sub_len {
        assert(reference@.subrange(0, ref_len as int) =~= reference@);
        assert(subject@.subrange(0, ref_len as int) =~= subject@);
        return prefix_eq_ignore_case(reference, subject, ref_len);
    }
    if sub_len > ref_len && ref_len > 0 {
        assert(reference@.subrange(0, ref_len as int) =~= reference@);
        if !prefix_eq_ignore_case(subject, reference, ref_len) {
            return false;
        }
        return reference[ref_len - 1] == SEPARATOR || subject[ref_len] == SEPARATOR;
    }
    false
}

/// Every path is the same as itself, the empty path included.
pub proof fn lemma_same_or_ancestor_reflexive(p: Seq<u8>)
    ensures
        same_or_ancestor(p, p),
{
}

/// Every path, taken as text, covers itself.
pub proof fn lemma_covers_reflexive(path: Seq<char>)
    ensures
        covers(path, path),
{
}

/// The separator is its own lower-case form, and no other byte
/// lower-cases to it.
pub proof fn lemma_separator_case(b: u8)
    ensures
        ascii_lower(b) == SEPARATOR <==> b == SEPARATOR,
{
}

/// The predicate does not see ASCII case: replacing either path by one
/// that differs from it in case only leaves the answer unchanged.
pub proof fn lemma_same_or_ancestor_case_insensitive(
    reference: Seq<u8>,
    subject: Seq<u8>,
    reference2: Seq<u8>,
    subject2: Seq<u8>,
)
    requires
        eq_ignore_case(reference, reference2),
        eq_ignore_case(subject, subject2),
    ensures
        same_or_ancestor(reference, subject) == same_or_ancestor(reference2, subject2),
{
    let n = reference.len() as int;
    if n <= subject.len() {
        assert forall|i: int| 0 <= i < n implies ascii_lower(#[trigger] subject.subrange(0, n)[i])
            == ascii_lower(subject2.subrange(0, n)[i]) by {
            assert(ascii_lower(subject[i]) == ascii_lower(subject2[i]));
        }
        if 0 < n {
            lemma_separator_case(reference.last());
            lemma_separator_case(reference2.last());
            assert(ascii_lower(reference[n - 1]) == ascii_lower(reference2[n - 1]));
        }
        if n < subject.len() {
            lemma_separator_case(subject[n]);
            lemma_separator_case(subject2[n]);
            assert(ascii_lower(subject[n]) == ascii_lower(subject2[n]));
        }
        if eq_ignore_case(subject.subrange(0, n), reference) {
            assert forall|i: int| 0 <= i < n implies ascii_lower(
                #[trigger] subject2.subrange(0, n)[i],
            ) == ascii_lower(reference2[i]) by {
                assert(ascii_lower(subject.subrange(0, n)[i]) == ascii_lower(reference[i]));
            }
        }
        if eq_ignore_case(subject2.subrange(0, n), reference2) {
            assert forall|i: int| 0 <= i < n implies ascii_lower(
                #[trigger] subject.subrange(0, n)[i],
            ) == ascii_lower(reference[i]) by {
                assert(ascii_lower(subject2.subrange(0, n)[i]) == ascii_lower(reference2[i]));
            }
        }
    }
    if eq_ignore_case(reference, subject) {
        assert forall|i: int| 0 <= i < n implies ascii_lower(#[trigger] reference2[i])
            == ascii_lower(subject2[i]) by {
            assert(ascii_lower(reference[i]) == ascii_lower(subject[i]));
        }
    }
    if eq_ignore_case(reference2, subject2) {
        assert forall|i: int| 0 <= i < n implies ascii_lower(#[trigger] reference[i])
            == ascii_lower(subject[i]) by {
            assert(ascii_lower(reference2[i]) == ascii_lower(subject2[i]));
        }
    }
}

/// The predicate is not symmetric: a strict ancestor never has its
/// descendant as an ancestor.
pub proof fn lemma_strict_ancestor_not_symmetric(a: Seq<u8>, b: Seq<u8>)
    requires
        strict_ancestor(a, b),
    ensures
        same_or_ancestor(a, b),
        !same_or_ancestor(b, a),
{
}

/// A longer subject that shares the reference as a prefix is still no
/// descendant when no separator stands at the boundary.
pub proof fn lemma_boundary_needs_separator(reference: Seq<u8>, subject: Seq<u8>)
    requires
        0 < reference.len() < subject.len(),
        reference.last() != SEPARATOR,
        subject[reference.len() as int] != SEPARATOR,
    ensures
        !same_or_ancestor(reference, subject),
{
}

/// When the reference ends in a separator, a longer subject that starts
/// with it is a descendant whatever its next byte is; a shorter subject
/// never is.
pub proof fn lemma_trailing_separator(reference: Seq<u8>, subject: Seq<u8>)
    requires
        0 < reference.len(),
        reference.last() == SEPARATOR,
    ensures
        reference.len() < subject.len() && eq_ignore_case(
            subject.subrange(0, reference.len() as int),
            reference,
        ) ==> same_or_ancestor(reference, subject),
        subject.len() < reference.len() ==> !same_or_ancestor(reference, subject),
{
}

/// What the caller is to do next to find the canonical form of a path,
/// or how the search ended.
#[derive(Debug, PartialEq, Eq)]
pub enum ResolveStep {
    /// Open the path as it is, asking for no access, sharing everything,
    /// and only if it exists.
    OpenFile,
    /// Ask for the file type of the opened handle.
    QueryFileType,
    /// Ask for the name of the opened handle.
    QueryName,
    /// The canonical path.
    Resolved(String),
    /// The path cannot be used.
    Failed(CoreError),
}

/// What the caller found when it carried out a step.
#[derive(Debug, PartialEq, Eq)]
pub enum ResolveEvent {
    /// The path was opened; `valid` tells whether the handle is one.
    Opened { valid: bool },
    /// The path could not be opened.
    OpenFailed,
    /// The file type of the handle.
    FileType(u32),
    /// The outcome of the name query.
    Name(Result<String, CoreError>),
}

/// The first step for a path: the empty path is not looked for.
pub open spec fn first_resolve_step(win32_path: Seq<char>) -> ResolveStep {
    if win32_path.len() == 0 {
        ResolveStep::Failed(CoreError::TargetNotFound)
    } else {
        ResolveStep::OpenFile
    }
}

/// The step that follows `step` once the caller reports `event`. An
/// event that does not answer the step ends the search as
/// `TargetNotFound`; a search that has ended stays as it is.
pub open spec fn next_resolve_step(step: ResolveStep, event: ResolveEvent) -> ResolveStep {
    match step {
        ResolveStep::OpenFile => match event {
            ResolveEvent::Opened { valid } => if valid {
                ResolveStep::QueryFileType
            } else {
                ResolveStep::Failed(CoreError::TargetNotFound)
            },
            _ => ResolveStep::Failed(CoreError::TargetNotFound),
        },
        ResolveStep::QueryFileType => match event {
            ResolveEvent::FileType(t) => if t == FILE_TYPE_DISK {
                ResolveStep::QueryName
            } else {
                ResolveStep::Failed(CoreError::TargetNotAFile)
            },
            _ => ResolveStep::Failed(CoreError::TargetNotFound),
        },
        ResolveStep::QueryName => match event {
            ResolveEvent::Name(Ok(nt_path)) => ResolveStep::Resolved(nt_path),
            ResolveEvent::Name(Err(e)) => ResolveStep::Failed(e),
            _ => ResolveStep::Failed(CoreError::TargetNotFound),
        },
        ResolveStep::Resolved(nt_path) => ResolveStep::Resolved(nt_path),
        ResolveStep::Failed(e) => ResolveStep::Failed(e),
    }
}

/// Starts the search for the canonical form of `win32_path`.
pub fn begin_resolve(win32_path: &str) -> (step: ResolveStep)
    ensures
        step == first_resolve_step(win32_path@),
{
    if win32_path.is_empty() {
        ResolveStep::Failed(CoreError::TargetNotFound)
    } else {
        ResolveStep::OpenFile
    }
}

/// Carries the search for a canonical path one step further. The caller
/// performs the step it was given and reports what happened. A path that
/// cannot be opened ends as `TargetNotFound`, one that is no disk file as
/// `TargetNotAFile`, one whose name cannot be read with the error of the
/// name query; otherwise the search ends with the canonical path.
pub fn win32_path_to_nt_path(step: ResolveStep, event: ResolveEvent) -> (next: ResolveStep)
    ensures
        next == next_resolve_step(step, event),
{
    match step {
        ResolveStep::OpenFile => match event {
            ResolveEvent::Opened { valid } => if valid {
                ResolveStep::QueryFileType
            } else {
                ResolveStep::Failed(CoreError::TargetNotFound)
            },
            _ => ResolveStep::Failed(CoreError::TargetNotFound),
        },
        ResolveStep::QueryFileType => match event {
            ResolveEvent::FileType(t) => if t == FILE_TYPE_DISK {
                ResolveStep::QueryName
            } else {
                ResolveStep::Failed(CoreError::TargetNotAFile)
            },
            _ => ResolveStep::Failed(CoreError::TargetNotFound),
        },
        ResolveStep::QueryName => match event {
            ResolveEvent::Name(Ok(nt_path)) => ResolveStep::Resolved(nt_path),
            ResolveEvent::Name(Err(e)) => ResolveStep::Failed(e),
            _ => ResolveStep::Failed(CoreError::TargetNotFound),
        },
        ResolveStep::Resolved(nt_path) => ResolveStep::Resolved(nt_path),
        ResolveStep::Failed(e) => ResolveStep::Failed(e),
    }
}

/// A name is asked for only of a handle that was opened and found to be
/// a disk file, and a path is resolved only by the name that was read.
pub proof fn lemma_resolved_by_name(step: ResolveStep, event: ResolveEvent)
    ensures
        next_resolve_step(step, event) is QueryFileType ==> step is OpenFile && event
            == (ResolveEvent::Opened { valid: true }),
        next_resolve_step(step, event) is QueryName ==> step is QueryFileType && event
            == ResolveEvent::FileType(FILE_TYPE_DISK),
        next_resolve_step(step, event) is Resolved && !(step is Resolved) ==> step is QueryName
            && event is Name && event->Name_0 is Ok && event->Name_0->Ok_0 == next_resolve_step(
            step,
            event,
        )->Resolved_0,
{
}

/// A path that cannot be opened gives no canonical path: the search ends
/// at once as `TargetNotFound`.
pub proof fn lemma_missing_target(event: ResolveEvent)
    requires
        event is OpenFailed,
    ensures
        next_resolve_step(ResolveStep::OpenFile, event) == ResolveStep::Failed(
            CoreError::TargetNotFound,
        ),
{
}

/// Where the search for the canonical form of `win32_path` stands after
/// the caller has reported `events`, one after the other.
pub open spec fn resolve_after(win32_path: Seq<char>, events: Seq<ResolveEvent>) -> ResolveStep
    decreases events.len(),
{
    if events.len() == 0 {
        first_resolve_step(win32_path)
    } else {
        next_resolve_step(resolve_after(win32_path, events.drop_last()), events.last())
    }
}

/// A canonical path is the name that was read from a handle which was
/// opened for a path that is not empty and found to be a disk file, in
/// this order; no other course of events gives one.
pub proof fn lemma_resolve_history(win32_path: Seq<char>, events: Seq<ResolveEvent>)
    ensures
        resolve_after(win32_path, events) is OpenFile ==> events.len() == 0 && win32_path.len() > 0,
        resolve_after(win32_path, events) is QueryFileType ==> win32_path.len() > 0 && events.len()
            == 1 && events[0] == (ResolveEvent::Opened { valid: true }),
        resolve_after(win32_path, events) is QueryName ==> win32_path.len() > 0 && events.len() == 2
            && events[0] == (ResolveEvent::Opened { valid: true }) && events[1]
            == ResolveEvent::FileType(FILE_TYPE_DISK),
        resolve_after(win32_path, events) is Resolved ==> win32_path.len() > 0 && events.len() >= 3
            && events[0] == (ResolveEvent::Opened { valid: true }) && events[1]
            == ResolveEvent::FileType(FILE_TYPE_DISK) && events[2] is Name && events[2]->Name_0 is Ok
            && events[2]->Name_0->Ok_0 == resolve_after(win32_path, events)->Resolved_0,
    decreases events.len(),
{
    if events.len() > 0 {
        let before = events.drop_last();
        lemma_resolve_history(win32_path, before);
        if before.len() > 0 {
            assert(before[0] == events[0]);
        }
        if before.len() > 1 {
            assert(before[1] == events[1]);
        }
        if before.len() > 2 {
            assert(before[2] == events[2]);
        }
    }
}

} // verus!
