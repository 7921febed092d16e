//! Matching the scans against a target path and merging what matches
//! into one entry per process.

use crate::handle_ext::HandleInfo;
use crate::path_ext::{covers, is_same_or_ancestor_of};
use crate::process_ext::{or_unknown, path_or_unknown, ProcessInfo};
use std::collections::HashMap;
use vstd::prelude::*;
use vstd::std_specs::hash::*;

verus! {

broadcast use vstd::std_specs::hash::group_hash_axioms;

/// A process that locks the target: its id, the name to show for it and
/// the path of its image.
#[derive(Debug, PartialEq, Eq)]
pub struct ProcessResult {
    pub pid: u32,
    pub name: String,
    pub path: String,
}

/// A `ProcessResult` as plain values.
pub struct Locker {
    pub pid: u32,
    pub name: Seq<char>,
    pub path: Seq<char>,
}

impl View for ProcessResult {
    type V = Locker;

    open spec fn view(&self) -> Locker {
        Locker { pid: self.pid, name: self.name@, path: self.path@ }
    }
}

/// The entry for a process of which nothing but its id is known.
pub open spec fn unknown_locker(pid: u32) -> Locker {
    Locker { pid, name: "unknown"@, path: "unknown"@ }
}

impl ProcessResult {
    /// The entry for the owner of a matching handle. A name or a path
    /// that could not be looked up is shown as `unknown`.
    pub fn new(pid: u32, name: Option<String>, path: Option<String>) -> (entry: Self)
        ensures
            entry@ == (Locker { pid, name: path_or_unknown(name), path: path_or_unknown(path) }),
    {
        ProcessResult { pid, name: or_unknown(name), path: or_unknown(path) }
    }
}

/// The owners of the handles whose path is the target or one of its
/// ancestors, one for each such handle, in table order.
pub open spec fn matching_pids(target: Seq<char>, handles: Seq<HandleInfo>) -> Seq<u32>
    decreases handles.len(),
{
    if handles.len() == 0 {
        Seq::empty()
    } else if covers(handles.last().nt_path@, target) {
        matching_pids(target, handles.drop_last()).push(handles.last().pid)
    } else {
        matching_pids(target, handles.drop_last())
    }
}

/// The entry for the owner `pid` of the matching handle number `k`: what
/// was looked up for it, if `holders` has an entry for this process at
/// that place, and otherwise the entry of an unknown process.
pub open spec fn holder_entry(holders: Seq<ProcessResult>, k: int, pid: u32) -> Locker {
    if 0 <= k < holders.len() && holders[k].pid == pid {
        holders[k]@
    } else {
        unknown_locker(pid)
    }
}

/// The process locks the target through its image or one of its loaded
/// modules: the path of one of them is the target or one of its
/// ancestors.
pub open spec fn holds_lock(target: Seq<char>, info: ProcessInfo) -> bool {
    covers(info.process_full_path@, target) || exists|j: int|
        0 <= j < info.modules@.len() && covers(#[trigger] info.modules@[j]@, target)
}

/// The entry under which a process of the process scan is reported.
pub open spec fn entry_of(info: ProcessInfo) -> Locker {
    Locker { pid: info.pid, name: info.process_name@, path: info.process_full_path@ }
}

/// The result of the handle scan: the owner of each handle whose path is
/// the target or one of its ancestors, entered under its process id in
/// table order. A later entry for the same id replaces the earlier one.
pub open spec fn handle_lockers(target: Seq<char>, handles: Seq<HandleInfo>, holders: Seq<ProcessResult>) -> Map<
    u32,
    Locker,
>
    decreases handles.len(),
{
    if handles.len() == 0 {
        Map::empty()
    } else if covers(handles.last().nt_path@, target) {
        handle_lockers(target, handles.drop_last(), holders).insert(
            handles.last().pid,
            holder_entry(
                holders,
                matching_pids(target, handles.drop_last()).len() as int,
                handles.last().pid,
            ),
        )
    } else {
        handle_lockers(target, handles.drop_last(), holders)
    }
}

/// `found` after each process of `infos` that locks the target was
/// entered under its process id, in order.
pub open spec fn with_processes(found: Map<u32, Locker>, target: Seq<char>, infos: Seq<ProcessInfo>) -> Map<
    u32,
    Locker,
>
    decreases infos.len(),
{
    if infos.len() == 0 {
        found
    } else if holds_lock(target, infos.last()) {
        with_processes(found, target, infos.drop_last()).insert(
            infos.last().pid,
            entry_of(infos.last()),
        )
    } else {
        with_processes(found, target, infos.drop_last())
    }
}

/// The processes that lock the target, by process id: first the owners
/// of matching handles, then the processes whose image or modules match.
pub open spec fn lockers(
    target: Seq<char>,
    handles: Seq<HandleInfo>,
    holders: Seq<ProcessResult>,
    infos: Seq<ProcessInfo>,
) -> Map<u32, Locker> {
    with_processes(handle_lockers(target, handles, holders), target, infos)
}

/// The entries of a result as plain values.
pub open spec fn found_view(found: Map<u32, ProcessResult>) -> Map<u32, Locker> {
    Map::new(|pid: u32| found.contains_key(pid), |pid: u32| found[pid]@)
}

/// Picks, from the handle scan, the owners whose names are to be looked
/// up: the process id of every handle whose path is the target or one of
/// its ancestors.
pub fn matching_handle_pids(nt_path: &str, handle_infos: &Vec<HandleInfo>) -> (pids: Vec<u32>)
    ensures
        pids@ == matching_pids(nt_path@, handle_infos@),
{
    let mut pids: Vec<u32> = Vec::new();
    let mut i: usize = 0;
    while i < handle_infos.len()
        invariant
            i <= handle_infos.len(),
            pids@ == matching_pids(nt_path@, handle_infos@.subrange(0, i as int)),
        decreases handle_infos.len() - i,
    {
        assert(handle_infos@.subrange(0, i + 1).drop_last() =~= handle_infos@.subrange(0, i as int));
        if is_same_or_ancestor_of(handle_infos[i].nt_path.as_str(), nt_path) {
            pids.push(handle_infos[i].pid);
        }
        i += 1;
    }
    assert(handle_infos@.subrange(0, i as int) =~= handle_infos@);
    pids
}

/// Tells whether a process locks the target through its image or one of
/// its modules.
pub fn process_holds_lock(nt_path: &str, info: &ProcessInfo) -> (r: bool)
    ensures
        r == holds_lock(nt_path@, *info),
{
    if is_same_or_ancestor_of(info.process_full_path.as_str(), nt_path) {
        return true;
    }
    let mut j: usize = 0;
    while j < info.modules.len()
        invariant
            j <= info.modules.len(),
            !covers(info.process_full_path@, nt_path@),
            forall|k: int| 0 <= k < j ==> !covers(#[trigger] info.modules@[k]@, nt_path@),
        decreases info.modules.len() - j,
    {
        if is_same_or_ancestor_of(info.modules[j].as_str(), nt_path) {
            return true;
        }
        j += 1;
    }
    false
}

/// Merges the two scans into the result for the target `nt_path`.
/// `handle_infos` is the whole handle scan and `process_infos` the whole
/// process scan. `holders` holds what was looked up about the owners of
/// the matching handles, in the order in which `matching_handle_pids`
/// gives them; an owner without an entry of its own there is reported
/// with placeholders. Every process is reported once, under its process
/// id; where it was found more than once, the last finding stands. A
/// result without entries is a valid answer: nothing locks the target.
pub fn find_locker(
    nt_path: &str,
    handle_infos: &Vec<HandleInfo>,
    holders: &Vec<ProcessResult>,
    process_infos: &Vec<ProcessInfo>,
) -> (found: HashMap<u32, ProcessResult>)
    ensures
        found_view(found@) == lockers(nt_path@, handle_infos@, holders@, process_infos@),
{
    let mut found: HashMap<u32, ProcessResult> = HashMap::new();
    let mut matched: usize = 0;
    let mut i: usize = 0;
    assert(found_view(found@) =~= Map::<u32, Locker>::empty());
    while i < handle_infos.len()
        invariant
            i <= handle_infos.len(),
            matched <= i,
            matched == matching_pids(nt_path@, handle_infos@.subrange(0, i as int)).len(),
            found_view(found@) == handle_lockers(
                nt_path@,
                handle_infos@.subrange(0, i as int),
                holders@,
            ),
        decreases handle_infos.len() - i,
    {
        assert(handle_infos@.subrange(0, i + 1).drop_last() =~= handle_infos@.subrange(0, i as int));
        let info: &HandleInfo = &handle_infos[i];
        if is_same_or_ancestor_of(info.nt_path.as_str(), nt_path) {
            let entry = if matched < holders.len() && holders[matched].pid == info.pid {
                ProcessResult {
                    pid: info.pid,
                    name: holders[matched].name.clone(),
                    path: holders[matched].path.clone(),
                }
            } else {
                ProcessResult::new(info.pid, None, None)
            };
            let ghost before = found@;
            found.insert(info.pid, entry);
            assert(found_view(found@) =~= found_view(before).insert(info.pid, entry@));
            matched += 1;
        }
        i += 1;
    }
    assert(handle_infos@.subrange(0, i as int) =~= handle_infos@);
    let mut j: usize = 0;
    while j < process_infos.len()
        invariant
            j <= process_infos.len(),
            found_view(found@) == with_processes(
                handle_lockers(nt_path@, handle_infos@, holders@),
                nt_path@,
                process_infos@.subrange(0, j as int),
            ),
        decreases process_infos.len() - j,
    {
        assert(process_infos@.subrange(0, j + 1).drop_last() =~= process_infos@.subrange(
            0,
            j as int,
        ));
        let info: &ProcessInfo = &process_infos[j];
        if process_holds_lock(nt_path, info) {
            let entry = ProcessResult {
                pid: info.pid,
                name: info.process_name.clone(),
                path: info.process_full_path.clone(),
            };
            let ghost before = found@;
            found.insert(info.pid, entry);
            assert(found_view(found@) =~= found_view(before).insert(info.pid, entry@));
        }
        j += 1;
    }
    assert(process_infos@.subrange(0, j as int) =~= process_infos@);
    found
}

/// One of the handles is owned by this process and has a path that is
/// the target or one of its ancestors.
pub open spec fn is_holder(target: Seq<char>, handles: Seq<HandleInfo>, pid: u32) -> bool {
    exists|i: int|
        0 <= i < handles.len() && (#[trigger] handles[i]).pid == pid && covers(
            handles[i].nt_path@,
            target,
        )
}

/// One of the processes has this process id and locks the target.
pub open spec fn is_locking_process(target: Seq<char>, infos: Seq<ProcessInfo>, pid: u32) -> bool {
    exists|j: int| 0 <= j < infos.len() && (#[trigger] infos[j]).pid == pid && holds_lock(target, infos[j])
}

/// `entry` is how one of the processes with this id that lock the target
/// is reported.
pub open spec fn reported_from(target: Seq<char>, infos: Seq<ProcessInfo>, pid: u32, entry: Locker) -> bool {
    exists|j: int|
        0 <= j < infos.len() && (#[trigger] infos[j]).pid == pid && holds_lock(target, infos[j])
            && entry == entry_of(infos[j])
}

/// The handle scan reports exactly the owners of matching handles, each
/// under its own id.
pub proof fn lemma_handle_lockers(
    target: Seq<char>,
    handles: Seq<HandleInfo>,
    holders: Seq<ProcessResult>,
    pid: u32,
)
    ensures
        handle_lockers(target, handles, holders).contains_key(pid) <==> is_holder(
            target,
            handles,
            pid,
        ),
        is_holder(target, handles, pid) ==> handle_lockers(target, handles, holders)[pid].pid == pid,
    decreases handles.len(),
{
    if handles.len() > 0 {
        let front = handles.drop_last();
        let last = handles.last();
        lemma_handle_lockers(target, front, holders, pid);
        if is_holder(target, front, pid) {
            let i = choose|i: int|
                0 <= i < front.len() && (#[trigger] front[i]).pid == pid && covers(
                    front[i].nt_path@,
                    target,
                );
            assert(handles[i].pid == pid && covers(handles[i].nt_path@, target));
        }
        if last.pid == pid && covers(last.nt_path@, target) {
            assert(handles[handles.len() - 1].pid == pid);
        }
        if is_holder(target, handles, pid) && !(last.pid == pid && covers(last.nt_path@, target)) {
            let i = choose|i: int|
                0 <= i < handles.len() && (#[trigger] handles[i]).pid == pid && covers(
                    handles[i].nt_path@,
                    target,
                );
            assert(front[i].pid == pid && covers(front[i].nt_path@, target));
        }
    }
}

/// Entering the process scan adds exactly the ids of the processes that
/// lock the target, each reported as one of them, and leaves every other
/// entry as it was.
pub proof fn lemma_with_processes(
    found: Map<u32, Locker>,
    target: Seq<char>,
    infos: Seq<ProcessInfo>,
    pid: u32,
)
    ensures
        with_processes(found, target, infos).contains_key(pid) <==> found.contains_key(pid)
            || is_locking_process(target, infos, pid),
        is_locking_process(target, infos, pid) ==> reported_from(
            target,
            infos,
            pid,
            with_processes(found, target, infos)[pid],
        ),
        !is_locking_process(target, infos, pid) ==> with_processes(found, target, infos)[pid]
            == found[pid],
    decreases infos.len(),
{
    if infos.len() > 0 {
        let front = infos.drop_last();
        let last = infos.last();
        lemma_with_processes(found, target, front, pid);
        if is_locking_process(target, front, pid) {
            let j = choose|j: int|
                0 <= j < front.len() && (#[trigger] front[j]).pid == pid && holds_lock(
                    target,
                    front[j],
                );
            assert(infos[j].pid == pid && holds_lock(target, infos[j]));
            let k = choose|k: int|
                0 <= k < front.len() && (#[trigger] front[k]).pid == pid && holds_lock(
                    target,
                    front[k],
                ) && with_processes(found, target, front)[pid] == entry_of(front[k]);
            assert(infos[k].pid == pid && holds_lock(target, infos[k]));
        }
        if last.pid == pid && holds_lock(target, last) {
            assert(infos[infos.len() - 1].pid == pid);
        }
        if is_locking_process(target, infos, pid) && !(last.pid == pid && holds_lock(target, last)) {
            let j = choose|j: int|
                0 <= j < infos.len() && (#[trigger] infos[j]).pid == pid && holds_lock(
                    target,
                    infos[j],
                );
            assert(front[j].pid == pid && holds_lock(target, front[j]));
        }
    }
}

/// The result holds a process id exactly if a matching handle belongs to
/// that process or the process itself locks the target, and the entry
/// found under an id is an entry for that id.
pub proof fn lemma_lockers_keys(
    target: Seq<char>,
    handles: Seq<HandleInfo>,
    holders: Seq<ProcessResult>,
    infos: Seq<ProcessInfo>,
    pid: u32,
)
    ensures
        lockers(target, handles, holders, infos).contains_key(pid) <==> is_holder(
            target,
            handles,
            pid,
        ) || is_locking_process(target, infos, pid),
        lockers(target, handles, holders, infos).contains_key(pid) ==> lockers(
            target,
            handles,
            holders,
            infos,
        )[pid].pid == pid,
{
    lemma_handle_lockers(target, handles, holders, pid);
    lemma_with_processes(handle_lockers(target, handles, holders), target, infos, pid);
}

/// A process that was found through a handle and again through its
/// image or a module has one entry, not two: the one from the process
/// scan, which replaces the earlier one.
pub proof fn lemma_found_twice_reported_once(
    target: Seq<char>,
    handles: Seq<HandleInfo>,
    holders: Seq<ProcessResult>,
    infos: Seq<ProcessInfo>,
    pid: u32,
)
    requires
        is_holder(target, handles, pid),
        is_locking_process(target, infos, pid),
    ensures
        lockers(target, handles, holders, infos).contains_key(pid),
        reported_from(target, infos, pid, lockers(target, handles, holders, infos)[pid]),
        !lockers(target, handles, holders, infos).remove(pid).contains_key(pid),
{
    lemma_with_processes(handle_lockers(target, handles, holders), target, infos, pid);
}

/// Where no handle matches and no process locks the target, the result
/// is empty.
pub proof fn lemma_nothing_found(
    target: Seq<char>,
    handles: Seq<HandleInfo>,
    holders: Seq<ProcessResult>,
    infos: Seq<ProcessInfo>,
)
    requires
        forall|i: int| 0 <= i < handles.len() ==> !covers((#[trigger] handles[i]).nt_path@, target),
        forall|j: int| 0 <= j < infos.len() ==> !holds_lock(target, #[trigger] infos[j]),
    ensures
        lockers(target, handles, holders, infos) == Map::<u32, Locker>::empty(),
{
    assert forall|pid: u32| !lockers(target, handles, holders, infos).contains_key(pid) by {
        lemma_lockers_keys(target, handles, holders, infos, pid);
    }
    assert(lockers(target, handles, holders, infos) =~= Map::<u32, Locker>::empty());
}

} // verus!
