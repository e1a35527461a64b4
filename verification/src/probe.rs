//! Decisions made on what the operating system reported about processes:
//! liveness from an exit status, the foreground policy, the children of a
//! process in a snapshot of the process table, and the choice of the child to
//! fall back on.

use vstd::prelude::*;

verus! {

/// Exit status that the operating system reports for a process that has not exited.
pub const STILL_ACTIVE: u32 = 259;

/// One row of a process table snapshot.
#[derive(Clone, Copy, Debug, PartialEq, Eq)]
pub struct ProcessEntry {
    pub pid: u32,
    pub parent_pid: u32,
}

/// A child process together with the result of probing it.
#[derive(Clone, Copy, Debug, PartialEq, Eq)]
pub struct ChildProbe {
    pub pid: u32,
    pub alive: bool,
}

/// How "in the foreground" is decided.
#[derive(Clone, Copy, Debug, PartialEq, Eq)]
pub enum ForegroundPolicy {
    /// The focused top-level window must belong to the process.
    Strict,
    /// A live process, or one with a live child, counts as in the foreground.
    Lenient,
    /// No window manager to ask: every process counts as in the foreground.
    Assumed,
}

/// Whether any of `children` probed alive.
pub open spec fn any_alive(children: Seq<ChildProbe>) -> bool {
    exists|i: int| 0 <= i < children.len() && (#[trigger] children[i]).alive
}

/// What each foreground policy answers.
pub open spec fn foreground_under(
    policy: ForegroundPolicy,
    pid: u32,
    focused_pid: Option<u32>,
    alive: bool,
    children: Seq<ChildProbe>,
) -> bool {
    match policy {
        ForegroundPolicy::Strict => focused_pid == Some(pid),
        ForegroundPolicy::Lenient => alive || any_alive(children),
        ForegroundPolicy::Assumed => true,
    }
}

/// The pids of the rows of `table` whose parent is `parent_pid`, in table order.
pub open spec fn children_of(table: Seq<ProcessEntry>, parent_pid: u32) -> Seq<u32>
    decreases table.len(),
{
    if table.len() == 0 {
        Seq::empty()
    } else if table.last().parent_pid == parent_pid {
        children_of(table.drop_last(), parent_pid).push(table.last().pid)
    } else {
        children_of(table.drop_last(), parent_pid)
    }
}

/// `i` is the position of the first child that probed alive.
pub open spec fn is_first_alive(children: Seq<ChildProbe>, i: int) -> bool {
    &&& 0 <= i < children.len()
    &&& children[i].alive
    &&& forall|j: int| 0 <= j < i ==> !(#[trigger] children[j]).alive
}

/// Liveness of a process from the exit status that a query returned, `None`
/// standing for a query that failed for whatever reason: alive exactly when
/// the status is the still-running sentinel.
pub fn is_process_running(exit_status: Option<u32>) -> (alive: bool)
    ensures
        alive == (exit_status == Some(STILL_ACTIVE)),
{
    match exit_status {
        Some(code) => code == STILL_ACTIVE,
        None => false,
    }
}

/// Whether the process `pid` counts as in the foreground under `policy`.
///
/// `focused_pid` is the owner of the focused window, if one could be
/// resolved; `alive` the liveness of `pid`; `children` its children with
/// their probe results. Each policy reads only its own inputs.
pub fn is_window_foreground(
    policy: ForegroundPolicy,
    pid: u32,
    focused_pid: Option<u32>,
    alive: bool,
    children: &Vec<ChildProbe>,
) -> (foreground: bool)
    ensures
        foreground == foreground_under(policy, pid, focused_pid, alive, children@),
{
    match policy {
        ForegroundPolicy::Assumed => true,
        ForegroundPolicy::Strict => match focused_pid {
            Some(owner) => owner == pid,
            None => false,
        },
        ForegroundPolicy::Lenient => {
            if alive {
                true
            } else {
                match first_live_child(children) {
                    Some(pid) => {
                        proof {
                            let i = choose|i: int| is_first_alive(children@, i) && children@[i].pid == pid;
                            assert(children@[i].alive);
                        }
                        true
                    },
                    None => false,
                }
            }
        },
    }
}

/// The children of `parent_pid` in a snapshot of the process table: the pid
/// of every row whose parent is `parent_pid`, in table order. An empty table
/// gives no children.
pub fn get_child_processes(table: &Vec<ProcessEntry>, parent_pid: u32) -> (children: Vec<u32>)
    ensures
        children@ == children_of(table@, parent_pid),
{
    let mut children: Vec<u32> = Vec::new();
    let mut i: usize = 0;
    while i < table.len()
        invariant
            i <= table.len(),
            children@ == children_of(table@.take(i as int), parent_pid),
        decreases table.len() - i,
    {
        proof {
            assert(table@.take(i + 1).drop_last() == table@.take(i as int));
        }
        if table[i].parent_pid == parent_pid {
            children.push(table[i].pid);
        }
        i = i + 1;
    }
    proof {
        assert(table@.take(i as int) == table@);
    }
    children
}

/// The child to fall back on: the first in `children` that probed alive, or
/// `None` when none did.
pub fn first_live_child(children: &Vec<ChildProbe>) -> (found: Option<u32>)
    ensures
        match found {
            Some(pid) => exists|i: int| is_first_alive(children@, i) && children@[i].pid == pid,
            None => !any_alive(children@),
        },
{
    let mut i: usize = 0;
    while i < children.len()
        invariant
            i <= children.len(),
            forall|j: int| 0 <= j < i ==> !(#[trigger] children@[j]).alive,
        decreases children.len() - i,
    {
        if children[i].alive {
            proof {
                assert(is_first_alive(children@, i as int));
            }
            return Some(children[i].pid);
        }
        i = i + 1;
    }
    None
}

/// A pid is among the children of `parent_pid` exactly when some row of the
/// table carries it with that parent.
pub proof fn children_are_the_rows_with_that_parent(table: Seq<ProcessEntry>, parent_pid: u32, pid: u32)
    ensures
        children_of(table, parent_pid).contains(pid) <==> exists|i: int|
            0 <= i < table.len() && (#[trigger] table[i]).parent_pid == parent_pid && table[i].pid
                == pid,
    decreases table.len(),
{
    if table.len() > 0 {
        let rest = table.drop_last();
        children_are_the_rows_with_that_parent(rest, parent_pid, pid);
        let found = children_of(table, parent_pid);
        let before = children_of(rest, parent_pid);
        if found.contains(pid) {
            let k = choose|k: int| 0 <= k < found.len() && found[k] == pid;
            if table.last().parent_pid == parent_pid && k == found.len() - 1 {
                assert(table[table.len() - 1].parent_pid == parent_pid && table[table.len() - 1].pid
                    == pid);
            } else {
                assert(before[k] == pid);
                assert(before.contains(pid));
                let i = choose|i: int|
                    0 <= i < rest.len() && (#[trigger] rest[i]).parent_pid == parent_pid && rest[i].pid
                        == pid;
                assert(table[i].parent_pid == parent_pid && table[i].pid == pid);
            }
        }
        if exists|i: int|
            0 <= i < table.len() && (#[trigger] table[i]).parent_pid == parent_pid && table[i].pid
                == pid {
            let i = choose|i: int|
                0 <= i < table.len() && (#[trigger] table[i]).parent_pid == parent_pid && table[i].pid
                    == pid;
            if i == table.len() - 1 {
                assert(found[found.len() - 1] == pid);
            } else {
                assert(rest[i].parent_pid == parent_pid && rest[i].pid == pid);
                let k = choose|k: int| 0 <= k < before.len() && before[k] == pid;
                assert(found[k] == pid);
            }
        }
    }
}

} // verus!
