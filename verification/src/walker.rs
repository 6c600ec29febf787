//! The process ancestry walk: from the current process upward through
//! parent links to the login shell, then one step further to the terminal
//! hosting it. The walk is bounded so that a pathological parent relation
//! cannot make it loop.

use crate::snapshot::{lookup_name, lookup_parent, name_of, parent_of, ProcessRecord};
use crate::text::{after_last, after_last_char, opt_chars, str_eq};
use vstd::prelude::*;

verus! {

/// The most ancestor hops a walk may take before giving up. The bound
/// exists only to guarantee termination on a pathological parent relation;
/// real ancestry chains are far shorter.
pub const MAX_ANCESTOR_HOPS: u64 = 64;

/// Whether an executable name is in the fixed set of shells that host
/// themselves: such a process is both shell and terminal, and the walk
/// does not look past it.
pub open spec fn is_self_hosting(name: Seq<char>) -> bool {
    name == "cmd.exe"@ || name == "powershell.exe"@
}

/// Whether `name` is in the self-hosting shell set.
pub fn self_hosting(name: &str) -> (r: bool)
    ensures
        r == is_self_hosting(name@),
{
    str_eq(name, "cmd.exe") || str_eq(name, "powershell.exe")
}

/// Where the ancestry walk stops.
pub enum WalkStop {
    /// Parents ran out, the root process was reached, or the hop bound
    /// was spent: there is no identifiable shell above the start.
    Exhausted,
    /// The process with this id is a self-hosting shell: it is itself the
    /// terminal, and no further ancestor is consulted.
    SelfHosting(u32),
    /// The process with this id is the login shell: its own parent is the
    /// terminal candidate.
    Shell(u32),
}

/// Where a walk starting at `pid` with `fuel` hops left stops, against
/// snapshot `s`. Each step moves to the recorded parent; the walk ends at
/// a missing parent link, at the root process (parent id 1), at a spent
/// bound, or at an ancestor whose name is the self-hosting set's or the
/// shell's (by full path `shell` or by final path component `shell_name`).
/// An ancestor with a parent link but no name record is skipped.
pub open spec fn walk_from(
    s: Seq<ProcessRecord>,
    pid: u32,
    shell: Seq<char>,
    shell_name: Seq<char>,
    fuel: nat,
) -> WalkStop
    decreases fuel,
{
    if fuel == 0 {
        WalkStop::Exhausted
    } else {
        match parent_of(s, pid) {
            None => WalkStop::Exhausted,
            Some(ppid) => {
                if ppid == 1 {
                    WalkStop::Exhausted
                } else {
                    match name_of(s, ppid) {
                        None => walk_from(s, ppid, shell, shell_name, (fuel - 1) as nat),
                        Some(n) => {
                            if is_self_hosting(n) {
                                WalkStop::SelfHosting(ppid)
                            } else if n == shell || n == shell_name {
                                WalkStop::Shell(ppid)
                            } else {
                                walk_from(s, ppid, shell, shell_name, (fuel - 1) as nat)
                            }
                        },
                    }
                }
            },
        }
    }
}

/// The shell path the walk compares against: the shell-path variable's
/// value, or empty when it is unset.
pub open spec fn shell_of(shell_var: Option<Seq<char>>) -> Seq<char> {
    match shell_var {
        Some(v) => v,
        None => Seq::empty(),
    }
}

/// The raw terminal candidate for snapshot `s`, starting at `self_pid`
/// with the shell-path variable `shell_var`: the stopping process's own
/// name when it hosts itself, its parent's name when it is the shell, and
/// `None` when the walk is exhausted or either lookup past the shell
/// fails. The flag records whether the candidate hosts itself.
pub open spec fn raw_candidate(
    s: Seq<ProcessRecord>,
    self_pid: u32,
    shell_var: Option<Seq<char>>,
) -> Option<(Seq<char>, bool)> {
    let shell = shell_of(shell_var);
    let shell_name = after_last(shell, '/');
    match walk_from(s, self_pid, shell, shell_name, MAX_ANCESTOR_HOPS as nat) {
        WalkStop::Exhausted => None,
        WalkStop::SelfHosting(p) => match name_of(s, p) {
            Some(n) => Some((n, true)),
            None => None,
        },
        WalkStop::Shell(p) => match parent_of(s, p) {
            None => None,
            Some(pp) => match name_of(s, pp) {
                Some(n) => Some((n, false)),
                None => None,
            },
        },
    }
}

/// Walks the ancestry of `self_pid` in `snap` and returns the raw
/// terminal candidate: the name of the shell's parent, or of the shell
/// itself when it hosts itself, together with the self-hosting flag.
pub fn walk_ancestry(snap: &Vec<ProcessRecord>, self_pid: u32, shell_var: &Option<String>) -> (r:
    Option<(String, bool)>)
    ensures
        (match r {
            Some((name, self_hosted)) => raw_candidate(snap@, self_pid, opt_chars(*shell_var))
                == Some((name@, self_hosted)),
            None => raw_candidate(snap@, self_pid, opt_chars(*shell_var)) is None,
        }),
{
    let shell: String = match shell_var {
        Some(v) => v.clone(),
        None => String::new(),
    };
    let shell_name: &str = after_last_char(shell.as_str(), '/');
    let ghost sh: Seq<char> = shell_of(opt_chars(*shell_var));
    let ghost shn: Seq<char> = after_last(sh, '/');
    assert(shell@ == sh);
    assert(shell_name@ == shn);

    let mut pid: u32 = self_pid;
    let mut fuel: u64 = MAX_ANCESTOR_HOPS;
    let mut shell_pid: u32 = 0;
    loop
        invariant_except_break
            sh == shell_of(opt_chars(*shell_var)),
            shn == after_last(sh, '/'),
            shell@ == sh,
            shell_name@ == shn,
            fuel <= MAX_ANCESTOR_HOPS,
            walk_from(snap@, self_pid, sh, shn, MAX_ANCESTOR_HOPS as nat) == walk_from(
                snap@,
                pid,
                sh,
                shn,
                fuel as nat,
            ),
        ensures
            walk_from(snap@, self_pid, sh, shn, MAX_ANCESTOR_HOPS as nat) == WalkStop::Shell(
                shell_pid,
            ),
        decreases fuel,
    {
        if fuel == 0 {
            return None;
        }
        let ppid = match lookup_parent(snap, pid) {
            None => {
                return None;
            },
            Some(p) => p,
        };
        if ppid == 1 {
            return None;
        }
        match lookup_name(snap, ppid) {
            None => {
                pid = ppid;
                fuel = fuel - 1;
            },
            Some(n) => {
                if self_hosting(n.as_str()) {
                    return Some((n, true));
                } else if str_eq(n.as_str(), shell.as_str()) || str_eq(n.as_str(), shell_name) {
                    shell_pid = ppid;
                    break;
                } else {
                    pid = ppid;
                    fuel = fuel - 1;
                }
            },
        }
    }

    // The shell was found; its own parent is the terminal candidate.
    match lookup_parent(snap, shell_pid) {
        None => None,
        Some(pp) => match lookup_name(snap, pp) {
            None => None,
            Some(n) => Some((n, false)),
        },
    }
}

} // verus!
