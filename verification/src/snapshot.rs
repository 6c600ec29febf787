//! A point-in-time model of the host's process table, the lookups the
//! ancestry walk performs on it, and the trusted calls that sample the
//! live table.

use sysinfo::{PidExt, ProcessExt, SystemExt};
use vstd::prelude::*;

verus! {

/// One process as sampled from the host: its id, its executable name, and
/// its parent's id when the sampler knows one.
pub struct ProcessRecord {
    pub pid: u32,
    pub name: String,
    pub parent: Option<u32>,
}

/// The executable name recorded for `pid`: taken from the first record
/// carrying that id, or `None` when no record does.
pub open spec fn name_of(s: Seq<ProcessRecord>, pid: u32) -> Option<Seq<char>>
    decreases s.len(),
{
    if s.len() == 0 {
        None
    } else if s[0].pid == pid {
        Some(s[0].name@)
    } else {
        name_of(s.drop_first(), pid)
    }
}

/// The parent id recorded for `pid`: taken from the first record carrying
/// that id together with a parent, or `None` when no record does.
pub open spec fn parent_of(s: Seq<ProcessRecord>, pid: u32) -> Option<u32>
    decreases s.len(),
{
    if s.len() == 0 {
        None
    } else if s[0].pid == pid && s[0].parent is Some {
        s[0].parent
    } else {
        parent_of(s.drop_first(), pid)
    }
}

/// Records before position `i` that do not carry `pid` do not affect the
/// name lookup.
proof fn lemma_name_of_skip(s: Seq<ProcessRecord>, pid: u32, i: int)
    requires
        0 <= i <= s.len(),
        forall|k: int| 0 <= k < i ==> s[k].pid != pid,
    ensures
        name_of(s, pid) == name_of(s.subrange(i, s.len() as int), pid),
    decreases i,
{
    if i == 0 {
        assert(s.subrange(0, s.len() as int) =~= s);
    } else {
        let rest = s.drop_first();
        assert(forall|k: int| 0 <= k < i - 1 ==> rest[k] == s[k + 1] && rest[k].pid != pid);
        lemma_name_of_skip(rest, pid, i - 1);
        assert(rest.subrange(i - 1, rest.len() as int) =~= s.subrange(i, s.len() as int));
    }
}

/// Records before position `i` that do not carry `pid` together with a
/// parent do not affect the parent lookup.
proof fn lemma_parent_of_skip(s: Seq<ProcessRecord>, pid: u32, i: int)
    requires
        0 <= i <= s.len(),
        forall|k: int| 0 <= k < i ==> !(s[k].pid == pid && s[k].parent is Some),
    ensures
        parent_of(s, pid) == parent_of(s.subrange(i, s.len() as int), pid),
    decreases i,
{
    if i == 0 {
        assert(s.subrange(0, s.len() as int) =~= s);
    } else {
        let rest = s.drop_first();
        assert(forall|k: int|
            0 <= k < i - 1 ==> rest[k] == s[k + 1] && !(rest[k].pid == pid
                && rest[k].parent is Some));
        lemma_parent_of_skip(rest, pid, i - 1);
        assert(rest.subrange(i - 1, rest.len() as int) =~= s.subrange(i, s.len() as int));
    }
}

/// The executable name of `pid` in the snapshot, or `None` when the
/// snapshot holds no record of it.
pub fn lookup_name(snap: &Vec<ProcessRecord>, pid: u32) -> (r: Option<String>)
    ensures
        (match r {
            Some(n) => name_of(snap@, pid) == Some(n@),
            None => name_of(snap@, pid) is None,
        }),
{
    let n = snap.len();
    let mut i: usize = 0;
    while i < n
        invariant
            i <= n,
            n == snap@.len(),
            forall|k: int| 0 <= k < i ==> snap@[k].pid != pid,
        decreases n - i,
    {
        if snap[i].pid == pid {
            proof {
                lemma_name_of_skip(snap@, pid, i as int);
                assert(snap@.subrange(i as int, n as int)[0] == snap@[i as int]);
            }
            return Some(snap[i].name.clone());
        }
        i = i + 1;
    }
    proof {
        lemma_name_of_skip(snap@, pid, n as int);
    }
    None
}

/// The parent id of `pid` in the snapshot, or `None` when the snapshot
/// holds no record of it or records no parent for it.
pub fn lookup_parent(snap: &Vec<ProcessRecord>, pid: u32) -> (r: Option<u32>)
    ensures
        r == parent_of(snap@, pid),
{
    let n = snap.len();
    let mut i: usize = 0;
    while i < n
        invariant
            i <= n,
            n == snap@.len(),
            forall|k: int| 0 <= k < i ==> !(snap@[k].pid == pid && snap@[k].parent is Some),
        decreases n - i,
    {
        if snap[i].pid == pid {
            if let Some(ppid) = snap[i].parent {
                proof {
                    lemma_parent_of_skip(snap@, pid, i as int);
                    assert(snap@.subrange(i as int, n as int)[0] == snap@[i as int]);
                }
                return Some(ppid);
            }
        }
        i = i + 1;
    }
    proof {
        lemma_parent_of_skip(snap@, pid, n as int);
    }
    None
}

/// Relies on sysinfo's process table: `System::refresh_processes` samples
/// it and `processes` hands out each process with its pid, executable name
/// and parent pid. The contents depend on the host at that instant, so
/// nothing is promised of them.
#[verifier::external_body]
pub(crate) fn live_snapshot() -> Vec<ProcessRecord> {
    let mut system = sysinfo::System::new();
    system.refresh_processes();
    system.processes().iter().map(
        |(pid, process)| ProcessRecord {
            pid: pid.as_u32(),
            name: process.name().to_string(),
            parent: process.parent().map(|p| p.as_u32()),
        },
    ).collect()
}

/// Relies on sysinfo::get_current_pid: the id of the calling process,
/// or `None` where the platform cannot report one.
#[verifier::external_body]
pub(crate) fn current_pid() -> Option<u32> {
    sysinfo::get_current_pid().ok().map(|pid| pid.as_u32())
}

} // verus!
