//! The detector: the shortcut matcher decides first and short-circuits;
//! only on a full negative does the ancestry walk run, and its raw result
//! goes through the name presenter.

use crate::present::{present, present_spec};
use crate::shortcuts::{match_shortcuts, shortcut_decided, shortcut_name, DetectEnv, EnvView,
    ShortcutOutcome};
use crate::snapshot::{current_pid, live_snapshot, ProcessRecord};
use crate::text::opt_chars;
use crate::walker::{raw_candidate, walk_ancestry};
use vstd::prelude::*;

verus! {

/// The display name of the detected terminal for environment `e`,
/// snapshot `s` and starting pid `self_pid`: the shortcut name whenever a
/// shortcut variable is set, and otherwise the presenter's output for the
/// ancestry walk's raw candidate.
pub open spec fn detect_spec(e: EnvView, s: Seq<ProcessRecord>, self_pid: u32) -> Option<
    Seq<char>,
> {
    if shortcut_decided(e) {
        shortcut_name(e)
    } else {
        match raw_candidate(s, self_pid, e.shell) {
            Some((raw, _self_hosted)) => Some(present_spec(raw)),
            None => None,
        }
    }
}

/// Runs the detector against a given snapshot: the shortcut matcher
/// first, then the ancestry walk and the presenter. The snapshot is an
/// argument so that the result is a function of plain values; feeding a
/// synthetic snapshot exercises every path deterministically.
pub fn detect_from_snapshot(env: &DetectEnv, snap: &Vec<ProcessRecord>, self_pid: u32) -> (r:
    Option<String>)
    ensures
        opt_chars(r) == detect_spec(env@, snap@, self_pid),
{
    match match_shortcuts(env) {
        ShortcutOutcome::Matched(name) => Some(name),
        ShortcutOutcome::Unrecognized => None,
        ShortcutOutcome::NoMatch => {
            match walk_ancestry(snap, self_pid, &env.shell) {
                Some((raw, _self_hosted)) => Some(present(raw.as_str())),
                None => None,
            }
        },
    }
}

/// Detects the terminal hosting this process. The shortcut variables in
/// `env` decide first, without any process-table query; only when none is
/// set are the current pid and a fresh snapshot of the live process table
/// taken and the ancestry walked. Returns `None` whenever the signals run
/// out: this detector is exact or silent.
pub fn get_terminal(env: &DetectEnv) -> (r: Option<String>)
    ensures
        shortcut_decided(env@) ==> opt_chars(r) == shortcut_name(env@),
        exists|s: Seq<ProcessRecord>, p: u32| opt_chars(r) == detect_spec(env@, s, p),
{
    let r = match match_shortcuts(env) {
        ShortcutOutcome::Matched(name) => Some(name),
        ShortcutOutcome::Unrecognized => None,
        ShortcutOutcome::NoMatch => {
            match current_pid() {
                None => None,
                Some(pid) => {
                    let snap = live_snapshot();
                    let out = detect_from_snapshot(env, &snap, pid);
                    proof {
                        assert(opt_chars(out) == detect_spec(env@, snap@, pid));
                    }
                    out
                },
            }
        },
    };
    proof {
        if shortcut_decided(env@) {
            assert(opt_chars(r) == detect_spec(env@, Seq::<ProcessRecord>::empty(), 0u32));
        } else if r is None {
            lemma_detect_empty_snapshot(env@);
            assert(opt_chars(r) == detect_spec(env@, Seq::<ProcessRecord>::empty(), 0u32));
        }
    }
    r
}

/// Against an empty snapshot the walk is exhausted at once, so an
/// undecided environment detects nothing.
proof fn lemma_detect_empty_snapshot(e: EnvView)
    requires
        !shortcut_decided(e),
    ensures
        detect_spec(e, Seq::<ProcessRecord>::empty(), 0u32) is None,
{
    let s = Seq::<ProcessRecord>::empty();
    assert(crate::snapshot::parent_of(s, 0u32) is None);
    assert(raw_candidate(s, 0u32, e.shell) is None);
}

/// A set shortcut variable decides the result by itself: the process
/// snapshot and the starting pid play no part in it.
pub proof fn lemma_shortcut_overrides_walk(
    e: EnvView,
    s1: Seq<ProcessRecord>,
    p1: u32,
    s2: Seq<ProcessRecord>,
    p2: u32,
)
    requires
        shortcut_decided(e),
    ensures
        detect_spec(e, s1, p1) == detect_spec(e, s2, p2),
{
}

/// Detection is a function of its inputs alone: equal environments,
/// snapshots and starting pids give equal results, so two successive runs
/// against an unchanged host agree.
pub proof fn lemma_detect_deterministic(
    e1: EnvView,
    s1: Seq<ProcessRecord>,
    p1: u32,
    e2: EnvView,
    s2: Seq<ProcessRecord>,
    p2: u32,
)
    requires
        e1 == e2,
        s1 == s2,
        p1 == p2,
    ensures
        detect_spec(e1, s1, p1) == detect_spec(e2, s2, p2),
{
}

} // verus!
