use oxidefetch::detect::{detect_from_snapshot, get_terminal};
use oxidefetch::present::present;
use oxidefetch::shortcuts::{match_shortcuts, DetectEnv, ShortcutOutcome};
use oxidefetch::snapshot::{lookup_name, lookup_parent, ProcessRecord};
use oxidefetch::walker::walk_ancestry;

fn env_unset() -> DetectEnv {
    DetectEnv {
        term_program: None,
        conemu_pid: None,
        wt_session: None,
        ssh_connection: None,
        tw52: None,
        tw100: None,
        shell: None,
    }
}

fn rec(pid: u32, name: &str, parent: Option<u32>) -> ProcessRecord {
    ProcessRecord {
        pid,
        name: name.to_string(),
        parent,
    }
}

// An empty snapshot stands for a process table that must not be needed:
// any walk against it fails at once, so a shortcut answer proves that no
// table lookup took part.

#[test]
fn shortcut_term_program_iterm() {
    let mut env = env_unset();
    env.term_program = Some("iTerm.app".to_string());
    let r = detect_from_snapshot(&env, &vec![], 0);
    assert_eq!(r, Some("iTerm2".to_string()));
}

#[test]
fn shortcut_term_program_apple_terminal() {
    let mut env = env_unset();
    env.term_program = Some("Terminal.app".to_string());
    let r = detect_from_snapshot(&env, &vec![], 0);
    assert_eq!(r, Some("Apple Terminal".to_string()));
}

#[test]
fn shortcut_term_program_hyper() {
    let mut env = env_unset();
    env.term_program = Some("Hyper.app".to_string());
    let r = detect_from_snapshot(&env, &vec![], 0);
    assert_eq!(r, Some("Hyper".to_string()));
}

#[test]
fn shortcut_conemu() {
    let mut env = env_unset();
    env.conemu_pid = Some("4242".to_string());
    let r = detect_from_snapshot(&env, &vec![], 0);
    assert_eq!(r, Some("ConEmu".to_string()));
}

#[test]
fn shortcut_windows_terminal() {
    let mut env = env_unset();
    env.wt_session = Some("some-guid".to_string());
    let r = detect_from_snapshot(&env, &vec![], 0);
    assert_eq!(r, Some("Windows Terminal".to_string()));
}

#[test]
fn shortcut_ssh() {
    let mut env = env_unset();
    env.ssh_connection = Some("10.0.0.5 22 10.0.0.9 22".to_string());
    let r = detect_from_snapshot(&env, &vec![], 0);
    assert_eq!(r, Some("SSH".to_string()));
}

#[test]
fn shortcut_tw52() {
    let mut env = env_unset();
    env.tw52 = Some("1".to_string());
    let r = detect_from_snapshot(&env, &vec![], 0);
    assert_eq!(r, Some("TosWin2".to_string()));
}

#[test]
fn shortcut_tw100() {
    let mut env = env_unset();
    env.tw100 = Some("1".to_string());
    let r = detect_from_snapshot(&env, &vec![], 0);
    assert_eq!(r, Some("TosWin2".to_string()));
}

#[test]
fn shortcut_priority_term_program_first() {
    let mut env = env_unset();
    env.term_program = Some("iTerm.app".to_string());
    env.conemu_pid = Some("7".to_string());
    env.wt_session = Some("x".to_string());
    let r = detect_from_snapshot(&env, &vec![], 0);
    assert_eq!(r, Some("iTerm2".to_string()));
}

#[test]
fn unrecognized_term_program_aborts_detection() {
    // The terminal-program variable being set is authoritative: an
    // unknown value yields no answer even though another shortcut
    // variable is set and a walkable tree exists.
    let mut env = env_unset();
    env.term_program = Some("mystery.app".to_string());
    env.conemu_pid = Some("7".to_string());
    env.shell = Some("/bin/bash".to_string());
    let snap = vec![
        rec(100, "fetch", Some(50)),
        rec(50, "bash", Some(10)),
        rec(10, "alacritty", Some(2)),
    ];
    let r = detect_from_snapshot(&env, &snap, 100);
    assert_eq!(r, None);
}

#[test]
fn match_shortcuts_outcomes() {
    assert!(matches!(match_shortcuts(&env_unset()), ShortcutOutcome::NoMatch));
    let mut env = env_unset();
    env.term_program = Some("mystery.app".to_string());
    assert!(matches!(match_shortcuts(&env), ShortcutOutcome::Unrecognized));
    env.term_program = Some("Hyper.app".to_string());
    match match_shortcuts(&env) {
        ShortcutOutcome::Matched(n) => assert_eq!(n, "Hyper"),
        _ => panic!("expected a match"),
    }
}

#[test]
fn walk_finds_shell_parent() {
    let mut env = env_unset();
    env.shell = Some("/bin/bash".to_string());
    let snap = vec![
        rec(100, "fetch", Some(50)),
        rec(50, "bash", Some(10)),
        rec(10, "alacritty", Some(2)),
    ];
    let r = detect_from_snapshot(&env, &snap, 100);
    assert_eq!(r, Some("Alacritty".to_string()));
}

#[test]
fn walk_skips_wrapper_and_maps_name() {
    let mut env = env_unset();
    env.shell = Some("/usr/bin/zsh".to_string());
    let snap = vec![
        rec(100, "fetch", Some(90)),
        rec(90, "supervise", Some(50)),
        rec(50, "zsh", Some(10)),
        rec(10, "kitty", Some(2)),
    ];
    let r = detect_from_snapshot(&env, &snap, 100);
    assert_eq!(r, Some("KiTTY".to_string()));
}

#[test]
fn walk_matches_shell_by_full_path() {
    let mut env = env_unset();
    env.shell = Some("/bin/bash".to_string());
    let snap = vec![
        rec(100, "fetch", Some(50)),
        rec(50, "/bin/bash", Some(10)),
        rec(10, "xterm", Some(2)),
    ];
    let r = detect_from_snapshot(&env, &snap, 100);
    assert_eq!(r, Some("XTerm".to_string()));
}

#[test]
fn walk_stops_at_root() {
    let mut env = env_unset();
    env.shell = Some("/bin/bash".to_string());
    let snap = vec![
        rec(100, "fetch", Some(90)),
        rec(90, "daemon-child", Some(1)),
        rec(50, "bash", Some(10)),
        rec(10, "alacritty", Some(2)),
    ];
    let r = detect_from_snapshot(&env, &snap, 100);
    assert_eq!(r, None);
}

#[test]
fn self_hosted_shell_is_the_terminal() {
    let mut env = env_unset();
    env.shell = Some("cmd".to_string());
    let snap = vec![
        rec(100, "fetch", Some(90)),
        rec(90, "cmd.exe", Some(80)),
        rec(80, "explorer.exe", Some(1)),
    ];
    // The walk stops at cmd.exe without consulting its parent, and the
    // presenter strips the extension and maps the name.
    let r = detect_from_snapshot(&env, &snap, 100);
    assert_eq!(r, Some("Command Prompt".to_string()));
}

#[test]
fn walk_ancestry_reports_self_hosting_flag() {
    let snap = vec![rec(100, "fetch", Some(90)), rec(90, "powershell.exe", Some(80))];
    let r = walk_ancestry(&snap, 100, &None);
    assert_eq!(r, Some(("powershell.exe".to_string(), true)));

    let snap2 = vec![
        rec(100, "fetch", Some(50)),
        rec(50, "bash", Some(10)),
        rec(10, "konsole", Some(2)),
    ];
    let r2 = walk_ancestry(&snap2, 100, &Some("/bin/bash".to_string()));
    assert_eq!(r2, Some(("konsole".to_string(), false)));
}

#[test]
fn walk_without_parent_record_finds_nothing() {
    let mut env = env_unset();
    env.shell = Some("/bin/bash".to_string());
    let snap = vec![rec(100, "fetch", None)];
    assert_eq!(detect_from_snapshot(&env, &snap, 100), None);
}

#[test]
fn walk_with_unnamed_parent_finds_nothing() {
    // The parent link leads to a pid with no record: the name lookup is
    // skipped without error, and the walk dies out one step later.
    let mut env = env_unset();
    env.shell = Some("/bin/bash".to_string());
    let snap = vec![rec(100, "fetch", Some(90))];
    assert_eq!(detect_from_snapshot(&env, &snap, 100), None);
}

#[test]
fn shell_without_host_finds_nothing() {
    // The shell is found but carries no parent link: the host terminal
    // cannot be identified.
    let mut env = env_unset();
    env.shell = Some("/bin/bash".to_string());
    let snap = vec![rec(100, "fetch", Some(50)), rec(50, "bash", None)];
    assert_eq!(detect_from_snapshot(&env, &snap, 100), None);
}

#[test]
fn unset_shell_matches_no_real_name() {
    let mut env = env_unset();
    env.shell = None;
    let snap = vec![
        rec(100, "fetch", Some(50)),
        rec(50, "bash", Some(10)),
        rec(10, "kitty", Some(2)),
    ];
    assert_eq!(detect_from_snapshot(&env, &snap, 100), None);
}

#[test]
fn walk_gives_up_past_hop_bound() {
    // A chain of 70 anonymous wrappers before the shell: the bounded walk
    // spends its 64 hops and returns nothing.
    let mut env = env_unset();
    env.shell = Some("/bin/bash".to_string());
    let mut snap = vec![rec(1000, "fetch", Some(999))];
    for i in 0..70u32 {
        snap.push(rec(999 - i, &format!("wrap{}", i), Some(998 - i)));
    }
    snap.push(rec(929, "bash", Some(900)));
    snap.push(rec(900, "alacritty", Some(2)));
    assert_eq!(detect_from_snapshot(&env, &snap, 1000), None);
}

#[test]
fn walk_within_hop_bound_still_finds_shell() {
    let mut env = env_unset();
    env.shell = Some("/bin/bash".to_string());
    let mut snap = vec![rec(1000, "fetch", Some(999))];
    for i in 0..30u32 {
        snap.push(rec(999 - i, &format!("wrap{}", i), Some(998 - i)));
    }
    snap.push(rec(969, "bash", Some(900)));
    snap.push(rec(900, "gnome-terminal", Some(2)));
    assert_eq!(
        detect_from_snapshot(&env, &snap, 1000),
        Some("GNOME Terminal".to_string())
    );
}

#[test]
fn detection_is_idempotent_on_unchanged_inputs() {
    let mut env = env_unset();
    env.shell = Some("/bin/bash".to_string());
    let snap = vec![
        rec(100, "fetch", Some(50)),
        rec(50, "bash", Some(10)),
        rec(10, "xfce4-terminal", Some(2)),
    ];
    let first = detect_from_snapshot(&env, &snap, 100);
    let second = detect_from_snapshot(&env, &snap, 100);
    assert_eq!(first, second);
    assert_eq!(first, Some("XFCE Terminal".to_string()));

    let mut env2 = env_unset();
    env2.term_program = Some("iTerm.app".to_string());
    assert_eq!(get_terminal(&env2), get_terminal(&env2));
}

#[test]
fn presenter_truncates_then_maps() {
    assert_eq!(present("xterm.bin"), "XTerm");
    assert_eq!(present("some-unknown-term"), "some-unknown-term");
}

#[test]
fn presenter_table_entries() {
    assert_eq!(present("cmd"), "Command Prompt");
    assert_eq!(present("powershell"), "PowerShell");
    assert_eq!(present("konsole"), "Konsole");
    assert_eq!(present("gnome-terminal"), "GNOME Terminal");
    assert_eq!(present("xterm"), "XTerm");
    assert_eq!(present("xfce4-terminal"), "XFCE Terminal");
    assert_eq!(present("kitty"), "KiTTY");
    assert_eq!(present("alacritty"), "Alacritty");
}

#[test]
fn presenter_strips_at_first_dot() {
    assert_eq!(present("cmd.exe"), "Command Prompt");
    assert_eq!(present("term.0.2.bin"), "term");
    assert_eq!(present(""), "");
    // The lookup is case-sensitive: a differently-cased name passes
    // through unmapped.
    assert_eq!(present("Kitty"), "Kitty");
}

#[test]
fn lookups_take_the_first_matching_record() {
    let snap = vec![
        rec(5, "first", None),
        rec(5, "second", Some(9)),
        rec(7, "other", Some(1)),
    ];
    assert_eq!(lookup_name(&snap, 5), Some("first".to_string()));
    assert_eq!(lookup_parent(&snap, 5), Some(9));
    assert_eq!(lookup_name(&snap, 6), None);
    assert_eq!(lookup_parent(&snap, 7), Some(1));
    assert_eq!(lookup_parent(&snap, 6), None);
}

#[test]
fn live_detection_runs() {
    // Against the real process table: whatever the answer, the detector
    // must return rather than fail.
    let _ = get_terminal(&env_unset());
}
