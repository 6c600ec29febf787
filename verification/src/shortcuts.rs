//! The environment-variable fast path: a small ordered set of variables
//! that identify a known terminal emulator or a remote session without
//! touching the process table.

use crate::text::str_eq;
use vstd::prelude::*;

verus! {

/// The environment variables the detector reads, each `None` when unset.
/// `shell` is the shell-path variable used by the ancestry walk; the six
/// others are the shortcut variables.
pub struct DetectEnv {
    pub term_program: Option<String>,
    pub conemu_pid: Option<String>,
    pub wt_session: Option<String>,
    pub ssh_connection: Option<String>,
    pub tw52: Option<String>,
    pub tw100: Option<String>,
    pub shell: Option<String>,
}

/// The mathematical view of [`DetectEnv`]: each variable as an optional
/// character sequence.
pub struct EnvView {
    pub term_program: Option<Seq<char>>,
    pub conemu_pid: Option<Seq<char>>,
    pub wt_session: Option<Seq<char>>,
    pub ssh_connection: Option<Seq<char>>,
    pub tw52: Option<Seq<char>>,
    pub tw100: Option<Seq<char>>,
    pub shell: Option<Seq<char>>,
}

impl View for DetectEnv {
    type V = EnvView;

    open spec fn view(&self) -> EnvView {
        EnvView {
            term_program: crate::text::opt_chars(self.term_program),
            conemu_pid: crate::text::opt_chars(self.conemu_pid),
            wt_session: crate::text::opt_chars(self.wt_session),
            ssh_connection: crate::text::opt_chars(self.ssh_connection),
            tw52: crate::text::opt_chars(self.tw52),
            tw100: crate::text::opt_chars(self.tw100),
            shell: crate::text::opt_chars(self.shell),
        }
    }
}

/// Whether the shortcut variables decide the outcome by themselves: true
/// exactly when at least one of the six is set. The terminal-program
/// variable decides even when its value is unrecognized, since its being
/// set at all is authoritative.
pub open spec fn shortcut_decided(e: EnvView) -> bool {
    e.term_program is Some || e.conemu_pid is Some || e.wt_session is Some
        || e.ssh_connection is Some || e.tw52 is Some || e.tw100 is Some
}

/// The display name the shortcut variables select, in priority order, or
/// `None` when none is set or the terminal-program value is unrecognized.
pub open spec fn shortcut_name(e: EnvView) -> Option<Seq<char>> {
    match e.term_program {
        Some(v) => {
            if v == "iTerm.app"@ {
                Some("iTerm2"@)
            } else if v == "Terminal.app"@ {
                Some("Apple Terminal"@)
            } else if v == "Hyper.app"@ {
                Some("Hyper"@)
            } else {
                None
            }
        },
        None => {
            if e.conemu_pid is Some {
                Some("ConEmu"@)
            } else if e.wt_session is Some {
                Some("Windows Terminal"@)
            } else if e.ssh_connection is Some {
                Some("SSH"@)
            } else if e.tw52 is Some || e.tw100 is Some {
                Some("TosWin2"@)
            } else {
                None
            }
        },
    }
}

/// What the shortcut variables decided.
pub enum ShortcutOutcome {
    /// A shortcut variable identified the terminal by this display name.
    Matched(String),
    /// The terminal-program variable was set to an unrecognized value:
    /// detection ends with no answer.
    Unrecognized,
    /// No shortcut variable was set: the process ancestry decides.
    NoMatch,
}

/// Inspects the shortcut variables in priority order and stops at the
/// first that is set.
pub fn match_shortcuts(env: &DetectEnv) -> (r: ShortcutOutcome)
    ensures
        (r matches ShortcutOutcome::Matched(n) ==> shortcut_decided(env@) && shortcut_name(env@)
            == Some(n@)),
        r is Unrecognized ==> shortcut_decided(env@) && shortcut_name(env@) is None,
        r is NoMatch ==> !shortcut_decided(env@),
{
    if let Some(v) = &env.term_program {
        if str_eq(v.as_str(), "iTerm.app") {
            ShortcutOutcome::Matched("iTerm2".to_owned())
        } else if str_eq(v.as_str(), "Terminal.app") {
            ShortcutOutcome::Matched("Apple Terminal".to_owned())
        } else if str_eq(v.as_str(), "Hyper.app") {
            ShortcutOutcome::Matched("Hyper".to_owned())
        } else {
            ShortcutOutcome::Unrecognized
        }
    } else if env.conemu_pid.is_some() {
        ShortcutOutcome::Matched("ConEmu".to_owned())
    } else if env.wt_session.is_some() {
        ShortcutOutcome::Matched("Windows Terminal".to_owned())
    } else if env.ssh_connection.is_some() {
        ShortcutOutcome::Matched("SSH".to_owned())
    } else if env.tw52.is_some() || env.tw100.is_some() {
        ShortcutOutcome::Matched("TosWin2".to_owned())
    } else {
        ShortcutOutcome::NoMatch
    }
}

} // verus!
