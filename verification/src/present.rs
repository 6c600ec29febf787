//! The name presenter: strips a file extension from a raw executable name
//! and substitutes a curated human-readable name when one is known.

use crate::text::{before_first, before_first_char, str_eq};
use vstd::prelude::*;

verus! {

/// Whether a truncated executable name has an entry in the fixed table of
/// human-readable names.
pub open spec fn has_pretty_name(s: Seq<char>) -> bool {
    s == "cmd"@ || s == "powershell"@ || s == "konsole"@ || s == "gnome-terminal"@ || s == "xterm"@
        || s == "xfce4-terminal"@ || s == "kitty"@ || s == "alacritty"@
}

/// The human-readable name for a truncated executable name: the entry of
/// the fixed table when one exists, the name itself otherwise. The lookup
/// is case-sensitive.
pub open spec fn pretty_name(s: Seq<char>) -> Seq<char> {
    if s == "cmd"@ {
        "Command Prompt"@
    } else if s == "powershell"@ {
        "PowerShell"@
    } else if s == "konsole"@ {
        "Konsole"@
    } else if s == "gnome-terminal"@ {
        "GNOME Terminal"@
    } else if s == "xterm"@ {
        "XTerm"@
    } else if s == "xfce4-terminal"@ {
        "XFCE Terminal"@
    } else if s == "kitty"@ {
        "KiTTY"@
    } else if s == "alacritty"@ {
        "Alacritty"@
    } else {
        s
    }
}

/// What the presenter returns for a raw executable name: the name
/// truncated at its first `.`, passed through the pretty-name table.
/// Truncating at the first `.` rather than the last is kept for
/// compatibility: a binary name with an embedded `.` loses everything
/// after it.
pub open spec fn present_spec(raw: Seq<char>) -> Seq<char> {
    pretty_name(before_first(raw, '.'))
}

/// A name without an entry in the table passes through the presenter with
/// only its extension stripped.
pub proof fn lemma_present_unknown(raw: Seq<char>)
    requires
        !has_pretty_name(before_first(raw, '.')),
    ensures
        present_spec(raw) == before_first(raw, '.'),
{
}

/// Truncates `raw` at its first `.` and substitutes the human-readable
/// name when the table knows the truncated name.
pub fn present(raw: &str) -> (r: String)
    ensures
        r@ == present_spec(raw@),
{
    let t = before_first_char(raw, '.');
    if str_eq(t, "cmd") {
        "Command Prompt".to_owned()
    } else if str_eq(t, "powershell") {
        "PowerShell".to_owned()
    } else if str_eq(t, "konsole") {
        "Konsole".to_owned()
    } else if str_eq(t, "gnome-terminal") {
        "GNOME Terminal".to_owned()
    } else if str_eq(t, "xterm") {
        "XTerm".to_owned()
    } else if str_eq(t, "xfce4-terminal") {
        "XFCE Terminal".to_owned()
    } else if str_eq(t, "kitty") {
        "KiTTY".to_owned()
    } else if str_eq(t, "alacritty") {
        "Alacritty".to_owned()
    } else {
        t.to_owned()
    }
}

} // verus!
