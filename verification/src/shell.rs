//! Choice of the interactive shell that a new session launches.

use vstd::prelude::*;
use vstd::string::*;

verus! {

/// The family of the host operating system, as far as the choice of a shell
/// depends on it.
#[derive(Clone, Copy, Debug, PartialEq, Eq, Structural)]
pub enum HostOs {
    /// A Windows host.
    Windows,
    /// Any other host.
    Other,
}

/// The shell launched on a Windows host.
pub const WINDOWS_SHELL: &'static str = "powershell.exe";

/// The shell launched elsewhere when the environment names none.
pub const FALLBACK_SHELL: &'static str = "/bin/zsh";

/// The shell for a host of family `os` whose environment holds `shell_var` in
/// `SHELL` (`None` when the variable is unset or not text): the fixed Windows
/// shell on Windows; elsewhere the variable's value, or the fallback without it.
pub open spec fn spec_resolve_shell(os: HostOs, shell_var: Option<Seq<char>>) -> Seq<char> {
    match os {
        HostOs::Windows => WINDOWS_SHELL@,
        HostOs::Other => match shell_var {
            Some(shell) => shell,
            None => FALLBACK_SHELL@,
        },
    }
}

/// The views of an optional text.
pub open spec fn text_of(text: Option<&str>) -> Option<Seq<char>> {
    match text {
        Some(t) => Some(t@),
        None => None,
    }
}

/// Chooses the executable to launch as the interactive shell. It always
/// yields a value; the variable's value is taken as it is, even when empty.
pub fn resolve_shell(os: HostOs, shell_var: Option<&str>) -> (shell: String)
    ensures
        shell@ == spec_resolve_shell(os, text_of(shell_var)),
{
    match os {
        HostOs::Windows => String::from_str(WINDOWS_SHELL),
        HostOs::Other => match shell_var {
            Some(shell) => String::from_str(shell),
            None => String::from_str(FALLBACK_SHELL),
        },
    }
}

} // verus!
