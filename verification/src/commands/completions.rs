//! `completions --install`: where completion scripts go and what the user
//! is told afterwards.
use crate::text::{concat2, owned, strings_view};
use vstd::prelude::*;

verus! {

/// The shells that completions can be generated for.
#[derive(Debug, Clone, Copy, PartialEq, Eq)]
pub enum ShellKind {
    Bash,
    Elvish,
    Fish,
    PowerShell,
    Zsh,
}

/// Where an installed completion script goes.
#[derive(Debug)]
pub enum InstallTarget {
    /// Write the script to this file.
    File(String),
    /// The shell has no standard completions directory: say so and stop.
    NoStandardDirectory,
    /// No install path is known: print the script instead.
    PrintInstead,
}

/// The install location of each shell, under the home directory `home`.
pub open spec fn install_target(shell: ShellKind, home: Seq<char>) -> Option<Seq<char>> {
    match shell {
        ShellKind::Bash => Some(home + "/.bash_completion.d/loco"@),
        ShellKind::Zsh => Some(home + "/.zfunc/_loco"@),
        ShellKind::Fish => Some(home + "/.config/fish/completions/loco.fish"@),
        _ => None,
    }
}

/// The home directory: `$HOME` when set, else `~`.
pub open spec fn home_dir(home: Option<Seq<char>>) -> Seq<char> {
    match home {
        Some(h) => h,
        None => "~"@,
    }
}

/// Chooses where to install the completion script of `shell`; `home` is the
/// value of `$HOME`, if set.
pub fn completion_target(shell: ShellKind, home: Option<String>) -> (t: InstallTarget)
    ensures
        match install_target(shell, home_dir(crate::text::opt_view(home))) {
            Some(p) => t matches InstallTarget::File(f) && f@ == p,
            None => if shell == ShellKind::PowerShell {
                t is NoStandardDirectory
            } else {
                t is PrintInstead
            },
        },
{
    let h = match home {
        Some(h) => h,
        None => owned("~"),
    };
    match shell {
        ShellKind::Bash => InstallTarget::File(concat2(h.as_str(), "/.bash_completion.d/loco")),
        ShellKind::Zsh => InstallTarget::File(concat2(h.as_str(), "/.zfunc/_loco")),
        ShellKind::Fish => InstallTarget::File(
            concat2(h.as_str(), "/.config/fish/completions/loco.fish"),
        ),
        ShellKind::PowerShell => InstallTarget::NoStandardDirectory,
        ShellKind::Elvish => InstallTarget::PrintInstead,
    }
}

/// What the user is told to add to the shell's startup file after an install.
pub open spec fn install_hints(shell: ShellKind) -> Seq<Seq<char>> {
    match shell {
        ShellKind::Zsh => seq![
            "Ensure ~/.zfunc is in your fpath. Add to ~/.zshrc:"@,
            "  fpath=(~/.zfunc $fpath)"@,
            "  autoload -Uz compinit && compinit"@,
        ],
        ShellKind::Bash => seq![
            "Ensure ~/.bash_completion.d is sourced. Add to ~/.bashrc:"@,
            "  for f in ~/.bash_completion.d/*; do source \"$f\"; done"@,
        ],
        _ => Seq::empty(),
    }
}

/// The hint lines shown after installing the completions of `shell`.
pub fn install_hint_lines(shell: ShellKind) -> (lines: Vec<String>)
    ensures
        strings_view(lines@) == install_hints(shell),
{
    let mut lines: Vec<String> = Vec::new();
    match shell {
        ShellKind::Zsh => {
            lines.push(owned("Ensure ~/.zfunc is in your fpath. Add to ~/.zshrc:"));
            lines.push(owned("  fpath=(~/.zfunc $fpath)"));
            lines.push(owned("  autoload -Uz compinit && compinit"));
        },
        ShellKind::Bash => {
            lines.push(owned("Ensure ~/.bash_completion.d is sourced. Add to ~/.bashrc:"));
            lines.push(owned("  for f in ~/.bash_completion.d/*; do source \"$f\"; done"));
        },
        _ => {},
    }
    assert(strings_view(lines@) =~= install_hints(shell));
    lines
}

/// Completion scripts go under the home directory: bash to
/// `.bash_completion.d/loco`, zsh to `.zfunc/_loco`, fish to
/// `.config/fish/completions/loco.fish`; the other shells have no install
/// path. Without `$HOME` the home directory is `~`.
pub proof fn law_install_locations(home: Option<Seq<char>>, h: Seq<char>)
    ensures
        install_target(ShellKind::Bash, h) == Some(h + "/.bash_completion.d/loco"@),
        install_target(ShellKind::Zsh, h) == Some(h + "/.zfunc/_loco"@),
        install_target(ShellKind::Fish, h) == Some(h + "/.config/fish/completions/loco.fish"@),
        install_target(ShellKind::PowerShell, h) is None,
        install_target(ShellKind::Elvish, h) is None,
        home matches Some(x) ==> home_dir(home) == x,
        home is None ==> home_dir(home) == "~"@,
{
}

} // verus!
