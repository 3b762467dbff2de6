//! Which messages are shown, and when a destructive command may go ahead.
use vstd::prelude::*;

verus! {

/// The kinds of message a command prints.
#[derive(Debug, Clone, Copy, PartialEq, Eq)]
pub enum MessageKind {
    Success,
    Error,
    Info,
    Warn,
    Verbose,
}

/// The output switches of a run: `--json`, `--quiet` and `--verbose`.
#[derive(Debug, Clone, Copy)]
pub struct OutputMode {
    pub json_mode: bool,
    pub quiet: bool,
    pub verbose: bool,
}

/// Whether a message of `kind` is shown: errors always; success, info and
/// warnings unless quiet; verbose messages only when verbose.
pub open spec fn message_shown(mode: OutputMode, kind: MessageKind) -> bool {
    match kind {
        MessageKind::Error => true,
        MessageKind::Verbose => mode.verbose,
        _ => !mode.quiet,
    }
}

impl OutputMode {
    /// Decides whether a message of `kind` is printed.
    pub fn shows(&self, kind: MessageKind) -> (res: bool)
        ensures
            res == message_shown(*self, kind),
    {
        match kind {
            MessageKind::Error => true,
            MessageKind::Verbose => self.verbose,
            _ => !self.quiet,
        }
    }

    /// Whether an error is written as a JSON document on standard output
    /// rather than as a line on standard error.
    pub fn error_as_json(&self) -> (res: bool)
        ensures
            res == self.json_mode,
    {
        self.json_mode
    }
}

/// How a request for confirmation is answered.
#[derive(Debug, Clone, Copy, PartialEq, Eq)]
pub enum ConfirmStep {
    /// Go ahead without asking.
    Proceed,
    /// Refuse: nobody can be asked (not a terminal) and `--force` was not given.
    Refuse,
    /// Ask the user.
    Ask,
}

/// Message shown when confirmation is refused in a non-interactive session.
pub const NEED_FORCE_MESSAGE: &'static str = "Use --force (-y) to skip confirmation in non-interactive mode";

/// Decides how to confirm a destructive command: `--force` always goes
/// ahead; otherwise the user is asked on a terminal, and the command is
/// refused elsewhere.
pub fn confirm_step(force: bool, interactive: bool) -> (step: ConfirmStep)
    ensures
        force ==> step == ConfirmStep::Proceed,
        !force && interactive ==> step == ConfirmStep::Ask,
        !force && !interactive ==> step == ConfirmStep::Refuse,
{
    if force {
        ConfirmStep::Proceed
    } else if interactive {
        ConfirmStep::Ask
    } else {
        ConfirmStep::Refuse
    }
}

/// Quiet output never hides errors, and never hides anything else either
/// unless quiet (verbose messages aside).
pub proof fn law_quiet_keeps_errors(mode: OutputMode)
    ensures
        message_shown(mode, MessageKind::Error),
        mode.quiet ==> !message_shown(mode, MessageKind::Success) && !message_shown(
            mode,
            MessageKind::Info,
        ) && !message_shown(mode, MessageKind::Warn),
{
}

/// A verbose message is shown exactly when the verbose switch is on,
/// whatever `--quiet` and `--json` say; an error is always shown; any other
/// message is shown exactly when the run is not quiet.
pub proof fn law_message_visibility(mode: OutputMode, kind: MessageKind)
    ensures
        kind == MessageKind::Verbose ==> (message_shown(mode, kind) <==> mode.verbose),
        kind == MessageKind::Error ==> message_shown(mode, kind),
        kind != MessageKind::Verbose && kind != MessageKind::Error ==> (message_shown(mode, kind)
            <==> !mode.quiet),
{
}

/// Turning `--verbose` off hides verbose messages and changes nothing else;
/// `--quiet` and `--json` never decide whether a verbose message is shown.
pub proof fn law_verbose_switch(a: OutputMode, b: OutputMode, kind: MessageKind)
    ensures
        !a.verbose ==> !message_shown(a, MessageKind::Verbose),
        a.verbose == b.verbose ==> message_shown(a, MessageKind::Verbose) == message_shown(
            b,
            MessageKind::Verbose,
        ),
        a.quiet == b.quiet && kind != MessageKind::Verbose ==> message_shown(a, kind)
            == message_shown(b, kind),
{
}

} // verus!
