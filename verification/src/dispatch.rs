//! Choosing how each pipeline stage runs, and the shell's signal policy.

use crate::status::STATUS_NOT_FOUND;
use vstd::prelude::*;

verus! {

/// How a stage is executed.
#[derive(Clone, Copy, PartialEq, Eq, Structural, Debug)]
pub enum Dispatch {
    /// A builtin that is the sole stage of its pipeline: run inside the
    /// shell process, so it may mutate shell-visible state.
    BuiltinInShell,
    /// A builtin within a multi-stage pipeline: run in a forked child, so
    /// its streams can be redirected without disturbing the shell's own.
    BuiltinInChild,
    /// An external program that resolved on the search path: fork and
    /// exec it.
    External,
    /// An external name that did not resolve: no child is spawned and the
    /// stage's status is fixed.
    NotFound,
}

/// The dispatch decision for one stage of a pipeline of `n_stages`.
pub open spec fn dispatch_spec(is_builtin: bool, resolved: bool, n_stages: nat) -> Dispatch {
    if is_builtin {
        if n_stages == 1 {
            Dispatch::BuiltinInShell
        } else {
            Dispatch::BuiltinInChild
        }
    } else {
        if resolved {
            Dispatch::External
        } else {
            Dispatch::NotFound
        }
    }
}

/// Decides how a stage runs: builtins stay in the shell process only when
/// they are the sole stage; external names must have resolved on the
/// search path to be worth forking for.
pub fn dispatch_stage(is_builtin: bool, resolved: bool, n_stages: usize) -> (d: Dispatch)
    requires
        n_stages >= 1,
    ensures
        d == dispatch_spec(is_builtin, resolved, n_stages as nat),
{
    if is_builtin {
        if n_stages == 1 {
            Dispatch::BuiltinInShell
        } else {
            Dispatch::BuiltinInChild
        }
    } else {
        if resolved {
            Dispatch::External
        } else {
            Dispatch::NotFound
        }
    }
}

/// The status of a stage that never runs: an unresolved external name
/// reports 127; every other dispatch goes on to run.
pub fn skipped_status(d: &Dispatch) -> (r: Option<u32>)
    ensures
        r == (if *d is NotFound {
            Some(STATUS_NOT_FOUND)
        } else {
            None::<u32>
        }),
{
    match d {
        Dispatch::NotFound => Some(STATUS_NOT_FOUND),
        _ => None,
    }
}

/// The job-control signals whose disposition the policy fixes.
#[derive(Clone, Copy, PartialEq, Eq, Structural, Debug)]
pub enum JobSignal {
    /// Keyboard interrupt.
    Interrupt,
    /// Keyboard quit.
    Quit,
    /// Terminal stop — suspends a foreground process.
    TerminalStop,
    /// Background process reading from the terminal.
    BackgroundRead,
    /// Background process writing to the terminal.
    BackgroundWrite,
}

/// A signal disposition a process installs.
#[derive(Clone, Copy, PartialEq, Eq, Structural, Debug)]
pub enum Disposition {
    Ignore,
    Default,
}

/// The shell's own disposition for every job-control signal: ignore it,
/// so the shell is neither stopped nor killed by signals meant for the
/// foreground command.  An uncatchable termination signal still ends it.
pub fn shell_disposition(s: JobSignal) -> (d: Disposition)
    ensures
        d is Ignore,
{
    Disposition::Ignore
}

/// The disposition a forked child restores before running its command:
/// the default, so children remain stoppable and interruptible even
/// though they inherit the shell's ignoring disposition at fork.
pub fn child_disposition(s: JobSignal) -> (d: Disposition)
    ensures
        d is Default,
{
    Disposition::Default
}

} // verus!
