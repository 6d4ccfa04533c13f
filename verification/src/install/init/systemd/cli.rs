//! Asking systemd through its command line program, `systemctl`: what the
//! program is run with, what its results mean, and how long to wait for a
//! unit.

use vstd::prelude::*;
use vstd::string::*;
use crate::install::Mode;
use crate::install::init::systemd::{SystemCtlError, UnitAction};
use crate::text::texts;

verus! {

/// The milliseconds that a unit is given to become as wished.
pub const WAIT_LIMIT_MS: u64 = 1000;

/// The milliseconds between two looks at a unit.
pub const WAIT_STEP_MS: u64 = 50;

/// What to do next while waiting for a unit.
#[derive(Debug, Clone, PartialEq, Eq)]
pub enum WaitDecision {
    /// The unit is as wished.
    Done,
    /// Look again after this many milliseconds.
    Sleep(u64),
    /// Give up with this error.
    Fail(SystemCtlError),
}

/// The word that tells `systemctl` what to do, for the actions that it
/// does itself; waiting is done by asking `is-active` again and again.
pub open spec fn verb_text(action: UnitAction) -> Seq<char> {
    match action {
        UnitAction::Enable(_) => "enable"@,
        UnitAction::Disable(_) => "disable"@,
        UnitAction::Start(_) => "start"@,
        UnitAction::Stop(_) => "stop"@,
        UnitAction::Restart(_) => "restart"@,
        UnitAction::WaitForActive(_) | UnitAction::WaitForInactive(_) => "is-active"@,
    }
}

/// The unit that the action is about.
pub open spec fn unit_text(action: UnitAction) -> Seq<char> {
    match action {
        UnitAction::Enable(unit) => unit@,
        UnitAction::Disable(unit) => unit@,
        UnitAction::Start(unit) => unit@,
        UnitAction::Stop(unit) => unit@,
        UnitAction::Restart(unit) => unit@,
        UnitAction::WaitForActive(unit) => unit@,
        UnitAction::WaitForInactive(unit) => unit@,
    }
}

/// What `systemctl` is run with for `action`: `--user` for the service
/// manager of the user, the verb, and the unit.
pub open spec fn arguments_text(action: UnitAction, mode: Mode) -> Seq<Seq<char>> {
    match mode {
        Mode::User => seq!["--user"@, verb_text(action), unit_text(action)],
        Mode::System => seq![verb_text(action), unit_text(action)],
    }
}

/// The arguments that `systemctl` is run with for `action`.
pub fn arguments(action: &UnitAction, mode: Mode) -> (args: Vec<String>)
    ensures
        texts(args@) == arguments_text(*action, mode),
{
    let (verb, unit) = match action {
        UnitAction::Enable(unit) => ("enable", unit),
        UnitAction::Disable(unit) => ("disable", unit),
        UnitAction::Start(unit) => ("start", unit),
        UnitAction::Stop(unit) => ("stop", unit),
        UnitAction::Restart(unit) => ("restart", unit),
        UnitAction::WaitForActive(unit) => ("is-active", unit),
        UnitAction::WaitForInactive(unit) => ("is-active", unit),
    };
    let mut args: Vec<String> = Vec::new();
    if let Mode::User = mode {
        args.push(String::from_str("--user"));
    }
    args.push(String::from_str(verb));
    args.push(unit.clone());
    assert(texts(args@) =~= arguments_text(*action, mode));
    args
}

/// What running `systemctl` came to: done where it succeeded, else
/// `Failed` with what it wrote to its error output.
pub fn systemctl(success: bool, stderr: String) -> (done: Result<(), SystemCtlError>)
    ensures
        match done {
            Ok(()) => success,
            Err(e) => !success && e == (SystemCtlError::Failed { reason: stderr }),
        },
{
    if success {
        Ok(())
    } else {
        Err(SystemCtlError::Failed { reason: stderr })
    }
}

/// Whether the unit is active, from the exit code of `systemctl
/// is-active`: zero says that it is. Without an exit code a signal has
/// ended the program.
pub fn is_active(code: Option<i32>) -> (active: Result<bool, SystemCtlError>)
    ensures
        active == (match code {
            Some(c) => Ok::<bool, SystemCtlError>(c == 0),
            None => Err::<bool, SystemCtlError>(SystemCtlError::Terminated),
        }),
{
    match code {
        Some(c) => Ok(c == 0),
        None => Err(SystemCtlError::Terminated),
    }
}

/// Decides how waiting for a unit goes on.
///
/// `elapsed_ms` is how long the wait has lasted, `wanted` whether the unit
/// is to become active or inactive, and `active` whether it is active now,
/// or why that could not be found out. After `WAIT_LIMIT_MS` the wait has
/// failed with `timeout_error`. Before, a unit that cannot be asked ends the
/// wait with that error, one that is as wished ends it well, and any other
/// is looked at again after `WAIT_STEP_MS`.
pub fn wait_for(
    elapsed_ms: u64,
    wanted: bool,
    active: Result<bool, SystemCtlError>,
    timeout_error: SystemCtlError,
) -> (next: WaitDecision)
    ensures
        next == (if elapsed_ms >= WAIT_LIMIT_MS {
            WaitDecision::Fail(timeout_error)
        } else {
            match active {
                Err(e) => WaitDecision::Fail(e),
                Ok(now) => if now == wanted {
                    WaitDecision::Done
                } else {
                    WaitDecision::Sleep(WAIT_STEP_MS)
                },
            }
        }),
{
    if elapsed_ms >= WAIT_LIMIT_MS {
        return WaitDecision::Fail(timeout_error);
    }
    match active {
        Err(e) => WaitDecision::Fail(e),
        Ok(now) => if now == wanted {
            WaitDecision::Done
        } else {
            WaitDecision::Sleep(WAIT_STEP_MS)
        },
    }
}

/// The error of a wait that took too long, by what was waited for: for a
/// unit that was enabled and started, restarted, disabled or stopped.
pub fn timeout_error(action: &UnitAction) -> (error: SystemCtlError)
    ensures
        error == (match *action {
            UnitAction::Enable(_) | UnitAction::Start(_) | UnitAction::WaitForActive(_) =>
                SystemCtlError::EnableTimeOut,
            UnitAction::Restart(_) => SystemCtlError::RestartTimeOut,
            UnitAction::Disable(_) => SystemCtlError::DisableTimeOut,
            UnitAction::Stop(_) | UnitAction::WaitForInactive(_) => SystemCtlError::StopTimeOut,
        }),
{
    match action {
        UnitAction::Enable(_) | UnitAction::Start(_) | UnitAction::WaitForActive(_) =>
            SystemCtlError::EnableTimeOut,
        UnitAction::Restart(_) => SystemCtlError::RestartTimeOut,
        UnitAction::Disable(_) => SystemCtlError::DisableTimeOut,
        UnitAction::Stop(_) | UnitAction::WaitForInactive(_) => SystemCtlError::StopTimeOut,
    }
}

} // verus!
