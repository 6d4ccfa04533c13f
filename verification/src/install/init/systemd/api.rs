//! Talking to the service manager: what can go wrong, and how long to
//! wait for a unit.

use vstd::prelude::*;

verus! {

/// Why a request to the service manager failed. Each case carries what the
/// message bus reported.
#[derive(Debug, Clone, PartialEq, Eq)]
pub enum Error {
    ConnectToServiceManager(String),
    ConnectToSystemBus(String),
    ConnectToUserBus(String),
    StartUnit(String),
    StopUnit(String),
    RestartUnit(String),
    Reload(String),
    ListUnits(String),
    EnablingService(String),
    /// More than one unit goes by the name of the service.
    MoreThenOneUnit,
}

/// Why waiting for a unit ended without the unit being as wished.
#[derive(Debug, Clone, PartialEq, Eq)]
pub enum WaitError {
    /// There is no unit of that name.
    ServiceNotFound,
    /// The units could not be listed.
    ListUnits(Error),
    /// The unit was not as wished within the time allowed.
    TimedOut,
    /// The unit has failed.
    UnitFailed,
}

/// What the service manager says a unit does.
#[derive(Debug, Clone, Copy, PartialEq, Eq, Structural)]
pub enum ActiveState {
    Active,
    Reloading,
    Inactive,
    Failed,
    Activating,
    Deactivating,
    Maintenance,
}

/// What to do next while waiting for a unit.
#[derive(Debug, Clone, PartialEq, Eq)]
pub enum WaitDecision {
    /// The unit is as wished.
    Done,
    /// Look again after this many milliseconds.
    Sleep(u64),
    /// Give up with this error.
    Fail(WaitError),
}

/// The milliseconds that a unit is given to become as wished.
pub const WAIT_LIMIT_MS: u64 = 10_000;

/// The milliseconds between two looks at a unit.
pub const WAIT_STEP_MS: u64 = 50;

/// The one state of the units that go by a name, where exactly one does.
pub open spec fn one_state(states: Seq<ActiveState>) -> Result<Option<ActiveState>, Error> {
    if states.len() == 0 {
        Ok(None)
    } else if states.len() == 1 {
        Ok(Some(states[0]))
    } else {
        Err(Error::MoreThenOneUnit)
    }
}

/// What the unit of a name does, from the states of all units that the
/// service manager lists for the name: nothing where it lists none, an error
/// where it lists more than one.
pub fn unit_activity(states: &Vec<ActiveState>) -> (state: Result<Option<ActiveState>, Error>)
    ensures
        state == one_state(states@),
{
    if states.len() == 0 {
        Ok(None)
    } else if states.len() == 1 {
        Ok(Some(states[0]))
    } else {
        Err(Error::MoreThenOneUnit)
    }
}

/// Whether a unit in this state is active.
pub fn is_active(state: Option<ActiveState>) -> (active: bool)
    ensures
        active == (state == Some(ActiveState::Active)),
{
    match state {
        Some(ActiveState::Active) => true,
        _ => false,
    }
}

/// Decides how waiting for a unit to become active goes on.
///
/// `elapsed_ms` is how long the wait has lasted and `state` what the unit
/// does now, or why that could not be found out. After `WAIT_LIMIT_MS` the
/// wait has timed out, whatever the unit does. Before, a unit that cannot be
/// listed or found ends the wait with that error, an active one ends it
/// well, a failed one ends it with `UnitFailed`, and any other is looked at
/// again after `WAIT_STEP_MS`.
pub fn wait_for_active(elapsed_ms: u64, state: Result<Option<ActiveState>, Error>) -> (next:
    WaitDecision)
    ensures
        next == (if elapsed_ms >= WAIT_LIMIT_MS {
            WaitDecision::Fail(WaitError::TimedOut)
        } else {
            match state {
                Err(e) => WaitDecision::Fail(WaitError::ListUnits(e)),
                Ok(None) => WaitDecision::Fail(WaitError::ServiceNotFound),
                Ok(Some(ActiveState::Active)) => WaitDecision::Done,
                Ok(Some(ActiveState::Failed)) => WaitDecision::Fail(WaitError::UnitFailed),
                Ok(Some(_)) => WaitDecision::Sleep(WAIT_STEP_MS),
            }
        }),
{
    if elapsed_ms >= WAIT_LIMIT_MS {
        return WaitDecision::Fail(WaitError::TimedOut);
    }
    match state {
        Err(e) => WaitDecision::Fail(WaitError::ListUnits(e)),
        Ok(None) => WaitDecision::Fail(WaitError::ServiceNotFound),
        Ok(Some(ActiveState::Active)) => WaitDecision::Done,
        Ok(Some(ActiveState::Failed)) => WaitDecision::Fail(WaitError::UnitFailed),
        Ok(Some(_)) => WaitDecision::Sleep(WAIT_STEP_MS),
    }
}

/// Decides how waiting for a unit to become inactive goes on.
///
/// After `WAIT_LIMIT_MS` the wait has timed out. Before, a unit that cannot
/// be listed or found ends the wait with that error, an inactive one ends
/// it well, and any other is looked at again after `WAIT_STEP_MS`.
pub fn wait_for_inactive(elapsed_ms: u64, state: Result<Option<ActiveState>, Error>) -> (next:
    WaitDecision)
    ensures
        next == (if elapsed_ms >= WAIT_LIMIT_MS {
            WaitDecision::Fail(WaitError::TimedOut)
        } else {
            match state {
                Err(e) => WaitDecision::Fail(WaitError::ListUnits(e)),
                Ok(None) => WaitDecision::Fail(WaitError::ServiceNotFound),
                Ok(Some(ActiveState::Inactive)) => WaitDecision::Done,
                Ok(Some(_)) => WaitDecision::Sleep(WAIT_STEP_MS),
            }
        }),
{
    if elapsed_ms >= WAIT_LIMIT_MS {
        return WaitDecision::Fail(WaitError::TimedOut);
    }
    match state {
        Err(e) => WaitDecision::Fail(WaitError::ListUnits(e)),
        Ok(None) => WaitDecision::Fail(WaitError::ServiceNotFound),
        Ok(Some(ActiveState::Inactive)) => WaitDecision::Done,
        Ok(Some(_)) => WaitDecision::Sleep(WAIT_STEP_MS),
    }
}

} // verus!
