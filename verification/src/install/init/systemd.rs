//! Services started by systemd.

use vstd::prelude::*;
use vstd::string::*;
use crate::install::{InstallStep, IoError, Mode, RemoveStep};
use crate::install::builder::Trigger;
use crate::install::files::NoHomeError;
use crate::install::init::{Params, PathCheckError, SetupError, TearDownError};
use crate::paths::{extension, join, joined_path};
use crate::text::{opt_chars, chars_of, matches_at, occurs_at};

pub mod api;
pub mod cli;
pub mod disable_existing;
pub mod find;
pub mod setup;
pub mod teardown;
pub mod unit;

verus! {

pub use unit::FindExeError;
pub use disable_existing::DisableError;

/// Why the program that controls systemd failed.
#[derive(Debug, Clone, PartialEq, Eq)]
pub enum SystemCtlError {
    /// The program could not be run.
    Io(IoError),
    /// The program ran and failed.
    Failed { reason: String },
    /// The service was not active in time.
    EnableTimeOut,
    /// The service was not active again in time.
    RestartTimeOut,
    /// The service was not disabled in time.
    DisableTimeOut,
    /// The service did not stop in time.
    StopTimeOut,
    /// A signal ended the program before it was done.
    Terminated,
}

/// What went wrong with systemd.
#[derive(Debug, Clone, PartialEq, Eq)]
pub enum Error {
    /// The unit file could not be written to `path`.
    Writing { e: IoError, path: String },
    /// The unit files could not be removed.
    Removing(IoError),
    /// A unit file could not be read to see whether this crate wrote it.
    Verifying(unit::Error),
    /// Whether this machine uses systemd could not be found out.
    CheckingInitSys(PathCheckError),
    /// Whether a service that will be replaced is running could not be
    /// found out.
    CheckingRunning(SystemCtlError),
    /// The service could not be enabled.
    Enabling(api::Error),
    /// The service could not be started.
    Starting(api::Error),
    /// The service could not be restarted.
    Restarting(api::Error),
    /// The service could not be disabled.
    Disabling(api::Error),
    /// The service could not be stopped.
    Stopping(api::Error),
    /// Whether the service is active could not be found out.
    CheckActive(api::Error),
    /// Waiting for the service to start failed.
    WaitingForStart(api::WaitError),
    /// Waiting for the service to stop failed.
    WaitingForStop(api::WaitError),
}

/// Whether `name` is one of the components of `path`: it stands there
/// between two slashes, or between a slash and an end of the path, and
/// holds no slash itself.
pub open spec fn has_component(path: Seq<char>, name: Seq<char>) -> bool {
    exists|at: int| is_component_at(path, name, at)
}

/// Whether `name` stands in `path` at index `at` as a whole component.
pub open spec fn is_component_at(path: Seq<char>, name: Seq<char>, at: int) -> bool {
    &&& occurs_at(path, name, at)
    &&& at == 0 || path[at - 1] == '/'
    &&& at + name.len() == path.len() || path[at + name.len()] == '/'
}

/// Whether `path` names systemd: one of its components is `systemd`.
pub open spec fn names_systemd(path: Seq<char>) -> bool {
    has_component(path, "systemd"@)
}

fn component_of(path: &str, name: &str) -> (found: bool)
    ensures
        found == has_component(path@, name@),
{
    let p = chars_of(path);
    let n = chars_of(name);
    if n.len() > p.len() {
        return false;
    }
    let last = p.len() - n.len();
    let mut at: usize = 0;
    while at <= last
        invariant
            n.len() <= p.len(),
            last == p.len() - n.len(),
            p@ == path@,
            n@ == name@,
            forall|k: int| 0 <= k < at ==> !is_component_at(p@, n@, k),
        decreases last + 1 - at,
    {
        if matches_at(&p, &n, at) && (at == 0 || p[at - 1] == '/') && (at + n.len() == p.len()
            || p[at + n.len()] == '/') {
            assert(is_component_at(p@, n@, at as int));
            return true;
        }
        if at == last {
            return false;
        }
        at += 1;
    }
    false
}

/// Whether the path of a process is that of systemd. `path` is what
/// resolving the path gave: the path without links and dots, or why it
/// could not be resolved.
pub fn path_is_systemd(path: Result<String, IoError>) -> (found: Result<bool, PathCheckError>)
    ensures
        match path {
            Ok(p) => found == Ok::<bool, PathCheckError>(names_systemd(p@)),
            Err(e) => found == Err::<bool, PathCheckError>(PathCheckError(e)),
        },
{
    match path {
        Ok(p) => Ok(component_of(p.as_str(), "systemd")),
        Err(e) => Err(PathCheckError(e)),
    }
}

/// Whether systemd cannot be used on this machine: the first process is
/// not systemd. `init_path` is what resolving the path of the first
/// process gave.
pub fn not_available(init_path: Result<String, IoError>) -> (missing: Result<bool, SetupError>)
    ensures
        match init_path {
            Ok(p) => missing == Ok::<bool, SetupError>(!names_systemd(p@)),
            Err(e) => missing == Err::<bool, SetupError>(
                SetupError::Systemd(Error::CheckingInitSys(PathCheckError(e))),
            ),
        },
{
    match path_is_systemd(init_path) {
        Ok(found) => Ok(!found),
        Err(e) => Err(SetupError::Systemd(Error::CheckingInitSys(e))),
    }
}

/// The directory of the unit files of a user whose home is `home`.
pub open spec fn user_path_text(home: Seq<char>) -> Seq<char> {
    joined_path(home, ".config/systemd/user/"@)
}

/// The directory that holds the unit files of the user; without a home
/// directory there is none.
pub fn user_path(home: Option<&str>) -> (dir: Result<String, NoHomeError>)
    ensures
        match home {
            Some(h) => dir matches Ok(d) && d@ == user_path_text(h@),
            None => dir is Err,
        },
{
    match home {
        Some(h) => Ok(join(h, ".config/systemd/user/")),
        None => Err(NoHomeError),
    }
}

/// The directory that holds the unit files of the machine.
pub fn system_path() -> (dir: String)
    ensures
        dir@ == "/etc/systemd/system"@,
{
    String::from_str("/etc/systemd/system")
}

/// The directory of the unit files for `mode`, where there is one.
pub open spec fn unit_dir_text(mode: Mode, home: Option<Seq<char>>) -> Option<Seq<char>> {
    match mode {
        Mode::System => Some("/etc/systemd/system"@),
        Mode::User => match home {
            Some(h) => Some(user_path_text(h)),
            None => None,
        },
    }
}

/// The directory that holds the unit files for `mode`.
pub fn unit_dir(mode: Mode, home: Option<&str>) -> (dir: Result<String, NoHomeError>)
    ensures
        match unit_dir_text(
            mode,
            opt_chars(home),
        ) {
            Some(d) => dir matches Ok(found) && found@ == d,
            None => dir is Err,
        },
{
    match mode {
        Mode::User => user_path(home),
        Mode::System => Ok(system_path()),
    }
}

/// What setting up with systemd plans, or why it cannot.
///
/// Without a directory for the unit files: `NoHome`. For a scheduled
/// service: the unit file of the service, that of the timer, and the
/// enabling of the timer. For one started on boot: whether a service of
/// that name runs has to be known, else that failure; then the unit file of
/// the service and the enabling of the service.
pub open spec fn set_up_plan(
    params: &Params,
    home: Option<Seq<char>>,
    already_running: Result<bool, Error>,
    plan: Result<Vec<InstallStep>, SetupError>,
) -> bool {
    match unit_dir_text(params.mode, home) {
        None => plan == Err::<Vec<InstallStep>, SetupError>(SetupError::NoHome(NoHomeError)),
        Some(dir) => match params.trigger {
            Trigger::OnSchedule(schedule) => plan matches Ok(steps) && setup::timer_plan(
                joined_path(dir, params.name@),
                params,
                schedule,
                steps@,
            ),
            Trigger::OnBoot => match already_running {
                Err(e) => plan == Err::<Vec<InstallStep>, SetupError>(SetupError::Systemd(e)),
                Ok(running) => plan matches Ok(steps) && setup::boot_plan(
                    joined_path(dir, params.name@),
                    params,
                    running,
                    steps@,
                ),
            },
        },
    }
}

/// Plans the steps that set the service up with systemd.
///
/// `home` is the home directory of the installing user, and
/// `already_running` says whether a service of that name is active now, or
/// why that could not be found out; it counts only for a service that is
/// started on boot.
pub fn set_up_steps(
    params: &Params,
    home: Option<&str>,
    already_running: Result<bool, Error>,
) -> (plan: Result<Vec<InstallStep>, SetupError>)
    ensures
        set_up_plan(
            params,
            opt_chars(home),
            already_running,
            plan,
        ),
{
    let dir = match unit_dir(params.mode, home) {
        Ok(dir) => dir,
        Err(e) => {
            return Err(SetupError::NoHome(e));
        },
    };
    let path_without_extension = join(dir.as_str(), params.name.as_str());
    match &params.trigger {
        Trigger::OnSchedule(schedule) => Ok(
            setup::with_timer(path_without_extension.as_str(), params, schedule),
        ),
        Trigger::OnBoot => match already_running {
            Ok(running) => Ok(
                setup::without_timer(path_without_extension.as_str(), params, running),
            ),
            Err(e) => Err(SetupError::Systemd(e)),
        },
    }
}

/// What tearing down finds among the entries of the directory of unit
/// files.
///
/// Without a directory for the unit files: `NoHome`. With an entry that
/// has a fault: the error of the first such entry. Else the units of this
/// crate count. A timer without a service of its name beside it:
/// `TimerWithoutService`. No service: nothing is installed. Services that
/// all start one executable: the steps that take all units away, timers
/// first, and that executable. Services that start different executables:
/// `MultipleExePaths`, with each of them once, in the order in which they
/// first come.
pub open spec fn tear_down_plan(
    mode: Mode,
    home: Option<Seq<char>>,
    entries: Seq<find::DirEntry>,
    plan: Result<Option<(Vec<RemoveStep>, String)>, TearDownError>,
) -> bool {
    let units = find::owned_units(entries, entries.len() as int);
    if unit_dir_text(mode, home) is None {
        plan == Err::<Option<(Vec<RemoveStep>, String)>, TearDownError>(
            TearDownError::NoHome(NoHomeError),
        )
    } else if !find::faultless(entries) {
        plan matches Err(error) && exists|at: int|
            find::first_fault_at(entries, at) && find::reports(
                error,
                find::classified(entries[at])->Err_0,
                entries[at].path@,
            )
    } else if find::has_orphan_timer(units) {
        plan == Err::<Option<(Vec<RemoveStep>, String)>, TearDownError>(
            TearDownError::TimerWithoutService,
        )
    } else {
        match plan {
            Ok(None) => forall|k: int| 0 <= k < units.len() ==> (#[trigger] units[k]).timer,
            Ok(Some((steps, path))) => find::started(units, path@) && find::all_start(
                units,
                path@,
            ) && find::takes_away(steps@, find::timers_first(units), mode),
            Err(TearDownError::MultipleExePaths(paths)) => paths.len() >= 2 && crate::text::texts(
                paths@,
            ) == find::exes_in_order(units, units.len() as int),
            Err(_) => false,
        }
    }
}

/// Looks among the unit files for what this crate installed, and plans
/// its removal.
///
/// `home` is the home directory of the user and `entries` what the
/// directory of unit files for `mode` holds. Nothing is planned unless all
/// is in order: every timer of this crate has its service, and all services
/// of this crate start the same executable.
pub fn tear_down_steps(mode: Mode, home: Option<&str>, entries: &Vec<find::DirEntry>) -> (plan:
    Result<Option<(Vec<RemoveStep>, String)>, TearDownError>)
    ensures
        tear_down_plan(
            mode,
            opt_chars(home),
            entries@,
            plan,
        ),
{
    if let Err(e) = unit_dir(mode, home) {
        return Err(TearDownError::NoHome(e));
    }
    let units = find::scan(entries)?;
    let ghost views = find::owned_views(units@);
    if find::orphan_timer(&units) {
        return Err(TearDownError::TimerWithoutService);
    }
    let mut exe_paths = find::exe_paths(&units);
    if exe_paths.len() == 0 {
        assert forall|k: int| 0 <= k < views.len() implies (#[trigger] views[k]).timer by {
            if !views[k].timer {
                assert(find::listed(exe_paths@, views[k].exe));
            }
        }
        return Ok(None);
    }
    if exe_paths.len() > 1 {
        return Err(TearDownError::MultipleExePaths(exe_paths));
    }
    let ghost all_paths = exe_paths@;
    let exe_path = exe_paths.remove(0);
    proof {
        assert(all_paths[0]@ == exe_path@);
        assert(find::started(views, exe_path@));
        assert forall|k: int|
            0 <= k < views.len() && !(#[trigger] views[k]).timer implies views[k].exe
            == exe_path@ by {
            assert(find::listed(all_paths, views[k].exe));
        }
    }
    let mut steps: Vec<RemoveStep> = Vec::new();
    assert(find::takes_away(steps@, Seq::<find::OwnedUnit>::empty(), mode));
    find::push_steps(&mut steps, &units, true, mode, Ghost(Seq::empty()));
    let ghost timers = find::of_kind(views, true);
    assert(Seq::<find::OwnedUnit>::empty() + timers =~= timers);
    find::push_steps(&mut steps, &units, false, mode, Ghost(timers));
    Ok(Some((steps, exe_path)))
}

/// One thing that systemd is asked to do with a unit.
#[derive(Debug, Clone, PartialEq, Eq)]
pub enum UnitAction {
    /// Enable the unit, so that it is started whenever its trigger comes.
    Enable(String),
    /// Disable the unit.
    Disable(String),
    /// Start the unit now.
    Start(String),
    /// Stop the unit now.
    Stop(String),
    /// Restart the unit.
    Restart(String),
    /// Wait until the unit is active.
    WaitForActive(String),
    /// Wait until the unit is inactive.
    WaitForInactive(String),
}

/// `name` with a dot and `extension` behind it.
pub open spec fn unit_name_text(name: Seq<char>, extension: Seq<char>) -> Seq<char> {
    name + "."@ + extension
}

/// The name of the unit file: `name`, a dot and `extension`.
pub fn unit_name(name: &str, extension: &str) -> (file: String)
    ensures
        file@ == unit_name_text(name@, extension@),
{
    let mut file = String::from_str(name);
    file.append(".");
    file.append(extension);
    file
}

/// What systemd is asked to do to enable the unit `unit`, and to start it
/// where `and_start` says so: enable; then start and wait until it is
/// active.
pub open spec fn enable_actions(
    unit: Seq<char>,
    and_start: bool,
    actions: Seq<UnitAction>,
) -> bool {
    if and_start {
        &&& actions.len() == 3
        &&& actions[0] matches UnitAction::Enable(a) && a@ == unit
        &&& actions[1] matches UnitAction::Start(b) && b@ == unit
        &&& actions[2] matches UnitAction::WaitForActive(c) && c@ == unit
    } else {
        &&& actions.len() == 1
        &&& actions[0] matches UnitAction::Enable(a) && a@ == unit
    }
}

/// Lists what systemd is asked to do to enable `unit`, and to start it
/// where `and_start` says so.
pub fn enable(unit: &str, and_start: bool) -> (actions: Vec<UnitAction>)
    ensures
        enable_actions(unit@, and_start, actions@),
{
    let mut actions: Vec<UnitAction> = Vec::new();
    actions.push(UnitAction::Enable(String::from_str(unit)));
    if and_start {
        actions.push(UnitAction::Start(String::from_str(unit)));
        actions.push(UnitAction::WaitForActive(String::from_str(unit)));
    }
    actions
}

/// What systemd is asked to do to disable the unit `unit`, and to stop it
/// where `and_stop` says so: disable; then stop and wait until it is
/// inactive.
pub open spec fn disable_actions(
    unit: Seq<char>,
    and_stop: bool,
    actions: Seq<UnitAction>,
) -> bool {
    if and_stop {
        &&& actions.len() == 3
        &&& actions[0] matches UnitAction::Disable(a) && a@ == unit
        &&& actions[1] matches UnitAction::Stop(b) && b@ == unit
        &&& actions[2] matches UnitAction::WaitForInactive(c) && c@ == unit
    } else {
        &&& actions.len() == 1
        &&& actions[0] matches UnitAction::Disable(a) && a@ == unit
    }
}

/// Lists what systemd is asked to do to disable `unit`, and to stop it
/// where `and_stop` says so.
pub fn disable(unit: &str, and_stop: bool) -> (actions: Vec<UnitAction>)
    ensures
        disable_actions(unit@, and_stop, actions@),
{
    let mut actions: Vec<UnitAction> = Vec::new();
    actions.push(UnitAction::Disable(String::from_str(unit)));
    if and_stop {
        actions.push(UnitAction::Stop(String::from_str(unit)));
        actions.push(UnitAction::WaitForInactive(String::from_str(unit)));
    }
    actions
}

} // verus!
