//! The steps that take a service of systemd away.

use vstd::prelude::*;
use vstd::string::*;
use crate::Tense;
use crate::install::{Mode, RemoveStep};
use crate::install::init::systemd::{
    disable, disable_actions, unit_name, unit_name_text, UnitAction,
};

verus! {

/// The step that deletes the unit file of a service.
#[derive(Debug, Clone, PartialEq, Eq)]
pub struct RemoveService {
    /// The path of the unit file.
    pub path: String,
}

impl RemoveService {
    /// What the step says of itself.
    pub open spec fn description(&self, tense: Tense) -> Seq<char> {
        tense.pick_text("Removed"@, "Remove"@, "Will remove"@, "Removing"@)
            + " systemd service unit"@ + tense.punct_text() + " at:\n|\t"@ + self.path@
    }

    /// Says what the step does and where the unit file lies.
    pub fn describe(&self, tense: Tense) -> (text: String)
        ensures
            text@ == self.description(tense),
    {
        let mut text = String::from_str(tense.pick("Removed", "Remove", "Will remove", "Removing"));
        text.append(" systemd service unit");
        text.append(tense.punct());
        text.append(" at:\n|\t");
        text.append(self.path.as_str());
        text
    }
}

/// The step that disables a service, and stops it where `stop` is set.
#[derive(Debug, Clone, PartialEq, Eq)]
pub struct DisableService {
    /// The name of the service, without extension.
    pub name: String,
    pub mode: Mode,
    /// Whether the service is stopped as well.
    pub stop: bool,
}

impl DisableService {
    /// The words for stopping as well, or nothing.
    pub open spec fn stop_text(&self, tense: Tense) -> Seq<char> {
        if self.stop {
            tense.pick_text("and stopped "@, "and stop "@, "and stop "@, "and stopping "@)
        } else {
            Seq::empty()
        }
    }

    /// What the step says of itself.
    pub open spec fn description(&self, tense: Tense) -> Seq<char> {
        tense.pick_text("Disabled"@, "Disable"@, "Will disable"@, "Disabling"@) + " "@
            + self.stop_text(tense) + "systemd "@ + self.mode.text() + " service: "@ + self.name@
            + tense.punct_text()
    }

    /// Says what the step does to which service.
    pub fn describe(&self, tense: Tense) -> (text: String)
        ensures
            text@ == self.description(tense),
    {
        let mut text = String::from_str(
            tense.pick("Disabled", "Disable", "Will disable", "Disabling"),
        );
        text.append(" ");
        let ghost head = text@;
        if self.stop {
            text.append(tense.pick("and stopped ", "and stop ", "and stop ", "and stopping "));
        }
        assert(text@ =~= head + self.stop_text(tense));
        text.append("systemd ");
        text.append(self.mode.as_str());
        text.append(" service: ");
        text.append(self.name.as_str());
        text.append(tense.punct());
        text
    }

    /// Lists what systemd is asked to do: disable the service unit; then,
    /// where `stop` is set, stop it and wait until it is inactive.
    pub fn actions(&self) -> (actions: Vec<UnitAction>)
        ensures
            disable_actions(unit_name_text(self.name@, "service"@), self.stop, actions@),
    {
        let unit = unit_name(self.name.as_str(), "service");
        disable(unit.as_str(), self.stop)
    }
}

/// The step that deletes the unit file of a timer.
#[derive(Debug, Clone, PartialEq, Eq)]
pub struct RemoveTimer {
    /// The path of the unit file.
    pub path: String,
}

impl RemoveTimer {
    /// What the step says of itself.
    pub open spec fn description(&self, tense: Tense) -> Seq<char> {
        tense.pick_text("Removed"@, "Remove"@, "Will remove"@, "Removing"@) + " systemd timer"@
            + tense.punct_text() + " at:\n|\t"@ + self.path@
    }

    /// Says what the step does and where the unit file lies.
    pub fn describe(&self, tense: Tense) -> (text: String)
        ensures
            text@ == self.description(tense),
    {
        let mut text = String::from_str(tense.pick("Removed", "Remove", "Will remove", "Removing"));
        text.append(" systemd timer");
        text.append(tense.punct());
        text.append(" at:\n|\t");
        text.append(self.path.as_str());
        text
    }
}

/// The step that disables and stops a timer.
#[derive(Debug, Clone, PartialEq, Eq)]
pub struct DisableTimer {
    /// The name of the timer, without extension.
    pub name: String,
    pub mode: Mode,
}

impl DisableTimer {
    /// What the step says of itself.
    pub open spec fn description(&self, tense: Tense) -> Seq<char> {
        tense.pick_text("Disabled"@, "Disable"@, "Will disable"@, "Disabling"@) + " systemd "@
            + self.mode.text() + " timer: "@ + self.name@ + tense.punct_text()
    }

    /// Says what the step does to which timer.
    pub fn describe(&self, tense: Tense) -> (text: String)
        ensures
            text@ == self.description(tense),
    {
        let mut text = String::from_str(
            tense.pick("Disabled", "Disable", "Will disable", "Disabling"),
        );
        text.append(" systemd ");
        text.append(self.mode.as_str());
        text.append(" timer: ");
        text.append(self.name.as_str());
        text.append(tense.punct());
        text
    }

    /// Lists what systemd is asked to do: disable the timer unit, stop it
    /// and wait until it is inactive.
    pub fn actions(&self) -> (actions: Vec<UnitAction>)
        ensures
            disable_actions(unit_name_text(self.name@, "timer"@), true, actions@),
    {
        let unit = unit_name(self.name.as_str(), "timer");
        disable(unit.as_str(), true)
    }
}

/// Whether `steps` disable and stop the service `name` and then delete its
/// unit file at `path`.
pub open spec fn removes_service(
    steps: Seq<RemoveStep>,
    path: Seq<char>,
    name: Seq<char>,
    mode: Mode,
) -> bool {
    &&& steps.len() == 2
    &&& steps[0] matches RemoveStep::DisableService(d) && d.name@ == name && d.mode == mode
        && d.stop
    &&& steps[1] matches RemoveStep::RemoveService(r) && r.path@ == path
}

/// Whether `steps` disable the timer `name` and then delete its unit file
/// at `path`.
pub open spec fn removes_timer(
    steps: Seq<RemoveStep>,
    path: Seq<char>,
    name: Seq<char>,
    mode: Mode,
) -> bool {
    &&& steps.len() == 2
    &&& steps[0] matches RemoveStep::DisableTimer(d) && d.name@ == name && d.mode == mode
    &&& steps[1] matches RemoveStep::RemoveTimer(r) && r.path@ == path
}

/// The two steps that take a service away: disable and stop it, then
/// delete its unit file.
pub fn disable_then_remove_service(service_path: String, name: &str, mode: Mode) -> (steps: Vec<
    RemoveStep,
>)
    ensures
        removes_service(steps@, service_path@, name@, mode),
{
    let mut steps: Vec<RemoveStep> = Vec::new();
    steps.push(
        RemoveStep::DisableService(
            DisableService { name: String::from_str(name), mode, stop: true },
        ),
    );
    steps.push(RemoveStep::RemoveService(RemoveService { path: service_path }));
    steps
}

/// The two steps that take a timer away: disable it, then delete its unit
/// file.
pub fn disable_then_remove_with_timer(timer_path: String, name: &str, mode: Mode) -> (steps: Vec<
    RemoveStep,
>)
    ensures
        removes_timer(steps@, timer_path@, name@, mode),
{
    let mut steps: Vec<RemoveStep> = Vec::new();
    steps.push(RemoveStep::DisableTimer(DisableTimer { name: String::from_str(name), mode }));
    steps.push(RemoveStep::RemoveTimer(RemoveTimer { path: timer_path }));
    steps
}

} // verus!
