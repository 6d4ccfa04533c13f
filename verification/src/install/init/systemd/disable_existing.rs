//! Disabling the services and timers of systemd that run the file at the
//! install location.

use vstd::prelude::*;
use vstd::string::*;
use crate::Tense;
use crate::install::{InstallStep, IoError, Mode};
use crate::install::init::extract_path::unsystemd_quote::UnquoteError;
use crate::install::init::systemd::{disable, UnitAction};

use crate::install::init::systemd::unit::{exec_start_path, FindExeError, Unit};
use crate::paths::{extension, extension_of};
use crate::text::{contains_text, lemma_lex_total, lemma_lex_trans, lex_lt, str_eq, str_lt};

verus! {

/// Why the units that run the target could not be found.
#[derive(Debug, Clone, PartialEq, Eq)]
pub enum FindError {
    /// No service that starts the target was found, and some services
    /// could not be read.
    NotFoundWithErrors(Vec<FindExeError>),
    /// The directory of unit files could not be read.
    CouldNotReadDir(IoError),
}

/// Why the service that keeps the target busy could not be disabled.
#[derive(Debug, Clone, PartialEq, Eq)]
pub enum DisableError {
    /// The service could not be found.
    CouldNotFindIt(FindError),
    /// A unit file could not be read.
    CouldNotReadUnit(crate::install::init::systemd::unit::Error),
    /// Neither a service nor a timer keeps the target busy.
    NoServiceOrTimerFound,
}

impl DisableError {
    /// What the error says.
    pub open spec fn message(&self) -> Seq<char> {
        match self {
            DisableError::CouldNotFindIt(_) => "Could not find the service"@,
            DisableError::CouldNotReadUnit(_) => "Could not open systemd unit"@,
            DisableError::NoServiceOrTimerFound => "Could not find the service or (timer) that keeps the file in use"@,
        }
    }

    /// Says what went wrong.
    pub fn to_string(&self) -> (text: String)
        ensures
            text@ == self.message(),
    {
        match self {
            DisableError::CouldNotFindIt(_) => String::from_str("Could not find the service"),
            DisableError::CouldNotReadUnit(_) => String::from_str("Could not open systemd unit"),
            DisableError::NoServiceOrTimerFound => String::from_str(
                "Could not find the service or (timer) that keeps the file in use",
            ),
        }
    }
}

/// The step that enables units again that were disabled.
#[derive(Debug, Clone, PartialEq, Eq)]
pub struct ReEnable {
    /// The units that were disabled.
    pub units: Vec<Unit>,
    pub mode: Mode,
}

impl ReEnable {
    /// What the step says of itself.
    pub open spec fn description(&self, tense: Tense) -> Seq<char> {
        tense.pick_text("Re-enabled"@, "Re-enable"@, "Will re-enable"@, "Re-enabling"@)
            + " the "@ + self.mode.text() + " services that spawned the original file"@
    }

    /// Says that the services that ran the original file are enabled again.
    pub fn describe(&self, tense: Tense) -> (text: String)
        ensures
            text@ == self.description(tense),
    {
        let mut text = String::from_str(
            tense.pick("Re-enabled", "Re-enable", "Will re-enable", "Re-enabling"),
        );
        text.append(" the ");
        text.append(self.mode.as_str());
        text.append(" services that spawned the original file");
        text
    }
}

/// The file names of `units`, each on a line of its own behind a dash.
pub open spec fn names_listed(units: Seq<Unit>) -> Seq<char>
    decreases units.len(),
{
    if units.len() == 0 {
        Seq::empty()
    } else {
        names_listed(units.drop_last()) + "\n|\t- "@ + units.last().file_name@
    }
}

fn push_names(out: &mut String, units: &Vec<Unit>)
    ensures
        final(out)@ == old(out)@ + names_listed(units@),
{
    let mut i: usize = 0;
    assert(out@ =~= old(out)@ + names_listed(units@.take(0)));
    while i < units.len()
        invariant
            i <= units.len(),
            out@ == old(out)@ + names_listed(units@.take(i as int)),
        decreases units.len() - i,
    {
        out.append("\n|\t- ");
        out.append(units[i].file_name.as_str());
        assert(units@.take(i + 1).drop_last() =~= units@.take(i as int));
        assert(out@ =~= old(out)@ + names_listed(units@.take(i + 1)));
        i += 1;
    }
    assert(units@.take(units.len() as int) =~= units@);
}

/// The step that disables the services and timers that run the file at
/// the install location.
#[derive(Debug, Clone, PartialEq, Eq)]
pub struct Disable {
    /// The services to disable.
    pub services: Vec<Unit>,
    /// The timers to disable.
    pub timers: Vec<Unit>,
    pub mode: Mode,
}

impl Disable {
    /// The beginning of every description of the step.
    pub open spec fn head(&self, tense: Tense) -> Seq<char> {
        tense.pick_text("Disabled"@, "Disable"@, "Will disable"@, "Disabling"@) + " the "@
            + self.mode.text()
    }

    /// The one line that says what the step does.
    pub open spec fn description(&self, tense: Tense) -> Seq<char> {
        self.head(tense) + " services and/or timers running the file at the install location"@
    }

    /// What the step does, with the units by name: the services and the
    /// timers, or only the kind of which there are any. A step without
    /// units says no more than the one line.
    pub open spec fn detailed_description(&self, tense: Tense) -> Seq<char> {
        if self.services.len() > 0 && self.timers.len() > 0 {
            self.description(tense) + "\n| services:"@ + names_listed(self.services@)
                + "\n| timers:"@ + names_listed(self.timers@)
        } else if self.services.len() > 0 {
            self.head(tense) + " services running the file at the install location\n| services:"@
                + names_listed(self.services@)
        } else if self.timers.len() > 0 {
            self.head(tense) + " timers running the file at the install location\n| timers:"@
                + names_listed(self.timers@)
        } else {
            self.description(tense)
        }
    }

    fn begin(&self, tense: Tense) -> (text: String)
        ensures
            text@ == self.head(tense),
    {
        let mut text = String::from_str(
            tense.pick("Disabled", "Disable", "Will disable", "Disabling"),
        );
        text.append(" the ");
        text.append(self.mode.as_str());
        text
    }

    /// Says in one line what the step does.
    pub fn describe(&self, tense: Tense) -> (text: String)
        ensures
            text@ == self.description(tense),
    {
        let mut text = self.begin(tense);
        text.append(" services and/or timers running the file at the install location");
        text
    }

    /// Says what the step does and names the units.
    pub fn describe_detailed(&self, tense: Tense) -> (text: String)
        ensures
            text@ == self.detailed_description(tense),
    {
        if self.services.len() > 0 && self.timers.len() > 0 {
            let mut text = self.describe(tense);
            text.append("\n| services:");
            push_names(&mut text, &self.services);
            text.append("\n| timers:");
            push_names(&mut text, &self.timers);
            text
        } else if self.services.len() > 0 {
            let mut text = self.begin(tense);
            text.append(" services running the file at the install location\n| services:");
            push_names(&mut text, &self.services);
            text
        } else if self.timers.len() > 0 {
            let mut text = self.begin(tense);
            text.append(" timers running the file at the install location\n| timers:");
            push_names(&mut text, &self.timers);
            text
        } else {
            self.describe(tense)
        }
    }

    /// What systemd is asked to do for the unit at index `at` of the
    /// services followed by the timers: disable and stop the unit file; for
    /// a timer, also stop the unit that goes by its name.
    pub fn actions_for(&self, at: usize) -> (actions: Vec<UnitAction>)
        requires
            at < self.services.len() + self.timers.len(),
        ensures
            at < self.services.len() ==> crate::install::init::systemd::disable_actions(
                self.services[at as int].file_name@,
                true,
                actions@,
            ),
            at >= self.services.len() ==> actions.len() == 4
                && crate::install::init::systemd::disable_actions(
                self.timers[at - self.services.len()].file_name@,
                true,
                actions@.take(3),
            ) && (actions[3] matches UnitAction::Stop(name) && name@ == self.timers[at
                - self.services.len()].stem@),
    {
        if at < self.services.len() {
            disable(self.services[at].file_name.as_str(), true)
        } else {
            let timer = &self.timers[at - self.services.len()];
            let mut actions = disable(timer.file_name.as_str(), true);
            let ghost first = actions@;
            actions.push(UnitAction::Stop(timer.name()));
            assert(actions@.take(3) =~= first);
            actions
        }
    }

    /// The step that undoes this one once the first `done` units, of the
    /// services followed by the timers, were disabled: it enables those
    /// again.
    pub fn rollback(&self, done: usize) -> (undo: ReEnable)
        requires
            done <= self.services.len() + self.timers.len(),
        ensures
            undo.mode == self.mode,
            undo.units@ == (self.services@ + self.timers@).take(done as int),
    {
        let mut units: Vec<Unit> = Vec::new();
        let ghost all = self.services@ + self.timers@;
        let mut i: usize = 0;
        while i < done
            invariant
                i <= done <= self.services.len() + self.timers.len(),
                all == self.services@ + self.timers@,
                units@ == all.take(i as int),
            decreases done - i,
        {
            if i < self.services.len() {
                units.push(self.services[i].copy());
            } else {
                units.push(self.timers[i - self.services.len()].copy());
            }
            assert(units@ =~= all.take(i + 1));
            i += 1;
        }
        ReEnable { units, mode: self.mode }
    }
}

/// The paths among `files` whose extension is `wanted`, in order.
pub open spec fn with_extension(files: Seq<String>, wanted: Seq<char>, n: int) -> Seq<Seq<char>>
    decreases n,
{
    if n <= 0 {
        Seq::empty()
    } else if extension_of(files[n - 1]@) == Some(wanted) {
        with_extension(files, wanted, n - 1).push(files[n - 1]@)
    } else {
        with_extension(files, wanted, n - 1)
    }
}

fn collect(files: &Vec<String>, wanted: &str) -> (units: Vec<String>)
    ensures
        crate::text::texts(units@) == with_extension(files@, wanted@, files.len() as int),
{
    let mut units: Vec<String> = Vec::new();
    let mut i: usize = 0;
    while i < files.len()
        invariant
            i <= files.len(),
            crate::text::texts(units@) == with_extension(files@, wanted@, i as int),
        decreases files.len() - i,
    {
        let ghost before = crate::text::texts(units@);
        let hit = match extension(files[i].as_str()) {
            Some(ext) => str_eq(ext.as_str(), wanted),
            None => false,
        };
        if hit {
            units.push(files[i].clone());
            assert(crate::text::texts(units@) =~= before.push(files[i as int]@));
        }
        i += 1;
    }
    units
}

/// The paths of the service units among the files of a directory: those
/// whose extension is `service`.
pub fn collect_services(files: &Vec<String>) -> (units: Vec<String>)
    ensures
        crate::text::texts(units@) == with_extension(files@, "service"@, files.len() as int),
{
    collect(files, "service")
}

/// The paths of the timer units among the files of a directory: those
/// whose extension is `timer`.
pub fn collect_timers(files: &Vec<String>) -> (units: Vec<String>)
    ensures
        crate::text::texts(units@) == with_extension(files@, "timer"@, files.len() as int),
{
    collect(files, "timer")
}

/// A service unit, and whether the path that it starts leads to a file.
#[derive(Debug, Clone, PartialEq, Eq)]
pub struct ServiceFile {
    pub unit: Unit,
    pub exe_is_file: bool,
}

/// Whether the service starts `target`, and `target` is a file.
pub open spec fn starts_target(service: ServiceFile, target: Seq<char>) -> bool {
    service.exe_is_file && exec_start_path(service.unit.body@) == Some(
        Ok::<Seq<char>, UnquoteError>(target),
    )
}

/// Whether the names of `units` go up strictly in the order of strings.
pub open spec fn sorted_by_name(units: Seq<Unit>) -> bool {
    forall|i: int, j: int|
        0 <= i < j < units.len() ==> lex_lt(
            (#[trigger] units[i]).stem@,
            (#[trigger] units[j]).stem@,
        )
}

/// Whether the unit at index `at` of `from` is kept, and no unit before it
/// that is kept has its name.
pub open spec fn first_of_name(from: Seq<Unit>, keep: Seq<bool>, at: int) -> bool {
    0 <= at < from.len() && keep[at] && forall|j: int|
        0 <= j < at ==> !(keep[j] && (#[trigger] from[j]).stem@ == from[at].stem@)
}

/// Whether `unit` is, among the first `n` units of `from`, the first kept
/// unit of its name.
pub open spec fn taken_from(from: Seq<Unit>, keep: Seq<bool>, n: int, unit: Unit) -> bool {
    exists|i: int| 0 <= i < n && first_of_name(from, keep, i) && #[trigger] from[i] == unit
}

/// Whether a unit of `list` goes by `name`.
pub open spec fn named(list: Seq<Unit>, name: Seq<char>) -> bool {
    exists|k: int| 0 <= k < list.len() && (#[trigger] list[k]).stem@ == name
}

/// Whether `list` holds the units of `from` that are kept, each name once,
/// ordered by name: every unit of `list` is the first kept unit of its name,
/// and every kept unit has its name in `list`.
pub open spec fn picked(list: Seq<Unit>, from: Seq<Unit>, keep: Seq<bool>) -> bool {
    &&& sorted_by_name(list)
    &&& forall|k: int|
        0 <= k < list.len() ==> taken_from(from, keep, from.len() as int, #[trigger] list[k])
    &&& forall|i: int|
        0 <= i < from.len() && keep[i] ==> named(list, (#[trigger] from[i]).stem@)
}

/// Puts `unit` into `list` at the place that its name gives it, unless a
/// unit of that name is there already.
fn insert_by_name(list: &mut Vec<Unit>, unit: Unit) -> (at: Option<usize>)
    requires
        sorted_by_name(old(list)@),
    ensures
        sorted_by_name(final(list)@),
        at is None <==> named(old(list)@, unit.stem@),
        at is None ==> final(list)@ == old(list)@,
        at matches Some(i) ==> i <= old(list).len() && final(list)@ == old(list)@.insert(
            i as int,
            unit,
        ),
{
    let ghost before = list@;
    let mut at: usize = 0;
    while at < list.len() && str_lt(list[at].stem.as_str(), unit.stem.as_str())
        invariant
            at <= list.len(),
            list@ == before,
            forall|j: int| 0 <= j < at ==> lex_lt((#[trigger] list[j]).stem@, unit.stem@),
        decreases list.len() - at,
    {
        at += 1;
    }
    if at < list.len() && str_eq(list[at].stem.as_str(), unit.stem.as_str()) {
        return None;
    }
    proof {
        assert forall|j: int| at <= j < list.len() implies lex_lt(
            unit.stem@,
            (#[trigger] list[j]).stem@,
        ) by {
            lemma_lex_total(list[at as int].stem@, unit.stem@);
            if j > at {
                lemma_lex_trans(unit.stem@, list[at as int].stem@, list[j].stem@);
            }
        }
        assert(!named(before, unit.stem@)) by {
            assert forall|k: int| 0 <= k < before.len() implies (#[trigger] before[k]).stem@
                != unit.stem@ by {
                lemma_lex_total(before[k].stem@, unit.stem@);
            }
        }
    }
    list.insert(at, unit);
    proof {
        assert forall|i: int, j: int| 0 <= i < j < list.len() implies lex_lt(
            (#[trigger] list[i]).stem@,
            (#[trigger] list[j]).stem@,
        ) by {
            if i == at {
                assert(list[j] == before[j - 1]);
            } else if j == at {
                assert(list[i] == before[i]);
            } else {
                assert(list[i] == before[if i < at { i } else { i - 1 }]);
                assert(list[j] == before[if j < at { j } else { j - 1 }]);
            }
        }
    }
    Some(at)
}

/// Picks the units of `from` that are kept, each name once, ordered by
/// name.
pub fn pick(from: &Vec<Unit>, keep: &Vec<bool>) -> (list: Vec<Unit>)
    requires
        from.len() == keep.len(),
    ensures
        picked(list@, from@, keep@),
{
    let mut list: Vec<Unit> = Vec::new();
    let mut n: usize = 0;
    while n < from.len()
        invariant
            n <= from.len(),
            from.len() == keep.len(),
            sorted_by_name(list@),
            forall|k: int|
                0 <= k < list.len() ==> taken_from(from@, keep@, n as int, #[trigger] list[k]),
            forall|i: int| 0 <= i < n && keep[i] ==> named(list@, (#[trigger] from[i]).stem@),
        decreases from.len() - n,
    {
        let ghost before = list@;
        proof {
            assert forall|unit: Unit| taken_from(from@, keep@, n as int, unit) implies taken_from(
                from@,
                keep@,
                n + 1,
                unit,
            ) by {
                let i = choose|i: int|
                    0 <= i < n && first_of_name(from@, keep@, i) && #[trigger] from[i] == unit;
                assert(0 <= i < n + 1 && first_of_name(from@, keep@, i) && from[i] == unit);
            }
        }
        if keep[n] {
            let unit = from[n].copy();
            match insert_by_name(&mut list, unit) {
                Some(at) => {
                    proof {
                        assert(first_of_name(from@, keep@, n as int)) by {
                            assert forall|j: int| 0 <= j < n implies !(keep[j] && (
                            #[trigger] from[j]).stem@ == from[n as int].stem@) by {
                                if keep[j] && from[j].stem@ == from[n as int].stem@ {
                                    assert(named(before, from[j].stem@));
                                }
                            }
                        }
                        assert(taken_from(from@, keep@, n + 1, unit)) by {
                            assert(from[n as int] == unit);
                        }
                        assert forall|k: int| 0 <= k < list.len() implies taken_from(
                            from@,
                            keep@,
                            n + 1,
                            #[trigger] list[k],
                        ) by {
                            if k != at {
                                assert(list[k] == before[if k < at { k } else { k - 1 }]);
                            }
                        }
                        assert forall|name: Seq<char>| named(before, name) implies named(
                            list@,
                            name,
                        ) by {
                            let b = choose|b: int|
                                0 <= b < before.len() && (#[trigger] before[b]).stem@ == name;
                            let k = if b < at { b } else { b + 1 };
                            assert(list[k] == before[b]);
                        }
                        assert(named(list@, from[n as int].stem@)) by {
                            assert(list[at as int] == unit);
                        }
                    }
                },
                None => {},
            }
        }
        n += 1;
    }
    list
}

/// Whether the service at index `at` is one to disable: it starts `target`
/// and has an `[Install]` section.
pub open spec fn wanted_service(services: Seq<ServiceFile>, target: Seq<char>, at: int) -> bool {
    starts_target(services[at], target) && contains_text(services[at].unit.body@, "[Install]"@)
}

/// Whether `timer` is one to disable: a service that starts `target` goes
/// by its name.
pub open spec fn wanted_timer(services: Seq<ServiceFile>, target: Seq<char>, timer: Unit) -> bool {
    exists|i: int|
        0 <= i < services.len() && starts_target(#[trigger] services[i], target)
            && services[i].unit.stem@ == timer.stem@
}

/// The units of the services.
pub open spec fn units_of(services: Seq<ServiceFile>) -> Seq<Unit> {
    Seq::new(services.len(), |i: int| services[i].unit)
}

/// What disabling plans for the file `target`.
///
/// The services that count are those that start `target`; of them, those
/// with an `[Install]` section are disabled, and so are the timers that go
/// by the name of one that counts. Where there are neither:
/// `NoServiceOrTimerFound`. Else one step, with the services and the timers
/// each ordered by name and each name once.
pub open spec fn disable_plan(
    target: Seq<char>,
    mode: Mode,
    services: Seq<ServiceFile>,
    timers: Seq<Unit>,
    plan: Result<Vec<InstallStep>, DisableError>,
) -> bool {
    let keep_services = Seq::new(services.len(), |i: int| wanted_service(services, target, i));
    let keep_timers = Seq::new(timers.len(), |i: int| wanted_timer(services, target, timers[i]));
    let none = (forall|i: int| 0 <= i < services.len() ==> !#[trigger] keep_services[i]) && (
    forall|i: int| 0 <= i < timers.len() ==> !#[trigger] keep_timers[i]);
    match plan {
        Err(DisableError::NoServiceOrTimerFound) => none,
        Err(_) => false,
        Ok(steps) => {
            &&& !none
            &&& steps.len() == 1
            &&& steps[0] matches InstallStep::SystemdDisable(step)
            &&& step.mode == mode
            &&& picked(step.services@, units_of(services), keep_services)
            &&& picked(step.timers@, timers, keep_timers)
        },
    }
}

/// The units whose executable is `target`: those that start it and whose
/// path leads to a file. Units that cannot be read are left out.
pub fn find_services_with_target_exe(services: &Vec<ServiceFile>, target: &str) -> (found: Vec<
    bool,
>)
    ensures
        found.len() == services.len(),
        forall|i: int|
            0 <= i < services.len() ==> #[trigger] found[i] == starts_target(services[i], target@),
{
    let mut found: Vec<bool> = Vec::new();
    let mut i: usize = 0;
    while i < services.len()
        invariant
            i <= services.len(),
            found.len() == i,
            forall|k: int|
                0 <= k < i ==> #[trigger] found[k] == starts_target(services[k], target@),
        decreases services.len() - i,
    {
        let hit = match services[i].unit.exe_path(services[i].exe_is_file) {
            Ok(exe) => str_eq(exe.as_str(), target),
            Err(_) => false,
        };
        found.push(hit);
        i += 1;
    }
    found
}

/// Plans the step that disables what runs the file `target`, from the
/// service and timer units of the directory of unit files.
pub fn disable_step(
    target: &str,
    mode: Mode,
    services: &Vec<ServiceFile>,
    timers: &Vec<Unit>,
) -> (plan: Result<Vec<InstallStep>, DisableError>)
    ensures
        disable_plan(target@, mode, services@, timers@, plan),
{
    let starts = find_services_with_target_exe(services, target);
    let ghost keep_services = Seq::new(
        services.len() as nat,
        |i: int| wanted_service(services@, target@, i),
    );
    let ghost keep_timers = Seq::new(
        timers.len() as nat,
        |i: int| wanted_timer(services@, target@, timers[i]),
    );
    let mut units: Vec<Unit> = Vec::new();
    let mut wanted: Vec<bool> = Vec::new();
    let mut i: usize = 0;
    while i < services.len()
        invariant
            i <= services.len(),
            starts.len() == services.len(),
            forall|k: int|
                0 <= k < services.len() ==> #[trigger] starts[k] == starts_target(
                    services[k],
                    target@,
                ),
            units@ == units_of(services@).take(i as int),
            wanted@ == Seq::new(
                services.len() as nat,
                |i: int| wanted_service(services@, target@, i),
            ).take(i as int),
        decreases services.len() - i,
    {
        units.push(services[i].unit.copy());
        wanted.push(starts[i] && services[i].unit.has_install());
        assert(units@ =~= units_of(services@).take(i + 1));
        assert(wanted@ =~= Seq::new(
            services.len() as nat,
            |i: int| wanted_service(services@, target@, i),
        ).take(i + 1));
        i += 1;
    }
    assert(units@ =~= units_of(services@));
    assert(wanted@ =~= keep_services);
    let mut named: Vec<bool> = Vec::new();
    let mut j: usize = 0;
    while j < timers.len()
        invariant
            j <= timers.len(),
            starts.len() == services.len(),
            forall|k: int|
                0 <= k < services.len() ==> #[trigger] starts[k] == starts_target(
                    services[k],
                    target@,
                ),
            named@ == Seq::new(
                timers.len() as nat,
                |i: int| wanted_timer(services@, target@, timers[i]),
            ).take(j as int),
        decreases timers.len() - j,
    {
        let mut hit = false;
        let mut k: usize = 0;
        while k < services.len() && !hit
            invariant
                k <= services.len(),
                j < timers.len(),
                starts.len() == services.len(),
                forall|k: int|
                    0 <= k < services.len() ==> #[trigger] starts[k] == starts_target(
                        services[k],
                        target@,
                    ),
                hit ==> wanted_timer(services@, target@, timers[j as int]),
                !hit ==> forall|i: int|
                    0 <= i < k ==> !(starts_target(#[trigger] services[i], target@)
                        && services[i].unit.stem@ == timers[j as int].stem@),
            decreases services.len() - k + (if hit { 0int } else { 1int }),
        {
            if starts[k] && str_eq(services[k].unit.stem.as_str(), timers[j].stem.as_str()) {
                hit = true;
            } else {
                k += 1;
            }
        }
        named.push(hit);
        assert(named@ =~= Seq::new(
            timers.len() as nat,
            |i: int| wanted_timer(services@, target@, timers[i]),
        ).take(j + 1));
        j += 1;
    }
    assert(named@ =~= keep_timers);
    let chosen_services = pick(&units, &wanted);
    let chosen_timers = pick(timers, &named);
    proof {
        if chosen_services.len() > 0 {
            assert(taken_from(units@, wanted@, units.len() as int, chosen_services[0]));
        }
        if chosen_timers.len() > 0 {
            assert(taken_from(timers@, named@, timers.len() as int, chosen_timers[0]));
        }
        if chosen_services.len() == 0 {
            assert forall|i: int| 0 <= i < services.len() implies !#[trigger] keep_services[i] by {
                if keep_services[i] {
                    assert(crate::install::init::systemd::disable_existing::named(
                        chosen_services@,
                        units[i].stem@,
                    ));
                }
            }
        }
        if chosen_timers.len() == 0 {
            assert forall|i: int| 0 <= i < timers.len() implies !#[trigger] keep_timers[i] by {
                if keep_timers[i] {
                    assert(crate::install::init::systemd::disable_existing::named(
                        chosen_timers@,
                        timers[i].stem@,
                    ));
                }
            }
        }
    }
    if chosen_services.len() == 0 && chosen_timers.len() == 0 {
        return Err(DisableError::NoServiceOrTimerFound);
    }
    let mut steps: Vec<InstallStep> = Vec::new();
    steps.push(
        InstallStep::SystemdDisable(
            Disable { services: chosen_services, timers: chosen_timers, mode },
        ),
    );
    Ok(steps)
}

} // verus!
