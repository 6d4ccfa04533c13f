//! Writing the unit files of a service and the steps that set it up.

use vstd::prelude::*;
use vstd::string::*;
use crate::Tense;
use crate::schedule::Schedule;
use crate::install::{InstallStep, Mode};
use crate::install::builder::Trigger;
use crate::install::init::{autogenerated_comment, comment_text, shell_escaped_text,
    systemd_escaped_text, Params, ShellEscape, SystemdEscape};
use crate::install::init::systemd::{enable, enable_actions, unit_name, unit_name_text, UnitAction};
use crate::install::init::systemd::teardown::{DisableService, DisableTimer, RemoveService,
    RemoveTimer};
use crate::text::{join_strings, joined, push_char, push_line, push_replaced, push_two_digits,
    replace_char, texts, trim_end, trimmed_end_string, two_digits, lemma_lines_text_push};
use crate::install::init::lemma_comment_written;
use crate::install::init::extract_path::unsystemd_quote::{first_segment, no_backslash,
    lemma_systemd_escape_round_trip, lemma_trim_end_after, UnquoteError};
use crate::install::init::comment_lines;
use crate::install::init::systemd::unit::{begins_apart, exec_start_path, exec_start_value,
    lemma_exec_value_behind};
use crate::text::{is_whitespace, lemma_line_end_bounds, lemma_lines_of_line,
    lemma_lines_text_of_both, lemma_lines_text_of_one, lemma_lines_written_then_read, line_end,
    lines_of, lines_text, plain_lines, trim, trim_start, without_cr};

verus! {

/// The description of a step that writes a unit file.
pub open spec fn writes_unit_text(kind: Seq<char>, path: Seq<char>, tense: Tense) -> Seq<char> {
    tense.pick_text("Wrote"@, "Write"@, "Will write"@, "Writing"@) + " systemd "@ + kind
        + " unit"@ + tense.punct_text() + "\n\t| path: "@ + path
}

/// The detailed description of a step that writes a unit file.
pub open spec fn writes_unit_detailed_text(
    kind: Seq<char>,
    path: Seq<char>,
    unit: Seq<char>,
    tense: Tense,
) -> Seq<char> {
    tense.pick_text("Wrote"@, "Write"@, "Will write"@, "Writing"@) + " systemd "@ + kind
        + " unit"@ + tense.punct_text() + "\n| path:\n|\t"@ + path + "\n| content:\n|\t"@
        + replace_char(trim_end(unit), '\n', "\n|\t"@)
}

fn describe_unit(kind: &str, path: &str, tense: Tense) -> (text: String)
    ensures
        text@ == writes_unit_text(kind@, path@, tense),
{
    let mut text = String::from_str(tense.pick("Wrote", "Write", "Will write", "Writing"));
    text.append(" systemd ");
    text.append(kind);
    text.append(" unit");
    text.append(tense.punct());
    text.append("\n\t| path: ");
    text.append(path);
    text
}

fn describe_unit_detailed(kind: &str, path: &str, unit: &str, tense: Tense) -> (text: String)
    ensures
        text@ == writes_unit_detailed_text(kind@, path@, unit@, tense),
{
    let mut text = String::from_str(tense.pick("Wrote", "Write", "Will write", "Writing"));
    text.append(" systemd ");
    text.append(kind);
    text.append(" unit");
    text.append(tense.punct());
    text.append("\n| path:\n|\t");
    text.append(path);
    text.append("\n| content:\n|\t");
    let content = trimmed_end_string(unit);
    push_replaced(&mut text, content.as_str(), '\n', "\n|\t");
    text
}

/// The step that writes the unit file of the service.
#[derive(Debug, Clone, PartialEq, Eq)]
pub struct Service {
    /// The text of the unit file.
    pub unit: String,
    /// Where the unit file is written.
    pub path: String,
}

impl Service {
    /// Says that the unit file is written, and where.
    pub fn describe(&self, tense: Tense) -> (text: String)
        ensures
            text@ == writes_unit_text("service"@, self.path@, tense),
    {
        describe_unit("service", self.path.as_str(), tense)
    }

    /// Says that the unit file is written, where, and what it holds.
    pub fn describe_detailed(&self, tense: Tense) -> (text: String)
        ensures
            text@ == writes_unit_detailed_text("service"@, self.path@, self.unit@, tense),
    {
        describe_unit_detailed("service", self.path.as_str(), self.unit.as_str(), tense)
    }

    /// The step that undoes this one: it deletes the unit file.
    pub fn rollback(&self) -> (undo: RemoveService)
        ensures
            undo.path@ == self.path@,
    {
        RemoveService { path: self.path.clone() }
    }
}

/// The step that writes the unit file of the timer.
#[derive(Debug, Clone, PartialEq, Eq)]
pub struct Timer {
    /// The text of the unit file.
    pub unit: String,
    /// Where the unit file is written.
    pub path: String,
}

impl Timer {
    /// Says that the unit file is written, and where.
    pub fn describe(&self, tense: Tense) -> (text: String)
        ensures
            text@ == writes_unit_text("timer"@, self.path@, tense),
    {
        describe_unit("timer", self.path.as_str(), tense)
    }

    /// Says that the unit file is written, where, and what it holds.
    pub fn describe_detailed(&self, tense: Tense) -> (text: String)
        ensures
            text@ == writes_unit_detailed_text("timer"@, self.path@, self.unit@, tense),
    {
        describe_unit_detailed("timer", self.path.as_str(), self.unit.as_str(), tense)
    }

    /// The step that undoes this one: it deletes the unit file.
    pub fn rollback(&self) -> (undo: RemoveTimer)
        ensures
            undo.path@ == self.path@,
    {
        RemoveTimer { path: self.path.clone() }
    }
}

/// The step that enables and starts the timer of the service.
#[derive(Debug, Clone, PartialEq, Eq)]
pub struct EnableTimer {
    /// The name of the timer, without extension.
    pub name: String,
    pub mode: Mode,
}

impl EnableTimer {
    /// What the step says of itself.
    pub open spec fn description(&self, tense: Tense) -> Seq<char> {
        tense.pick_text("Enabled"@, "Enable"@, "Will Enable"@, "Enabling"@) + " systemd "@
            + self.mode.text() + " timer: "@ + self.name@ + tense.punct_text()
    }

    /// Says which timer is enabled.
    pub fn describe(&self, tense: Tense) -> (text: String)
        ensures
            text@ == self.description(tense),
    {
        let mut text = String::from_str(tense.pick("Enabled", "Enable", "Will Enable", "Enabling"));
        text.append(" systemd ");
        text.append(self.mode.as_str());
        text.append(" timer: ");
        text.append(self.name.as_str());
        text.append(tense.punct());
        text
    }

    /// Lists what systemd is asked to do: enable the timer unit, start it
    /// and wait until it is active.
    pub fn actions(&self) -> (actions: Vec<UnitAction>)
        ensures
            enable_actions(unit_name_text(self.name@, "timer"@), true, actions@),
    {
        let unit = unit_name(self.name.as_str(), "timer");
        enable(unit.as_str(), true)
    }

    /// The step that undoes this one: it disables the timer.
    pub fn rollback(&self) -> (undo: DisableTimer)
        ensures
            undo.name@ == self.name@,
            undo.mode == self.mode,
    {
        DisableTimer { name: self.name.clone(), mode: self.mode }
    }
}

/// The step that enables the service, and starts it where `start` is set.
#[derive(Debug, Clone, PartialEq, Eq)]
pub struct EnableService {
    /// The name of the service, without extension.
    pub name: String,
    pub mode: Mode,
    /// Whether the service is started as well.
    pub start: bool,
    /// Whether a service of this name was running when the step was
    /// planned; it is then restarted.
    pub already_running: bool,
}

impl EnableService {
    /// The word for starting as well, or nothing.
    pub open spec fn start_text(&self, tense: Tense) -> Seq<char> {
        if !self.start {
            Seq::empty()
        } else if self.already_running {
            tense.pick_text("restarted"@, "restart"@, "restart"@, "restarting"@)
        } else {
            tense.pick_text("started"@, "start"@, "start"@, "starting"@)
        }
    }

    /// What the step says of itself.
    pub open spec fn description(&self, tense: Tense) -> Seq<char> {
        tense.pick_text("Enabled"@, "Enable"@, "Will Enable"@, "Enabling"@) + " and "@
            + self.start_text(tense) + " systemd "@ + self.mode.text() + " service: "@
            + self.name@ + tense.punct_text()
    }

    /// Says which service is enabled and whether it is started or started
    /// again.
    pub fn describe(&self, tense: Tense) -> (text: String)
        ensures
            text@ == self.description(tense),
    {
        let mut text = String::from_str(tense.pick("Enabled", "Enable", "Will Enable", "Enabling"));
        text.append(" and ");
        let ghost head = text@;
        if self.start {
            if self.already_running {
                text.append(tense.pick("restarted", "restart", "restart", "restarting"));
            } else {
                text.append(tense.pick("started", "start", "start", "starting"));
            }
        }
        assert(text@ =~= head + self.start_text(tense));
        text.append(" systemd ");
        text.append(self.mode.as_str());
        text.append(" service: ");
        text.append(self.name.as_str());
        text.append(tense.punct());
        text
    }

    /// What systemd is asked to do: enable the service unit; where `start`
    /// is set, start it and wait until it is active; and where it was
    /// running already, restart it at the end.
    pub open spec fn planned(&self, actions: Seq<UnitAction>) -> bool {
        let unit = unit_name_text(self.name@, "service"@);
        let first = if self.already_running {
            actions.drop_last()
        } else {
            actions
        };
        &&& enable_actions(unit, self.start, first)
        &&& self.already_running ==> actions.len() >= 1 && (
        actions.last() matches UnitAction::Restart(r) && r@ == unit)
    }

    /// Lists what systemd is asked to do, in order.
    pub fn actions(&self) -> (actions: Vec<UnitAction>)
        ensures
            self.planned(actions@),
    {
        let unit = unit_name(self.name.as_str(), "service");
        let mut actions = enable(unit.as_str(), self.start);
        if self.already_running {
            let ghost first = actions@;
            actions.push(UnitAction::Restart(unit));
            assert(actions@.drop_last() =~= first);
        }
        actions
    }

    /// The step that undoes this one: it disables the service, and stops it
    /// where this one started it.
    pub fn rollback(&self) -> (undo: DisableService)
        ensures
            undo.name@ == self.name@,
            undo.mode == self.mode,
            undo.stop == self.start,
    {
        DisableService { name: self.name.clone(), mode: self.mode, stop: self.start }
    }
}

/// `path`, a dot and `extension`.
pub fn with_added_extension(path: &str, extension: &str) -> (whole: String)
    ensures
        whole@ == path@ + "."@ + extension@,
{
    let mut whole = String::from_str(path);
    whole.append(".");
    whole.append(extension);
    whole
}

/// The target that wants a service started on boot.
pub open spec fn target_text(mode: Mode) -> Seq<char> {
    match mode {
        Mode::User => "default.target"@,
        Mode::System => "multi-user.target"@,
    }
}

/// The assignments `NAME=value` of `environment`, name and value quoted
/// for systemd.
pub open spec fn quoted_vars(environment: Seq<(String, String)>) -> Seq<Seq<char>> {
    Seq::new(
        environment.len(),
        |i: int|
            systemd_escaped_text(environment[i].0@) + "="@ + systemd_escaped_text(
                environment[i].1@,
            ),
    )
}

/// The line that sets the environment, closed by a line feed; nothing for
/// an empty environment.
pub open spec fn environment_section(environment: Seq<(String, String)>) -> Seq<char> {
    lines_text(environment_lines(environment))
}

/// The arguments, each quoted for systemd.
pub open spec fn quoted_args(args: Seq<String>) -> Seq<Seq<char>> {
    Seq::new(args.len(), |i: int| systemd_escaped_text(args[i]@))
}

/// What stands behind `ExecStart=`: the path of the executable quoted for
/// systemd, a space, and the quoted arguments, each on a line of its own.
pub open spec fn exec_start_text(params: &Params) -> Seq<char> {
    systemd_escaped_text(params.exe_path@) + " "@ + joined(
        quoted_args(params.exe_args@),
        " \\\n\t"@,
    )
}

/// The `[Install]` section of a service that is started on boot; a service
/// that a timer starts has none.
pub open spec fn install_section(trigger: Trigger, mode: Mode) -> Seq<char> {
    match trigger {
        Trigger::OnSchedule(_) => Seq::empty(),
        Trigger::OnBoot => "[Install]\nWantedBy="@ + target_text(mode) + "\n"@,
    }
}

/// The lines that every unit file of a service begins with: the landmark
/// comment, the `[Unit]` section with the description, and the beginning of
/// the `[Service]` section.
pub open spec fn fixed_lines(params: &Params) -> Seq<Seq<char>> {
    comment_lines(params.bin_name@) + seq![
        Seq::empty(),
        "[Unit]"@,
        "Description="@ + params.description_text(),
        "After=network.target"@,
        Seq::empty(),
        "[Service]"@,
        "Type=simple"@,
    ]
}

/// The line that sets the working directory, where there is one.
pub open spec fn working_dir_lines(working_dir: Option<String>) -> Seq<Seq<char>> {
    match working_dir {
        Some(dir) => seq!["WorkingDirectory="@ + shell_escaped_text(dir@)],
        None => Seq::empty(),
    }
}

/// The line that sets the user, where there is one.
pub open spec fn user_lines(run_as: Option<String>) -> Seq<Seq<char>> {
    match run_as {
        Some(user) => seq!["User="@ + user@],
        None => Seq::empty(),
    }
}

/// The line that sets the environment, where it is not empty.
pub open spec fn environment_lines(environment: Seq<(String, String)>) -> Seq<Seq<char>> {
    if environment.len() == 0 {
        Seq::empty()
    } else {
        seq!["Environment="@ + joined(quoted_vars(environment), " "@)]
    }
}

/// The lines of the unit file of the service that stand before its
/// `ExecStart=` line: those that every unit file begins with, and the
/// settings of the service.
pub open spec fn header_lines(params: &Params) -> Seq<Seq<char>> {
    fixed_lines(params) + working_dir_lines(params.working_dir) + user_lines(params.run_as)
        + environment_lines(params.environment@)
}

/// The text of the unit file of the service: the lines of the header, the
/// `ExecStart=` line, and the `[Install]` section where there is one.
pub open spec fn service_text(params: &Params) -> Seq<char> {
    lines_text(header_lines(params)) + "ExecStart="@ + exec_start_text(params) + "\n"@
        + install_section(params.trigger, params.mode)
}

/// When the timer fires: every day at the time of the schedule.
pub open spec fn on_calendar_text(schedule: Schedule) -> Seq<char> {
    match schedule {
        Schedule::Daily(time) => "*-*-* "@ + two_digits(time.parts().0) + ":"@ + two_digits(
            time.parts().1,
        ) + ":"@ + two_digits(time.parts().2),
    }
}

/// The text of the unit file of the timer.
pub open spec fn timer_text(params: &Params, schedule: Schedule) -> Seq<char> {
    comment_text(params.bin_name@) + "\n\n[Unit]\nDescription="@ + params.description_text()
        + "\n\n[Timer]\nOnCalendar="@ + on_calendar_text(schedule)
        + "\nAccuracySec=60\n\n[Install]\nWantedBy=timers.target"@
}

/// Writes the line that sets the environment; nothing for an empty
/// environment.
pub fn render_environment_section(environment: &Vec<(String, String)>) -> (section: String)
    ensures
        section@ == environment_section(environment@),
{
    if environment.len() == 0 {
        assert(lines_text(Seq::<Seq<char>>::empty()) =~= Seq::<char>::empty());
        return String::new();
    }
    let mut pairs: Vec<String> = Vec::new();
    let mut i: usize = 0;
    while i < environment.len()
        invariant
            i <= environment.len(),
            pairs.len() == i,
            forall|k: int|
                0 <= k < i ==> (#[trigger] pairs[k])@ == systemd_escaped_text(environment[k].0@)
                    + "="@ + systemd_escaped_text(environment[k].1@),
        decreases environment.len() - i,
    {
        let mut pair = environment[i].0.systemd_escape();
        pair.append("=");
        let value = environment[i].1.systemd_escape();
        pair.append(value.as_str());
        pairs.push(pair);
        i += 1;
    }
    assert(texts(pairs@) =~= quoted_vars(environment@));
    let key_val_pairs = join_strings(&pairs, " ");
    let mut section = String::from_str("Environment=");
    section.append(key_val_pairs.as_str());
    push_char(&mut section, '\n');
    proof {
        lemma_lines_text_of_one("Environment="@ + joined(quoted_vars(environment@), " "@));
    }
    section
}

fn render_args(args: &Vec<String>) -> (all: String)
    ensures
        all@ == joined(quoted_args(args@), " \\\n\t"@),
{
    let mut quoted: Vec<String> = Vec::new();
    let mut i: usize = 0;
    while i < args.len()
        invariant
            i <= args.len(),
            quoted.len() == i,
            forall|k: int| 0 <= k < i ==> (#[trigger] quoted[k])@ == systemd_escaped_text(args[k]@),
        decreases args.len() - i,
    {
        quoted.push(args[i].systemd_escape());
        i += 1;
    }
    assert(texts(quoted@) =~= quoted_args(args@));
    join_strings(&quoted, " \\\n\t")
}

fn render_fixed(params: &Params) -> (unit: String)
    ensures
        unit@ == lines_text(fixed_lines(params)),
{
    let mut unit = autogenerated_comment(params.bin_name.as_str());
    push_char(&mut unit, '\n');
    let ghost mut lines = comment_lines(params.bin_name@);
    proof {
        lemma_comment_written(params.bin_name@);
        reveal_strlit("");
    }
    push_line(&mut unit, "");
    proof {
        lemma_lines_text_push(lines, ""@);
        lines = lines.push(""@);
    }
    push_line(&mut unit, "[Unit]");
    proof {
        lemma_lines_text_push(lines, "[Unit]"@);
        lines = lines.push("[Unit]"@);
    }
    let mut description = String::from_str("Description=");
    let text = params.description();
    description.append(text.as_str());
    push_line(&mut unit, description.as_str());
    proof {
        lemma_lines_text_push(lines, description@);
        lines = lines.push(description@);
    }
    push_line(&mut unit, "After=network.target");
    proof {
        lemma_lines_text_push(lines, "After=network.target"@);
        lines = lines.push("After=network.target"@);
    }
    push_line(&mut unit, "");
    proof {
        lemma_lines_text_push(lines, ""@);
        lines = lines.push(""@);
    }
    push_line(&mut unit, "[Service]");
    proof {
        lemma_lines_text_push(lines, "[Service]"@);
        lines = lines.push("[Service]"@);
    }
    push_line(&mut unit, "Type=simple");
    proof {
        lemma_lines_text_push(lines, "Type=simple"@);
        lines = lines.push("Type=simple"@);
        assert(""@ =~= Seq::<char>::empty());
        assert(lines =~= fixed_lines(params));
    }
    unit
}

fn render_header(params: &Params) -> (unit: String)
    ensures
        unit@ == lines_text(header_lines(params)),
{
    let mut unit = render_fixed(params);
    let ghost fixed = fixed_lines(params);
    if let Some(dir) = &params.working_dir {
        let mut line = String::from_str("WorkingDirectory=");
        let dir = dir.shell_escaped();
        line.append(dir.as_str());
        push_line(&mut unit, line.as_str());
        proof {
            lemma_lines_text_push(fixed, line@);
            assert(fixed.push(line@) =~= fixed + working_dir_lines(params.working_dir));
        }
    } else {
        assert(fixed =~= fixed + working_dir_lines(params.working_dir));
    }
    let ghost with_dir = fixed + working_dir_lines(params.working_dir);
    if let Some(user) = &params.run_as {
        let mut line = String::from_str("User=");
        line.append(user.as_str());
        push_line(&mut unit, line.as_str());
        proof {
            lemma_lines_text_push(with_dir, line@);
            assert(with_dir.push(line@) =~= with_dir + user_lines(params.run_as));
        }
    } else {
        assert(with_dir =~= with_dir + user_lines(params.run_as));
    }
    let ghost with_user = with_dir + user_lines(params.run_as);
    let environment = render_environment_section(&params.environment);
    unit.append(environment.as_str());
    proof {
        lemma_lines_text_of_both(with_user, environment_lines(params.environment@));
    }
    unit
}

/// Writes the unit file of the service.
///
/// It begins with the landmark comment. The `[Service]` section starts the
/// executable, with its arguments, in the working directory, as the user
/// and with the environment that are set. An `[Install]` section is written
/// only for a service that is started on boot.
pub fn render_service(params: &Params) -> (unit: String)
    ensures
        unit@ == service_text(params),
{
    let mut unit = render_header(params);
    unit.append("ExecStart=");
    let ghost before_exec = unit@;
    let exe_path = params.exe_path.systemd_escape();
    unit.append(exe_path.as_str());
    unit.append(" ");
    let exe_args = render_args(&params.exe_args);
    unit.append(exe_args.as_str());
    assert(unit@ =~= before_exec + exec_start_text(params));
    unit.append("\n");
    let ghost before_install = unit@;
    match params.trigger {
        Trigger::OnSchedule(_) => {},
        Trigger::OnBoot => {
            unit.append("[Install]\nWantedBy=");
            match params.mode {
                Mode::User => unit.append("default.target"),
                Mode::System => unit.append("multi-user.target"),
            }
            unit.append("\n");
        },
    }
    assert(unit@ =~= before_install + install_section(params.trigger, params.mode));
    unit
}

/// Writes the unit file of the timer that starts the service every day at
/// the time of the schedule.
pub fn render_timer(params: &Params, schedule: &Schedule) -> (unit: String)
    ensures
        unit@ == timer_text(params, *schedule),
{
    let mut unit = autogenerated_comment(params.bin_name.as_str());
    unit.append("\n\n[Unit]\nDescription=");
    let description = params.description();
    unit.append(description.as_str());
    unit.append("\n\n[Timer]\nOnCalendar=");
    let ghost head = unit@;
    match schedule {
        Schedule::Daily(time) => {
            unit.append("*-*-* ");
            push_two_digits(&mut unit, time.hour());
            unit.append(":");
            push_two_digits(&mut unit, time.minute());
            unit.append(":");
            push_two_digits(&mut unit, time.second());
        },
    }
    assert(unit@ =~= head + on_calendar_text(*schedule));
    unit.append("\nAccuracySec=60\n\n[Install]\nWantedBy=timers.target");
    unit
}

/// Whether `steps` set up a service that a timer starts: write the unit
/// file of the service, write that of the timer, enable the timer.
pub open spec fn timer_plan(
    path_without_extension: Seq<char>,
    params: &Params,
    schedule: Schedule,
    steps: Seq<InstallStep>,
) -> bool {
    &&& steps.len() == 3
    &&& steps[0] matches InstallStep::SystemdService(service) && service.unit@ == service_text(
        params,
    ) && service.path@ == path_without_extension + ".service"@
    &&& steps[1] matches InstallStep::SystemdTimer(timer) && timer.unit@ == timer_text(
        params,
        schedule,
    ) && timer.path@ == path_without_extension + ".timer"@
    &&& steps[2] matches InstallStep::SystemdEnableTimer(enable) && enable.name@ == params.name@
        && enable.mode == params.mode
}

/// Whether `steps` set up a service that is started on boot: write the
/// unit file of the service, then enable and start the service.
pub open spec fn boot_plan(
    path_without_extension: Seq<char>,
    params: &Params,
    already_running: bool,
    steps: Seq<InstallStep>,
) -> bool {
    &&& steps.len() == 2
    &&& steps[0] matches InstallStep::SystemdService(service) && service.unit@ == service_text(
        params,
    ) && service.path@ == path_without_extension + ".service"@
    &&& steps[1] matches InstallStep::SystemdEnableService(enable) && enable.name@ == params.name@
        && enable.mode == params.mode && enable.start && enable.already_running
        == already_running
}

/// Plans the steps for a service that a timer starts.
pub fn with_timer(path_without_extension: &str, params: &Params, schedule: &Schedule) -> (steps:
    Vec<InstallStep>)
    ensures
        timer_plan(path_without_extension@, params, *schedule, steps@),
{
    proof {
        reveal_strlit(".");
        reveal_strlit("service");
        reveal_strlit(".service");
        reveal_strlit("timer");
        reveal_strlit(".timer");
        assert("."@ + "service"@ =~= ".service"@);
        assert("."@ + "timer"@ =~= ".timer"@);
    }
    let unit = render_service(params);
    let path = with_added_extension(path_without_extension, "service");
    assert(path@ =~= path_without_extension@ + ".service"@);
    let create_service = InstallStep::SystemdService(Service { unit, path });
    let unit = render_timer(params, schedule);
    let path = with_added_extension(path_without_extension, "timer");
    assert(path@ =~= path_without_extension@ + ".timer"@);
    let create_timer = InstallStep::SystemdTimer(Timer { unit, path });
    let enable = InstallStep::SystemdEnableTimer(
        EnableTimer { name: params.name.clone(), mode: params.mode },
    );
    let mut steps: Vec<InstallStep> = Vec::new();
    steps.push(create_service);
    steps.push(create_timer);
    steps.push(enable);
    steps
}

/// Plans the steps for a service that is started on boot. `already_running`
/// says whether a service of that name is active now.
pub fn without_timer(
    path_without_extension: &str,
    params: &Params,
    already_running: bool,
) -> (steps: Vec<InstallStep>)
    ensures
        boot_plan(path_without_extension@, params, already_running, steps@),
{
    proof {
        reveal_strlit(".");
        reveal_strlit("service");
        reveal_strlit(".service");
        assert("."@ + "service"@ =~= ".service"@);
    }
    let unit = render_service(params);
    let path = with_added_extension(path_without_extension, "service");
    assert(path@ =~= path_without_extension@ + ".service"@);
    let create_service = InstallStep::SystemdService(Service { unit, path });
    let enable = InstallStep::SystemdEnableService(
        EnableService {
            name: params.name.clone(),
            mode: params.mode,
            start: true,
            already_running,
        },
    );
    let mut steps: Vec<InstallStep> = Vec::new();
    steps.push(create_service);
    steps.push(enable);
    steps
}

/// The path of the executable is read back from what was written behind
/// `ExecStart=`, whatever the arguments are, as long as the path holds no
/// backslash: quoting for systemd leaves a backslash as it is, and reading
/// takes it for the start of an escape.
pub proof fn lemma_exec_start_round_trip(params: &Params)
    requires
        no_backslash(params.exe_path@),
    ensures
        first_segment(exec_start_text(params)) == Ok::<Seq<char>, UnquoteError>(params.exe_path@),
{
    let args = joined(quoted_args(params.exe_args@), " \\\n\t"@);
    lemma_systemd_escape_round_trip(params.exe_path@, " "@ + args);
    assert(exec_start_text(params) =~= systemd_escaped_text(params.exe_path@) + (" "@ + args));
}

/// No line of the header begins like an `ExecStart=` line.
pub proof fn lemma_header_begins_apart(params: &Params)
    ensures
        forall|i: int|
            0 <= i < header_lines(params).len() ==> begins_apart(
                #[trigger] header_lines(params)[i],
            ),
{
    reveal_strlit("# created by: ");
    reveal_strlit("# might get removed by it in the future.");
    reveal_strlit("# Remove this comment to prevent that");
    reveal_strlit("[Unit]");
    reveal_strlit("Description=");
    reveal_strlit("After=network.target");
    reveal_strlit("[Service]");
    reveal_strlit("Type=simple");
    reveal_strlit("WorkingDirectory=");
    reveal_strlit("User=");
    reveal_strlit("Environment=");
    let fixed = fixed_lines(params);
    let dir = working_dir_lines(params.working_dir);
    let user = user_lines(params.run_as);
    let vars = environment_lines(params.environment@);
    let header = header_lines(params);
    assert(fixed.len() == 10);
    assert(begins_apart(fixed[0]));
    assert(begins_apart(fixed[1]));
    assert(begins_apart(fixed[2]));
    assert(begins_apart(fixed[3]));
    assert(begins_apart(fixed[4]));
    assert(begins_apart(fixed[5]));
    assert(begins_apart(fixed[6]));
    assert(begins_apart(fixed[7]));
    assert(begins_apart(fixed[8]));
    assert(begins_apart(fixed[9]));
    assert forall|i: int| 0 <= i < header.len() implies begins_apart(#[trigger] header[i]) by {
        if i < 10 {
            assert(header[i] == fixed[i]);
        } else if i < 10 + dir.len() {
            assert(header[i] == dir[i - 10]);
            assert(dir[0][0] == 'W');
        } else if i < 10 + dir.len() + user.len() {
            assert(header[i] == user[i - 10 - dir.len()]);
            assert(user[0][0] == 'U');
        } else {
            assert(header[i] == vars[i - 10 - dir.len() - user.len()]);
            assert(vars[0][0] == 'E');
            assert(vars[0][1] == 'n');
        }
    }
}

/// Whether `text` holds no line feed.
pub open spec fn on_one_line(text: Seq<char>) -> bool {
    forall|i: int| 0 <= i < text.len() ==> #[trigger] text[i] != '\n'
}

/// Quoting for systemd puts no line feed into a text that holds none.
pub proof fn lemma_escaped_on_one_line(text: Seq<char>)
    requires
        on_one_line(text),
    ensures
        on_one_line(systemd_escaped_text(text)),
{
    let with = seq!['\\', '"'];
    lemma_replaced_on_one_line(text, with);
    let body = replace_char(text, '"', with);
    let all = systemd_escaped_text(text);
    assert forall|i: int| 0 <= i < all.len() implies #[trigger] all[i] != '\n' by {
        if 0 < i <= body.len() {
            assert(all[i] == body[i - 1]);
        }
    }
}

proof fn lemma_replaced_on_one_line(text: Seq<char>, with: Seq<char>)
    requires
        on_one_line(text),
        on_one_line(with),
    ensures
        on_one_line(replace_char(text, '"', with)),
    decreases text.len(),
{
    if text.len() > 0 {
        assert(on_one_line(text.drop_first())) by {
            assert forall|i: int|
                0 <= i < text.drop_first().len() implies #[trigger] text.drop_first()[i]
                != '\n' by {
                assert(text.drop_first()[i] == text[i + 1]);
            }
        }
        lemma_replaced_on_one_line(text.drop_first(), with);
        let first: Seq<char> = if text[0] == '"' {
            with
        } else {
            seq![text[0]]
        };
        let rest = replace_char(text.drop_first(), '"', with);
        let all = replace_char(text, '"', with);
        assert(all == first + rest);
        assert forall|i: int| 0 <= i < all.len() implies #[trigger] all[i] != '\n' by {
            if i < first.len() {
                assert(all[i] == first[i]);
            } else {
                assert(all[i] == rest[i - first.len()]);
            }
        }
    }
}

/// The path of the executable is read back from the unit file that was
/// written for the service.
///
/// This holds where every line of the header is one line, so that the
/// `ExecStart=` line stands where it was written, and where the path holds
/// neither a line feed nor a backslash.
pub proof fn lemma_service_round_trip(params: &Params)
    requires
        plain_lines(header_lines(params)),
        no_backslash(params.exe_path@),
        on_one_line(params.exe_path@),
    ensures
        exec_start_path(service_text(params)) == Some(
            Ok::<Seq<char>, UnquoteError>(params.exe_path@),
        ),
{
    reveal_strlit("ExecStart=");
    reveal_strlit(" ");
    reveal_strlit("\n");
    let key = "ExecStart="@;
    let exe = systemd_escaped_text(params.exe_path@);
    let args = joined(quoted_args(params.exe_args@), " \\\n\t"@);
    let install = install_section(params.trigger, params.mode);
    let header = header_lines(params);
    let start = key + exe;
    let tail = args + seq!['\n'] + install;
    let n = line_end(tail);
    lemma_line_end_bounds(tail);
    assert(n < tail.len()) by {
        assert(tail[args.len() as int] == '\n');
    }
    let found = seq![' '] + tail.take(n);
    let line = start + found;
    let after = tail.skip(n + 1);
    let written = key + exec_start_text(params) + "\n"@ + install;
    lemma_escaped_on_one_line(params.exe_path@);
    assert(written =~= line + seq!['\n'] + after);
    assert forall|i: int| 0 <= i < line.len() implies #[trigger] line[i] != '\n' by {
        if i < key.len() {
        } else if i < start.len() {
            assert(line[i] == exe[i - key.len()]);
        } else if i > start.len() {
            assert(line[i] == tail[i - start.len() - 1]);
        }
    }
    lemma_lines_of_line(line, after);
    let read = without_cr(line);
    let more = lines_of(after);
    assert(lines_of(service_text(params)) == header + (seq![read] + more)) by {
        lemma_lines_written_then_read(header, written);
        assert(service_text(params) =~= lines_text(header) + written);
    }
    lemma_header_begins_apart(params);
    lemma_exec_value_behind(header, seq![read] + more);
    // The line that is read begins with what was written up to the closing
    // quote of the path; trimming leaves that as it is.
    let behind: Seq<char> = if line.last() == '\r' {
        found.drop_last()
    } else {
        found
    };
    assert(read =~= start + behind);
    assert(start.last() == '"');
    assert(!is_whitespace('"'));
    assert(!is_whitespace('E'));
    assert(read[0] == 'E');
    assert(trim_start(read) == read);
    lemma_trim_end_after(start, behind);
    let trimmed = trim(read);
    assert(trimmed =~= key + (exe + trim_end(behind)));
    assert(trimmed.subrange(0, key.len() as int) =~= key);
    assert(key.is_prefix_of(trimmed));
    assert(trimmed.skip(key.len() as int) =~= exe + trim_end(behind));
    assert((seq![read] + more)[0] == read);
    assert(exec_start_value(seq![read] + more) == Some(exe + trim_end(behind)));
    lemma_systemd_escape_round_trip(params.exe_path@, trim_end(behind));
}

} // verus!
