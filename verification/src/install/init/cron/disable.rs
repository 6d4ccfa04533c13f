//! Stopping a service that cron started and that keeps the install
//! location busy.

use vstd::prelude::*;
use crate::text::opt_text;
use vstd::string::*;
use crate::Tense;
use crate::install::InstallStep;
use crate::install::init::{autogenerated_comment, comment_text};
use crate::install::init::cron::{copy_line, copy_lines, find_block, first_block, line_texts,
    same_line, same_lines, texts_of, GetCrontabError, Line};
use crate::install::init::cron::setup::RemovePrevious;
use crate::install::init::cron::teardown::{from_rule, owned, rule_path, CrontabChanged};
use crate::paths::{file_name, file_name_of};
use crate::text::{opt_chars, chars_of, decimal, join_lines, lines_of, lines_text, push_decimal,
    skip_whitespace, split_lines, str_eq, texts, trim_start};

verus! {

/// Why a service that cron started could not be disabled.
#[derive(Debug, Clone, PartialEq, Eq)]
pub enum Error {
    /// The crontab could not be read.
    GetCrontab(GetCrontabError),
    /// No rule of the crontab starts the target.
    NoRuleFound,
    /// The process that cron started does not stop.
    FailedToStop,
}

impl Error {
    /// What the error says.
    pub open spec fn message(&self) -> Seq<char> {
        match self {
            Error::GetCrontab(_) => "Could not get the current crontab"@,
            Error::NoRuleFound => "Failed to find a rule starting the target"@,
            Error::FailedToStop => "Process spawnedby cron will not stop"@,
        }
    }

    /// Says what went wrong.
    pub fn to_string(&self) -> (text: String)
        ensures
            text@ == self.message(),
    {
        match self {
            Error::GetCrontab(_) => String::from_str("Could not get the current crontab"),
            Error::NoRuleFound => String::from_str("Failed to find a rule starting the target"),
            Error::FailedToStop => String::from_str("Process spawnedby cron will not stop"),
        }
    }
}

/// A signal that is sent to a process to end it.
#[derive(Debug, Clone, Copy, PartialEq, Eq, Structural)]
pub enum Signal {
    Stop,
    Kill,
    Abort,
}

/// What to do next about a process that is to end.
#[derive(Debug, Clone, Copy, PartialEq, Eq, Structural)]
pub enum KillDecision {
    /// The process is gone: the step is done.
    Stopped,
    /// Look again after this many milliseconds.
    Wait(u64),
    /// Send this signal now.
    Send(Signal),
    /// The process does not end: the step has failed.
    CouldNotStop,
}

/// The milliseconds that pass before the next, stronger signal is sent.
pub const ESCALATE_MS: u64 = 200;

/// The milliseconds between two looks at a process that could not be
/// signalled.
pub const RETRY_MS: u64 = 100;

/// How often a process that could not be signalled is looked at.
pub const RETRIES: u8 = 10;

/// The step that stops a process that cron started.
#[derive(Debug, Clone, Copy, PartialEq, Eq, Structural)]
pub struct Kill {
    pub pid: u32,
}

impl Kill {
    /// The signals in the order in which they are tried.
    pub open spec fn signal(n: int) -> Option<Signal> {
        if n == 0 {
            Some(Signal::Stop)
        } else if n == 1 {
            Some(Signal::Kill)
        } else if n == 2 {
            Some(Signal::Abort)
        } else {
            None
        }
    }

    /// Decides what to do about the process.
    ///
    /// `alive` says whether it is still in the process table, `sent` how
    /// many signals it was sent, and `since_last_ms` how long ago the last
    /// one was; before the first signal that counts as long enough. A
    /// process that is gone ends the step well. Else, after `ESCALATE_MS`
    /// the next signal is due: `Stop`, then `Kill`, then `Abort`; when all
    /// three were sent the step has failed.
    pub fn decide(&self, alive: bool, sent: u8, since_last_ms: u64) -> (next: KillDecision)
        ensures
            next == (if !alive {
                KillDecision::Stopped
            } else if sent > 0 && since_last_ms < ESCALATE_MS {
                KillDecision::Wait((ESCALATE_MS - since_last_ms) as u64)
            } else {
                match Self::signal(sent as int) {
                    Some(signal) => KillDecision::Send(signal),
                    None => KillDecision::CouldNotStop,
                }
            }),
    {
        if !alive {
            KillDecision::Stopped
        } else if sent > 0 && since_last_ms < ESCALATE_MS {
            KillDecision::Wait(ESCALATE_MS - since_last_ms)
        } else if sent == 0 {
            KillDecision::Send(Signal::Stop)
        } else if sent == 1 {
            KillDecision::Send(Signal::Kill)
        } else if sent == 2 {
            KillDecision::Send(Signal::Abort)
        } else {
            KillDecision::CouldNotStop
        }
    }

    /// Decides what to do when a signal could not be delivered.
    ///
    /// `looks` says how often the process was looked at since. A process
    /// that is gone ends the step well; one that is still there is looked
    /// at again after `RETRY_MS`, `RETRIES` times in all, and then the step
    /// has failed.
    pub fn decide_undelivered(&self, alive: bool, looks: u8) -> (next: KillDecision)
        ensures
            next == (if !alive {
                KillDecision::Stopped
            } else if looks < RETRIES {
                KillDecision::Wait(RETRY_MS)
            } else {
                KillDecision::CouldNotStop
            }),
    {
        if !alive {
            KillDecision::Stopped
        } else if looks < RETRIES {
            KillDecision::Wait(RETRY_MS)
        } else {
            KillDecision::CouldNotStop
        }
    }

    /// The one line that says what the step does.
    pub open spec fn description(&self, tense: Tense) -> Seq<char> {
        tense.pick_text("Stopped"@, "Stop"@, "Will stop"@, "Stopping"@)
            + " the service started by cron with pid: `"@ + decimal(self.pid as nat) + "`"@
    }

    /// What the step does, with the signals it uses.
    pub open spec fn detailed_description(&self, tense: Tense) -> Seq<char> {
        self.description(tense)
            + "\n| using signal:\n|\t - Stop\n| if that does not work:\n|\t - Kill\n| and if that fails:\n|\t - Abort"@
    }

    /// Says in one line what the step does.
    pub fn describe(&self, tense: Tense) -> (text: String)
        ensures
            text@ == self.description(tense),
    {
        let mut text = String::from_str(tense.pick("Stopped", "Stop", "Will stop", "Stopping"));
        text.append(" the service started by cron with pid: `");
        push_decimal(&mut text, self.pid as u64);
        text.append("`");
        text
    }

    /// Says what the step does and names the signals in the order in which
    /// they are tried.
    pub fn describe_detailed(&self, tense: Tense) -> (text: String)
        ensures
            text@ == self.detailed_description(tense),
    {
        let mut text = self.describe(tense);
        text.append(
            "\n| using signal:\n|\t - Stop\n| if that does not work:\n|\t - Kill\n| and if that fails:\n|\t - Abort",
        );
        text
    }
}

/// The lines with the text at index `at` replaced by `text`.
pub open spec fn with_line(lines: Seq<Line>, at: int, text: Seq<char>) -> Seq<Seq<char>> {
    line_texts(lines).update(at, text)
}

fn replace_line(current: &Vec<Line>, from: &Line, to: &str) -> (text: Result<
    String,
    CrontabChanged,
>)
    ensures
        text is Ok <==> from.pos < current.len() && current[from.pos as int].text@ == from.text@,
        text matches Ok(t) ==> t@ == lines_text(with_line(current@, from.pos as int, to@)),
{
    if from.pos >= current.len() || !str_eq(
        current[from.pos].text.as_str(),
        from.text.as_str(),
    ) {
        return Err(CrontabChanged);
    }
    let mut all = texts_of(current);
    let ghost before = texts(all@);
    assert(before.len() == all.len());
    assert(line_texts(current@).len() == current.len());
    all.set(from.pos, String::from_str(to));
    assert(texts(all@) =~= with_line(current@, from.pos as int, to@)) by {
        assert forall|k: int| 0 <= k < all.len() implies texts(all@)[k] == with_line(
            current@,
            from.pos as int,
            to@,
        )[k] by {
            if k != from.pos {
                assert(before[k] == line_texts(current@)[k]);
            }
        }
    }
    Ok(join_lines(&all))
}

/// The step that turns a rule of the crontab into a comment, so that cron
/// no longer starts what it names.
#[derive(Debug, Clone, PartialEq, Eq)]
pub struct CommentOutRule {
    /// The rule, as it was read.
    pub rule: Line,
    /// The user whose crontab it is; the caller's own where there is none.
    pub user: Option<String>,
}

impl CommentOutRule {
    /// The one line that says what the step does.
    pub open spec fn description(&self, tense: Tense) -> Seq<char> {
        tense.pick_text(
            "Commented out"@,
            "Comment out"@,
            "Will comment out"@,
            "Commenting out"@,
        ) + " a cron rule that is preventing the installation"@
    }

    /// What the step does, with the rule.
    pub open spec fn detailed_description(&self, tense: Tense) -> Seq<char> {
        self.description(tense) + "\n| rule:\n|\t"@ + self.rule.numbered_text()
    }

    /// Says in one line what the step does.
    pub fn describe(&self, tense: Tense) -> (text: String)
        ensures
            text@ == self.description(tense),
    {
        let mut text = String::from_str(
            tense.pick("Commented out", "Comment out", "Will comment out", "Commenting out"),
        );
        text.append(" a cron rule that is preventing the installation");
        text
    }

    /// Says what the step does and shows the rule with its number.
    pub fn describe_detailed(&self, tense: Tense) -> (text: String)
        ensures
            text@ == self.detailed_description(tense),
    {
        let mut text = self.describe(tense);
        text.append("\n| rule:\n|\t");
        let rule = self.rule.to_string();
        text.append(rule.as_str());
        text
    }

    /// The rule as a comment: `# ` and the rule.
    pub open spec fn commented_text(&self) -> Seq<char> {
        "# "@ + self.rule.text@
    }

    /// The rule as a comment, at the index of the rule.
    pub fn commented(&self) -> (line: Line)
        ensures
            line.pos == self.rule.pos,
            line.text@ == self.commented_text(),
    {
        let mut text = String::from_str("# ");
        text.append(self.rule.text.as_str());
        Line { pos: self.rule.pos, text }
    }

    /// The text to write to the crontab that was just read: every line as
    /// it is, but the rule as a comment. Where the rule no longer stands at
    /// its index with its text, `CrontabChanged`.
    pub fn new_crontab(&self, current: &Vec<Line>) -> (text: Result<String, CrontabChanged>)
        ensures
            text is Ok <==> self.rule.pos < current.len() && current[self.rule.pos as int].text@
                == self.rule.text@,
            text matches Ok(t) ==> t@ == lines_text(
                with_line(current@, self.rule.pos as int, self.commented_text()),
            ),
    {
        let commented = self.commented();
        replace_line(current, &self.rule, commented.text.as_str())
    }

    /// The step that undoes this one.
    pub fn rollback(&self) -> (undo: RollbackCommentOut)
        ensures
            same_line(undo.original_rule, self.rule),
            undo.commented_rule.pos == self.rule.pos,
            undo.commented_rule.text@ == self.commented_text(),
            opt_text(undo.user) == opt_text(self.user),
    {
        RollbackCommentOut {
            commented_rule: self.commented(),
            original_rule: copy_line(&self.rule),
            user: match &self.user {
                Some(user) => Some(user.clone()),
                None => None,
            },
        }
    }
}

/// The step that turns a rule that was made a comment into a rule again.
#[derive(Debug, Clone, PartialEq, Eq)]
pub struct RollbackCommentOut {
    /// The rule as a comment.
    pub commented_rule: Line,
    /// The rule as it was.
    pub original_rule: Line,
    /// The user whose crontab it is; the caller's own where there is none.
    pub user: Option<String>,
}

impl RollbackCommentOut {
    /// What the step says of itself.
    pub open spec fn description(&self, tense: Tense) -> Seq<char> {
        tense.pick_text("Uncommented"@, "Uncomment"@, "Will uncomment"@, "Uncommenting"@)
            + " a cron rule that was commented out as it prevented the installation\n| rule:\n|\t"@
            + self.commented_rule.numbered_text()
    }

    /// Says what the step does and shows the comment with its number.
    pub fn describe(&self, tense: Tense) -> (text: String)
        ensures
            text@ == self.description(tense),
    {
        let mut text = String::from_str(
            tense.pick("Uncommented", "Uncomment", "Will uncomment", "Uncommenting"),
        );
        text.append(
            " a cron rule that was commented out as it prevented the installation\n| rule:\n|\t",
        );
        let rule = self.commented_rule.to_string();
        text.append(rule.as_str());
        text
    }

    /// The text to write to the crontab that was just read: every line as
    /// it is, but the rule in place of the comment. Where the comment no
    /// longer stands at its index with its text, `CrontabChanged`.
    pub fn new_crontab(&self, current: &Vec<Line>) -> (text: Result<String, CrontabChanged>)
        ensures
            text is Ok <==> self.commented_rule.pos < current.len()
                && current[self.commented_rule.pos as int].text@ == self.commented_rule.text@,
            text matches Ok(t) ==> t@ == lines_text(
                with_line(current@, self.commented_rule.pos as int, self.original_rule.text@),
            ),
    {
        replace_line(current, &self.commented_rule, self.original_rule.text.as_str())
    }
}

/// The path that the line of a crontab starts, where the line is a rule:
/// neither empty nor a comment.
pub open spec fn started_by(line: Seq<char>) -> Option<Seq<char>> {
    let t = trim_start(line);
    if t.len() == 0 || t[0] == '#' {
        None
    } else {
        Some(rule_path(line))
    }
}

/// Whether `at` is the first line of `lines` that is a rule which starts
/// `target`.
pub open spec fn is_first_rule_for(lines: Seq<Line>, target: Seq<char>, at: int) -> bool {
    0 <= at < lines.len() && started_by(lines[at].text@) == Some(target) && forall|k: int|
        0 <= k < at ==> started_by(#[trigger] lines[k].text@) != Some(target)
}

/// The index of the first line of `lines` that is a rule which starts
/// `target`, if there is one.
pub open spec fn first_rule_for(lines: Seq<Line>, target: Seq<char>) -> Option<int> {
    if exists|at: int| is_first_rule_for(lines, target, at) {
        Some(choose|at: int| is_first_rule_for(lines, target, at))
    } else {
        None
    }
}

impl Line {
    /// Reads the path of the executable that the line starts, where the
    /// line is a rule: neither empty nor a comment.
    pub fn exec(&self) -> (path: Option<String>)
        ensures
            crate::text::opt_text(path) == started_by(self.text@),
    {
        let v = chars_of(self.text.as_str());
        assert(v@.skip(0) =~= v@);
        let at = skip_whitespace(&v, 0);
        if at == v.len() || v[at] == '#' {
            assert(trim_start(v@).len() > 0 ==> trim_start(v@)[0] == v@[at as int]);
            None
        } else {
            assert(trim_start(v@)[0] == v@[at as int]);
            Some(from_rule(self.text.as_str()))
        }
    }
}

/// Finds the first line of the crontab that is a rule which starts
/// `target`.
pub fn find_rule(crontab: &Vec<Line>, target: &str) -> (found: Option<usize>)
    ensures
        first_rule_for(crontab@, target@) == (match found {
            Some(at) => Some(at as int),
            None => None,
        }),
        found matches Some(at) ==> at < crontab.len(),
{
    let mut i: usize = 0;
    while i < crontab.len()
        invariant
            i <= crontab.len(),
            forall|k: int| 0 <= k < i ==> started_by(#[trigger] crontab[k].text@) != Some(target@),
        decreases crontab.len() - i,
    {
        if let Some(path) = crontab[i].exec() {
            if str_eq(path.as_str(), target) {
                proof {
                    assert(is_first_rule_for(crontab@, target@, i as int));
                    let chosen = choose|c: int| is_first_rule_for(crontab@, target@, c);
                    if chosen < i {
                        assert(started_by(crontab@[chosen].text@) != Some(target@));
                    }
                    if i < chosen {
                        assert(started_by(crontab@[i as int].text@) != Some(target@));
                    }
                }
                return Some(i);
            }
        }
        i += 1;
    }
    proof {
        assert forall|c: int| !is_first_rule_for(crontab@, target@, c) by {
            if 0 <= c < crontab.len() {
                assert(started_by(crontab@[c].text@) != Some(target@));
            }
        }
    }
    None
}

/// The first block of the landmark comment of the binary that `target`
/// names, where `target` names one.
pub open spec fn block_of_target(target: Seq<char>, crontab: Seq<Line>) -> Option<(int, int)> {
    match file_name_of(target) {
        Some(name) => match first_block(line_texts(crontab), lines_of(comment_text(name))) {
            Some(at) => Some((at, lines_of(comment_text(name)).len() as int)),
            None => None,
        },
        None => None,
    }
}

/// What disabling plans. The last step always stops the process `pid`.
/// Before it, where the crontab holds the landmark comment of the binary
/// that `target` names with a rule behind it, that comment and rule are
/// removed; else, where it holds a rule that starts `target`, the first such
/// rule is made a comment.
pub open spec fn disable_plan(
    target: Seq<char>,
    pid: u32,
    run_as: Option<Seq<char>>,
    crontab: Seq<Line>,
    steps: Seq<InstallStep>,
) -> bool {
    &&& steps.len() >= 1
    &&& steps.last() == InstallStep::CronKill(Kill { pid })
    &&& match block_of_target(target, crontab) {
        Some((at, len)) => {
            &&& steps.len() == 2
            &&& steps[0] matches InstallStep::CronRemovePrevious(remove)
            &&& same_lines(remove.comments@, crontab.subrange(at, at + len))
            &&& same_line(remove.rule, crontab[at + len])
            &&& opt_text(remove.user) == run_as
        },
        None => match first_rule_for(crontab, target) {
            Some(at) => {
                &&& steps.len() == 2
                &&& steps[0] matches InstallStep::CronCommentOutRule(out)
                &&& same_line(out.rule, crontab[at])
                &&& opt_text(out.user) == run_as
            },
            None => steps.len() == 1,
        },
    }
}

fn find_block_of_target(target: &str, crontab: &Vec<Line>) -> (found: Option<(usize, usize)>)
    ensures
        block_of_target(target@, crontab@) == (match found {
            Some((at, len)) => Some((at as int, len as int)),
            None => None,
        }),
        found matches Some((at, len)) ==> at + len < crontab.len(),
{
    let bin_name = match file_name(target) {
        Some(name) => name,
        None => {
            return None;
        },
    };
    let landmark_comment = autogenerated_comment(bin_name.as_str());
    let comment = split_lines(landmark_comment.as_str());
    assert(texts(comment@).len() == comment.len());
    match find_block(crontab, &comment) {
        Some(at) => Some((at, comment.len())),
        None => None,
    }
}

/// Plans the steps that keep cron from running `target` and stop the
/// process `pid` that it started.
pub fn step(target: &str, pid: u32, run_as: Option<&str>, crontab: &Vec<Line>) -> (steps: Vec<
    InstallStep,
>)
    ensures
        disable_plan(
            target@,
            pid,
            opt_chars(run_as),
            crontab@,
            steps@,
        ),
{
    let mut steps: Vec<InstallStep> = Vec::new();
    if let Some((at, len)) = find_block_of_target(target, crontab) {
        steps.push(
            InstallStep::CronRemovePrevious(
                RemovePrevious {
                    comments: copy_lines(crontab, at, at + len),
                    rule: copy_line(&crontab[at + len]),
                    user: owned(run_as),
                },
            ),
        );
    } else if let Some(at) = find_rule(crontab, target) {
        steps.push(
            InstallStep::CronCommentOutRule(
                CommentOutRule { rule: copy_line(&crontab[at]), user: owned(run_as) },
            ),
        );
    }
    steps.push(InstallStep::CronKill(Kill { pid }));
    steps
}

} // verus!
