//! Setting a service up in the crontab.

use vstd::prelude::*;
use crate::text::opt_text;
use vstd::string::*;
use crate::Tense;
use crate::schedule::Schedule;
use crate::install::InstallStep;
use crate::install::builder::Trigger;
use crate::install::init::{autogenerated_comment, comment_text, shell_escaped_text, Params,
    ShellEscape};
use crate::install::init::cron::{block_at, copy_line, copy_lines, find_block, first_block,
    lemma_first_block_of_one, line_texts, owner_text, push_owner, same_line, same_lines, Line,
    GetCrontabError};
use crate::install::init::cron::teardown::{kept, leaving, still_there, without_block,
    CrontabChanged};
use crate::text::{decimal, join_lines, join_strings, joined, lines_of, lines_text, push_decimal,
    push_replaced, replace_char, split_lines, texts, plain_line, plain_lines,
    lemma_lines_written_then_read, lemma_lines_text_of_both, lemma_lines_of_closed,
    lemma_lines_of_first};
use crate::install::init::{comment_lines, lemma_comment_lines};
use crate::install::init::cron::{free_of, numbered, starts_apart, lemma_one_block_after_append};

verus! {

/// Why a service could not be set up in the crontab.
#[derive(Debug, Clone, PartialEq, Eq)]
pub enum Error {
    /// Listing the crontab failed.
    ListFailed { stderr: String },
    /// The crontab could not be read.
    GetCrontab(GetCrontabError),
    /// The comment of an earlier installation stands at the end of the
    /// crontab, with no rule behind it.
    CrontabCorrupt,
    /// The input of the crontab program could not be opened.
    StdinClosed,
    /// The new table could not be handed to the crontab program.
    WritingStdin(crate::install::IoError),
    /// The crontab program could not be waited for.
    FailedToWait(crate::install::IoError),
    /// The crontab was changed while the installation ran.
    CrontabChanged,
    /// No earlier installation stands in the crontab.
    NoExistingInstallFound,
}

/// The time fields of a rule: `@reboot`, or minute and hour of the day and
/// a star for day, month and weekday.
pub open spec fn when_text(trigger: Trigger) -> Seq<char> {
    match trigger {
        Trigger::OnBoot => "@reboot"@,
        Trigger::OnSchedule(Schedule::Daily(time)) => decimal(time.parts().1) + " "@ + decimal(
            time.parts().0,
        ) + " * * *"@,
    }
}

/// The shell words of `args`.
pub open spec fn escaped_args(args: Seq<String>) -> Seq<Seq<char>> {
    Seq::new(args.len(), |i: int| shell_escaped_text(args[i]@))
}

/// The assignments `NAME=value` of `environment`, name and value as shell
/// words.
pub open spec fn escaped_vars(environment: Seq<(String, String)>) -> Seq<Seq<char>> {
    Seq::new(
        environment.len(),
        |i: int|
            shell_escaped_text(environment[i].0@) + "="@ + shell_escaped_text(environment[i].1@),
    )
}

/// The change of directory before the command: `cd`, the directory as a
/// shell word and `&&`; nothing where no directory is set.
pub open spec fn cd_text(working_dir: Option<String>) -> Seq<char> {
    match working_dir {
        Some(dir) => "cd "@ + shell_escaped_text(dir@) + " && "@,
        None => Seq::empty(),
    }
}

/// The export of the environment before the command: `export`, the
/// assignments and a semicolon; nothing where the environment is empty.
pub open spec fn export_text(environment: Seq<(String, String)>) -> Seq<char> {
    if environment.len() == 0 {
        Seq::empty()
    } else {
        "export "@ + joined(escaped_vars(environment), " "@) + "; "@
    }
}

/// The command of a rule: the change of directory, the export of the
/// environment, the executable as a shell word, a space and the arguments as
/// shell words.
pub open spec fn command_text(params: &Params) -> Seq<char> {
    cd_text(params.working_dir) + export_text(params.environment@) + shell_escaped_text(
        params.exe_path@,
    ) + " "@ + joined(escaped_args(params.exe_args@), " "@)
}

/// The rule that starts the service: the time fields, a space and the
/// command.
pub open spec fn rule_text(params: &Params) -> Seq<char> {
    when_text(params.trigger) + " "@ + command_text(params)
}

fn render_when(trigger: &Trigger) -> (fields: String)
    ensures
        fields@ == when_text(*trigger),
{
    match trigger {
        Trigger::OnBoot => String::from_str("@reboot"),
        Trigger::OnSchedule(Schedule::Daily(time)) => {
            let mut fields = String::new();
            push_decimal(&mut fields, time.minute() as u64);
            fields.append(" ");
            push_decimal(&mut fields, time.hour() as u64);
            fields.append(" * * *");
            assert(fields@ =~= when_text(*trigger));
            fields
        },
    }
}

fn render_args(args: &Vec<String>) -> (words: Vec<String>)
    ensures
        texts(words@) == escaped_args(args@),
{
    let mut words: Vec<String> = Vec::new();
    let mut i: usize = 0;
    while i < args.len()
        invariant
            i <= args.len(),
            words.len() == i,
            forall|k: int| 0 <= k < i ==> (#[trigger] words[k])@ == shell_escaped_text(args[k]@),
        decreases args.len() - i,
    {
        words.push(args[i].shell_escaped());
        i += 1;
    }
    assert(texts(words@) =~= escaped_args(args@));
    words
}

fn render_vars(environment: &Vec<(String, String)>) -> (words: Vec<String>)
    ensures
        texts(words@) == escaped_vars(environment@),
{
    let mut words: Vec<String> = Vec::new();
    let mut i: usize = 0;
    while i < environment.len()
        invariant
            i <= environment.len(),
            words.len() == i,
            forall|k: int|
                0 <= k < i ==> (#[trigger] words[k])@ == shell_escaped_text(environment[k].0@)
                    + "="@ + shell_escaped_text(environment[k].1@),
        decreases environment.len() - i,
    {
        let mut word = environment[i].0.shell_escaped();
        word.append("=");
        let value = environment[i].1.shell_escaped();
        word.append(value.as_str());
        words.push(word);
        i += 1;
    }
    assert(texts(words@) =~= escaped_vars(environment@));
    words
}

/// Writes the rule that starts the service.
pub fn render_rule(params: &Params) -> (rule: String)
    ensures
        rule@ == rule_text(params),
{
    let mut rule = render_when(&params.trigger);
    rule.append(" ");
    let ghost start = rule@;
    match &params.working_dir {
        Some(dir) => {
            rule.append("cd ");
            let dir = dir.shell_escaped();
            rule.append(dir.as_str());
            rule.append(" && ");
            assert(rule@ =~= start + cd_text(params.working_dir));
        },
        None => {
            assert(rule@ =~= start + cd_text(params.working_dir));
        },
    }
    let ghost with_cd = rule@;
    if params.environment.len() > 0 {
        rule.append("export ");
        let vars = join_strings(&render_vars(&params.environment), " ");
        rule.append(vars.as_str());
        rule.append("; ");
        assert(rule@ =~= with_cd + export_text(params.environment@));
    } else {
        assert(rule@ =~= with_cd + export_text(params.environment@));
    }
    let exe = params.exe_path.shell_escaped();
    rule.append(exe.as_str());
    rule.append(" ");
    let args = join_strings(&render_args(&params.exe_args), " ");
    rule.append(args.as_str());
    assert(rule@ =~= rule_text(params));
    rule
}

/// The step that appends the landmark comment and the rule to the crontab.
#[derive(Debug, Clone, PartialEq, Eq)]
pub struct Add {
    /// The user whose crontab it is; the caller's own where there is none.
    pub user: Option<String>,
    /// The landmark comment.
    pub comment: String,
    /// The rule that starts the service.
    pub rule: String,
}

impl Add {
    /// The one line that says what the step does.
    pub open spec fn description(&self, tense: Tense) -> Seq<char> {
        tense.pick_text("Appended"@, "Append"@, "Will append"@, "Appending"@)
            + " comment and rule to "@ + owner_text(self.user) + "crontab"@ + tense.punct_text()
    }

    /// What the step does, with the comment and the rule.
    pub open spec fn detailed_description(&self, tense: Tense) -> Seq<char> {
        self.description(tense) + "\n| comment:\n|\t"@ + replace_char(
            self.comment@,
            '\n',
            "\n|\t"@,
        ) + "\n| rule:\n|\t"@ + self.rule@
    }

    /// Says in one line what the step does.
    pub fn describe(&self, tense: Tense) -> (text: String)
        ensures
            text@ == self.description(tense),
    {
        let mut text = String::from_str(
            tense.pick("Appended", "Append", "Will append", "Appending"),
        );
        text.append(" comment and rule to ");
        push_owner(&mut text, &self.user);
        text.append("crontab");
        text.append(tense.punct());
        text
    }

    /// Says what the step does and shows the comment and the rule.
    pub fn describe_detailed(&self, tense: Tense) -> (text: String)
        ensures
            text@ == self.detailed_description(tense),
    {
        let mut text = self.describe(tense);
        text.append("\n| comment:\n|\t");
        push_replaced(&mut text, self.comment.as_str(), '\n', "\n|\t");
        text.append("\n| rule:\n|\t");
        text.append(self.rule.as_str());
        text
    }

    /// The crontab with the comment and the rule at its end.
    pub open spec fn appended(&self, current: Seq<Line>) -> Seq<char> {
        lines_text(line_texts(current).push(self.comment@).push(self.rule@))
    }

    /// The text to write to the crontab: every line that it holds now, then
    /// the comment, then the rule, each closed by a line feed.
    pub fn new_crontab(&self, current: &Vec<Line>) -> (text: String)
        ensures
            text@ == self.appended(current@),
    {
        let mut all = crate::install::init::cron::texts_of(current);
        let ghost lines = all@;
        all.push(self.comment.clone());
        all.push(self.rule.clone());
        assert(texts(all@) =~= line_texts(current@).push(self.comment@).push(self.rule@)) by {
            assert forall|k: int| 0 <= k < lines.len() implies texts(all@)[k] == line_texts(
                current@,
            )[k] by {
                assert(texts(lines)[k] == line_texts(current@)[k]);
            }
        }
        join_lines(&all)
    }
}

/// The lines of the numbered `lines`, each on a line of its own behind a
/// bar and a tab.
pub open spec fn listed_text(lines: Seq<Line>) -> Seq<char>
    decreases lines.len(),
{
    if lines.len() == 0 {
        Seq::empty()
    } else {
        listed_text(lines.drop_last()) + "\n|\t"@ + lines.last().numbered_text()
    }
}

/// Appends the numbered `lines` to `out`, each on a line of its own behind
/// a bar and a tab.
pub fn push_listed(out: &mut String, lines: &Vec<Line>)
    ensures
        final(out)@ == old(out)@ + listed_text(lines@),
{
    let mut i: usize = 0;
    assert(out@ =~= old(out)@ + listed_text(lines@.take(0)));
    while i < lines.len()
        invariant
            i <= lines.len(),
            out@ == old(out)@ + listed_text(lines@.take(i as int)),
        decreases lines.len() - i,
    {
        out.append("\n|\t");
        let shown = lines[i].to_string();
        out.append(shown.as_str());
        assert(lines@.take(i + 1).drop_last() =~= lines@.take(i as int));
        assert(out@ =~= old(out)@ + listed_text(lines@.take(i + 1)));
        i += 1;
    }
    assert(lines@.take(lines.len() as int) =~= lines@);
}

/// The step that takes the comment and rule of an earlier installation out
/// of the crontab.
#[derive(Debug, Clone, PartialEq, Eq)]
pub struct RemovePrevious {
    /// The lines of the comment, as they were read.
    pub comments: Vec<Line>,
    /// The rule behind the comment, as it was read.
    pub rule: Line,
    /// The user whose crontab it is; the caller's own where there is none.
    pub user: Option<String>,
}

impl RemovePrevious {
    /// The one line that says what the step does.
    pub open spec fn description(&self, tense: Tense) -> Seq<char> {
        tense.pick_text("Removed"@, "Remove"@, "Will remove"@, "Removing"@)
            + " comment and rule from previous installation from "@ + owner_text(self.user)
            + "crontab"@ + tense.punct_text()
    }

    /// What the step does, with the lines that it removes.
    pub open spec fn detailed_description(&self, tense: Tense) -> Seq<char> {
        tense.pick_text("Removed"@, "Remove"@, "Will remove"@, "Removing"@)
            + " a comment and rule from previous installation from "@ + owner_text(self.user)
            + "crontab"@ + tense.punct_text() + "\n| comment:\t"@ + listed_text(self.comments@)
            + "\n| rule:\n|\t"@ + self.rule.numbered_text()
    }

    /// The text to write to the crontab that was just read, or
    /// `CrontabChanged` where a line that is to leave no longer stands as it
    /// was.
    pub fn new_crontab(&self, current: &Vec<Line>) -> (text: Result<String, CrontabChanged>)
        ensures
            text is Ok <==> still_there(current@, leaving(self.rule, self.comments@)),
            text matches Ok(t) ==> t@ == lines_text(
                kept(current@, leaving(self.rule, self.comments@), current.len() as int),
            ),
    {
        without_block(current, &self.rule, &self.comments)
    }

    /// Says in one line what the step does.
    pub fn describe(&self, tense: Tense) -> (text: String)
        ensures
            text@ == self.description(tense),
    {
        let mut text = String::from_str(tense.pick("Removed", "Remove", "Will remove", "Removing"));
        text.append(" comment and rule from previous installation from ");
        push_owner(&mut text, &self.user);
        text.append("crontab");
        text.append(tense.punct());
        text
    }

    /// Says what the step does and shows the lines that it removes, each
    /// with its number.
    pub fn describe_detailed(&self, tense: Tense) -> (text: String)
        ensures
            text@ == self.detailed_description(tense),
    {
        let mut text = String::from_str(tense.pick("Removed", "Remove", "Will remove", "Removing"));
        text.append(" a comment and rule from previous installation from ");
        push_owner(&mut text, &self.user);
        text.append("crontab");
        text.append(tense.punct());
        text.append("\n| comment:\t");
        push_listed(&mut text, &self.comments);
        text.append("\n| rule:\n|\t");
        let rule = self.rule.to_string();
        text.append(rule.as_str());
        text
    }
}

/// Whether `step` appends the landmark comment of the binary of `params`
/// and the rule that starts the service, to the crontab of the user it runs
/// as.
pub open spec fn adds_rule(step: InstallStep, params: &Params) -> bool {
    &&& step matches InstallStep::CronAdd(add)
    &&& add.comment@ == comment_text(params.bin_name@)
    &&& add.rule@ == rule_text(params)
    &&& opt_text(add.user) == opt_text(params.run_as)
}

/// Whether `step` removes the comment of `len` lines that stands in
/// `current` at index `at`, and the rule behind it.
pub open spec fn removes_block(
    step: InstallStep,
    current: Seq<Line>,
    at: int,
    len: int,
    user: Option<String>,
) -> bool {
    &&& step matches InstallStep::CronRemovePrevious(remove)
    &&& same_lines(remove.comments@, current.subrange(at, at + len))
    &&& same_line(remove.rule, current[at + len])
    &&& opt_text(remove.user) == opt_text(user)
}

/// What setting up plans for the crontab `current`: where a landmark
/// comment of the binary stands in it with a rule behind it, first the
/// removal of the first such block; then, always, the appending of comment
/// and rule.
pub open spec fn set_up_plan(params: &Params, current: Seq<Line>, steps: Seq<InstallStep>) -> bool {
    let comment = lines_of(comment_text(params.bin_name@));
    match first_block(line_texts(current), comment) {
        Some(at) => {
            &&& steps.len() == 2
            &&& removes_block(steps[0], current, at, comment.len() as int, params.run_as)
            &&& adds_rule(steps[1], params)
        },
        None => {
            &&& steps.len() == 1
            &&& adds_rule(steps[0], params)
        },
    }
}

fn copy_text(text: &Option<String>) -> (copy: Option<String>)
    ensures
        opt_text(copy) == opt_text(*text),
{
    match text {
        Some(t) => Some(t.clone()),
        None => None,
    }
}

/// Plans the steps that set the service up in the crontab `current`.
///
/// An earlier installation by the same binary is recognised by its landmark
/// comment; its comment and rule are removed first. Then the comment and the
/// new rule are appended.
pub fn set_up_steps(params: &Params, current: &Vec<Line>) -> (steps: Vec<InstallStep>)
    ensures
        set_up_plan(params, current@, steps@),
{
    let landmark_comment = autogenerated_comment(params.bin_name.as_str());
    let comment = split_lines(landmark_comment.as_str());
    let to_remove = find_block(current, &comment);
    let mut steps: Vec<InstallStep> = Vec::new();
    if let Some(at) = to_remove {
        assert(texts(comment@).len() == comment.len());
        steps.push(
            InstallStep::CronRemovePrevious(
                RemovePrevious {
                    comments: copy_lines(current, at, at + comment.len()),
                    rule: copy_line(&current[at + comment.len()]),
                    user: copy_text(&params.run_as),
                },
            ),
        );
    }
    let rule = render_rule(params);
    steps.push(
        InstallStep::CronAdd(
            Add { user: copy_text(&params.run_as), comment: landmark_comment, rule },
        ),
    );
    steps
}

/// What is read back after comment and rule were appended to plain lines:
/// those lines, the lines of the comment, and the rule.
pub proof fn lemma_lines_after_append(
    lines: Seq<Seq<char>>,
    bin_name: Seq<char>,
    rule: Seq<char>,
)
    requires
        plain_lines(lines),
        plain_line(rule),
        forall|i: int| 0 <= i < bin_name.len() ==> #[trigger] bin_name[i] != '\n',
    ensures
        lines_of(lines_text(lines.push(comment_text(bin_name)).push(rule))) == lines
            + comment_lines(bin_name) + seq![rule],
{
    let comment = comment_text(bin_name);
    let none = Seq::<char>::empty();
    lemma_comment_lines(bin_name);
    let added = seq![comment, rule];
    assert(lines.push(comment).push(rule) =~= lines + added);
    lemma_lines_text_of_both(lines, added);
    assert(added.drop_first() =~= seq![rule]);
    assert(seq![rule].drop_first() =~= Seq::<Seq<char>>::empty());
    assert(lines_text(Seq::<Seq<char>>::empty()) =~= none);
    assert(seq![rule][0] == rule);
    assert(lines_text(seq![rule]) =~= rule + seq!['\n'] + none);
    assert(added[0] == comment);
    assert(lines_text(added) =~= comment + seq!['\n'] + (rule + seq!['\n'] + none));
    lemma_lines_written_then_read(lines, lines_text(added));
    lemma_lines_of_closed(comment, rule + seq!['\n'] + none);
    lemma_lines_of_first(rule, none);
    assert(lines_of(none) =~= Seq::<Seq<char>>::empty());
    assert(lines_of(rule + seq!['\n'] + none) =~= seq![rule]);
}

/// Setting up a second time leaves one landmark block.
///
/// `current` is a crontab as one setting up leaves it: lines that are free
/// of the binary's comment, then the comment and a rule. Setting up again
/// plans two steps. The first takes that comment and rule out and leaves the
/// lines before them; the second appends comment and rule to what was left,
/// read again as `left`. In what then stands in the crontab, the comment with
/// a rule behind it stands at one place only.
pub proof fn lemma_set_up_again(
    params: &Params,
    current: Seq<Line>,
    steps: Seq<InstallStep>,
    left: Seq<Line>,
)
    requires
        forall|i: int|
            0 <= i < params.bin_name@.len() ==> #[trigger] params.bin_name@[i] != '\n',
        plain_line(rule_text(params)),
        numbered(current),
        current.len() >= 4,
        current.len() <= usize::MAX,
        line_texts(current).subrange(current.len() - 4, current.len() - 1) == comment_lines(
            params.bin_name@,
        ),
        free_of(line_texts(current).take(current.len() - 4), comment_lines(params.bin_name@)),
        plain_lines(line_texts(current)),
        set_up_plan(params, current, steps),
        steps[0] matches InstallStep::CronRemovePrevious(remove) ==> line_texts(left) == kept(
            current,
            leaving(remove.rule, remove.comments@),
            current.len() as int,
        ),
    ensures
        steps.len() == 2,
        steps[0] matches InstallStep::CronRemovePrevious(remove) && still_there(
            current,
            leaving(remove.rule, remove.comments@),
        ) && line_texts(left) == line_texts(current).take(current.len() - 4),
        steps[1] matches InstallStep::CronAdd(add) && forall|at: int|
            block_at(lines_of(add.appended(left)), comment_lines(params.bin_name@), at) <==> at
                == current.len() - 4,
{
    let bin_name = params.bin_name@;
    let comment = comment_lines(bin_name);
    let all = line_texts(current);
    let n = current.len() - 4;
    let before = all.take(n);
    lemma_comment_lines(bin_name);
    assert(starts_apart(comment));
    assert(all =~= before + comment + seq![all[n + 3]]);
    lemma_one_block_after_append(before, comment, all[n + 3]);
    lemma_first_block_of_one(all, comment, n);
    if let InstallStep::CronRemovePrevious(remove) = steps[0] {
        crate::install::init::cron::teardown::lemma_block_taken_out(
            current,
            remove.comments@,
            remove.rule,
            n,
        );
        assert(all.skip(n + 4) =~= Seq::<Seq<char>>::empty());
        assert(before + Seq::<Seq<char>>::empty() =~= before);
    }
    if let InstallStep::CronAdd(add) = steps[1] {
        assert(plain_lines(before)) by {
            assert forall|i: int| 0 <= i < before.len() implies plain_line(
                #[trigger] before[i],
            ) by {
                assert(before[i] == all[i]);
            }
        }
        lemma_lines_after_append(before, bin_name, rule_text(params));
        lemma_one_block_after_append(before, comment, rule_text(params));
    }
}

} // verus!
