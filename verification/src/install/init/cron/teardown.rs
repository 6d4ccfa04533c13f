//! Finding an installation in the crontab and taking it out.

use vstd::prelude::*;
use crate::text::opt_text;
use vstd::string::*;
use crate::Tense;
use crate::install::{Mode, RemoveStep};
use crate::install::init::{autogenerated_comment, comment_text};
use crate::install::init::cron::{copy_line, copy_lines, find_block, first_block,
    lemma_first_block_of_one, line_texts, owner_text, push_owner, same_line, same_lines,
    GetCrontabError, Line};
use crate::install::init::cron::setup::{listed_text, push_listed, lemma_lines_after_append, Add};
use crate::install::init::lemma_comment_lines;
use crate::install::init::cron::{free_of, numbered, starts_apart, lemma_one_block_after_append,
    lemma_kept_around_block};
use crate::text::{opt_chars, plain_line, plain_lines, contains_text, decimal, joined};
use crate::install::builder::Trigger;
use crate::schedule::Schedule;
use crate::install::init::{shell_escaped_text, all_shell_safe, shell_safe, Params};
use crate::install::init::cron::setup::{command_text, rule_text, escaped_args};
use crate::install::init::extract_path::lemma_shell_escape_round_trip;
use crate::install::init::extract_path::{shell_word, shell_word_from};
use crate::text::{chars_of, char_is_whitespace, find_text, is_whitespace, join_lines, lines_of,
    lines_text, matches_at, occurs_at, skip_whitespace, split_lines, str_eq, texts, trim_start};

verus! {

/// The crontab no longer holds, where it was read, a line that was to be
/// changed: someone else has edited it in between.
#[derive(Debug, Clone, Copy, PartialEq, Eq, Structural)]
pub struct CrontabChanged;

/// Why an installation could not be taken out of the crontab.
#[derive(Debug, Clone, PartialEq, Eq)]
pub enum Error {
    /// The crontab could not be read.
    GetCrontab(GetCrontabError),
    /// The comment of an installation stands at the end of the crontab,
    /// with no rule behind it.
    CrontabCorrupt,
    /// The crontab was changed in between.
    CrontabChanged(CrontabChanged),
    /// The rule is too short to hold a command.
    CorruptTooShort,
}

/// What is left of `s` behind its first `n` white space characters;
/// nothing where it has fewer.
pub open spec fn after_fields(s: Seq<char>, n: nat) -> Seq<char>
    decreases s.len(),
{
    if n == 0 {
        s
    } else if s.len() == 0 {
        Seq::empty()
    } else if is_whitespace(s[0]) {
        after_fields(s.drop_first(), (n - 1) as nat)
    } else {
        after_fields(s.drop_first(), n)
    }
}

/// The command of a rule: what follows `@reboot`, or what follows the
/// five time fields.
pub open spec fn rule_command(rule: Seq<char>) -> Seq<char> {
    if "@reboot"@.is_prefix_of(rule) {
        rule.skip("@reboot"@.len() as int)
    } else {
        after_fields(rule, 5)
    }
}

/// Whether `at` is the first index at which `needle` stands in `hay`.
pub open spec fn first_at(hay: Seq<char>, needle: Seq<char>, at: int) -> bool {
    occurs_at(hay, needle, at) && forall|k: int| 0 <= k < at ==> !occurs_at(hay, needle, k)
}

/// What follows the first `&&` of `command`, or all of `command` where it
/// holds none.
pub open spec fn after_cd(command: Seq<char>) -> Seq<char> {
    if exists|at: int| first_at(command, "&&"@, at) {
        command.skip((choose|at: int| first_at(command, "&&"@, at)) + 2)
    } else {
        command
    }
}

/// The path of the executable that a rule starts: the first shell word
/// behind the time fields and behind a change of directory, where there is
/// one.
pub open spec fn rule_path(rule: Seq<char>) -> Seq<char> {
    shell_word(trim_start(after_cd(rule_command(rule))), false)
}

fn skip_fields(v: &Vec<char>, n: usize) -> (at: usize)
    ensures
        at <= v.len(),
        v@.skip(at as int) == after_fields(v@, n as nat),
{
    let mut i: usize = 0;
    let mut left = n;
    assert(v@.skip(0) =~= v@);
    while i < v.len() && left > 0
        invariant
            i <= v.len(),
            after_fields(v@.skip(i as int), left as nat) == after_fields(v@, n as nat),
        decreases v.len() - i,
    {
        assert(v@.skip(i as int).drop_first() =~= v@.skip(i + 1));
        if char_is_whitespace(v[i]) {
            left -= 1;
        }
        i += 1;
    }
    proof {
        if left > 0 {
            assert(v@.skip(i as int) =~= Seq::<char>::empty());
        }
    }
    i
}

/// Reads the path of the executable out of a rule of the crontab: the
/// first shell word behind the time fields (`@reboot`, or five fields) and,
/// where the command changes the directory first, behind the first `&&`.
pub fn from_rule(rule: &str) -> (path: String)
    ensures
        path@ == rule_path(rule@),
{
    let v = chars_of(rule);
    let reboot = chars_of("@reboot");
    let start = if matches_at(&v, &reboot, 0) {
        proof {
            assert(v@.subrange(0, reboot@.len() as int) =~= v@.take(reboot@.len() as int));
        }
        reboot.len()
    } else {
        proof {
            if "@reboot"@.is_prefix_of(v@) {
                assert(v@.subrange(0, reboot@.len() as int) =~= reboot@);
            }
        }
        skip_fields(&v, 5)
    };
    let ghost command = rule_command(v@);
    assert(command == v@.skip(start as int));
    let both = chars_of("&&");
    assert forall|k: int| 0 <= k implies (occurs_at(command, both@, k) <==> occurs_at(
        v@,
        both@,
        start + k,
    )) by {
        if k + both@.len() <= command.len() {
            assert(command.subrange(k, k + both@.len()) =~= v@.subrange(
                start + k,
                start + k + both@.len(),
            ));
        }
    }
    let begin = match find_text(&v, &both, start) {
        Some(at) => {
            proof {
                reveal_strlit("&&");
                assert(first_at(command, both@, at - start));
                let chosen = choose|c: int| first_at(command, "&&"@, c);
                assert(chosen == at - start) by {
                    if chosen < at - start {
                        assert(!occurs_at(command, both@, chosen));
                    }
                    if at - start < chosen {
                        assert(!occurs_at(command, both@, at - start));
                    }
                }
                assert(command.skip(at - start + 2) =~= v@.skip(at + 2));
            }
            at + 2
        },
        None => {
            proof {
                assert forall|c: int| !first_at(command, "&&"@, c) by {
                    if first_at(command, "&&"@, c) {
                        assert(occurs_at(v@, both@, start + c));
                    }
                }
            }
            start
        },
    };
    assert(after_cd(command) == v@.skip(begin as int));
    let word_start = skip_whitespace(&v, begin);
    shell_word_from(&v, word_start)
}

/// The lines that are to leave the crontab: the comment, then the rule.
pub open spec fn leaving(rule: Line, comments: Seq<Line>) -> Seq<Line> {
    comments.push(rule)
}

/// Whether every one of `lines` still stands in `input` at the index that
/// it records, with the text that it records.
pub open spec fn still_there(input: Seq<Line>, lines: Seq<Line>) -> bool {
    forall|k: int|
        0 <= k < lines.len() ==> (#[trigger] lines[k]).pos < input.len()
            && input[lines[k].pos as int].text@ == lines[k].text@
}

/// Whether one of `lines` records the index `i`.
pub open spec fn marked(lines: Seq<Line>, i: int) -> bool {
    exists|k: int| 0 <= k < lines.len() && (#[trigger] lines[k]).pos == i
}

/// The texts of the first `n` lines of `input`, without those at an index
/// that one of `lines` records.
pub open spec fn kept(input: Seq<Line>, lines: Seq<Line>, n: int) -> Seq<Seq<char>>
    decreases n,
{
    if n <= 0 {
        Seq::empty()
    } else {
        kept(input, lines, n - 1) + (if marked(lines, n - 1) {
            Seq::empty()
        } else {
            seq![input[n - 1].text@]
        })
    }
}

fn stands_unchanged(input: &Vec<Line>, line: &Line) -> (same: bool)
    ensures
        same == (line.pos < input.len() && input[line.pos as int].text@ == line.text@),
{
    line.pos < input.len() && str_eq(input[line.pos].text.as_str(), line.text.as_str())
}

fn is_marked(rule: &Line, comments: &Vec<Line>, i: usize) -> (found: bool)
    ensures
        found == marked(leaving(*rule, comments@), i as int),
{
    let ghost lines = leaving(*rule, comments@);
    if rule.pos == i {
        assert(lines[comments.len() as int].pos == i);
        return true;
    }
    let mut k: usize = 0;
    while k < comments.len()
        invariant
            k <= comments.len(),
            rule.pos != i,
            lines == leaving(*rule, comments@),
            forall|j: int| 0 <= j < k ==> (#[trigger] lines[j]).pos != i,
        decreases comments.len() - k,
    {
        if comments[k].pos == i {
            assert(lines[k as int].pos == i);
            return true;
        }
        assert(lines[k as int] == comments[k as int]);
        k += 1;
    }
    false
}

/// Takes the comment and the rule out of the crontab that was just read.
///
/// Nothing is taken out unless every line that is to leave still stands at
/// its index with its text; else the crontab was changed in between and
/// the answer is `CrontabChanged`. All other lines are kept, in order.
pub fn filter_out(input: &Vec<Line>, rule: &Line, comments: &Vec<Line>) -> (left: Result<
    Vec<String>,
    CrontabChanged,
>)
    ensures
        left is Ok <==> still_there(input@, leaving(*rule, comments@)),
        left matches Ok(lines) ==> texts(lines@) == kept(
            input@,
            leaving(*rule, comments@),
            input.len() as int,
        ),
{
    let ghost lines = leaving(*rule, comments@);
    let mut k: usize = 0;
    while k < comments.len()
        invariant
            k <= comments.len(),
            lines == leaving(*rule, comments@),
            forall|j: int|
                0 <= j < k ==> (#[trigger] lines[j]).pos < input.len()
                    && input[lines[j].pos as int].text@ == lines[j].text@,
        decreases comments.len() - k,
    {
        assert(lines[k as int] == comments[k as int]);
        if !stands_unchanged(input, &comments[k]) {
            return Err(CrontabChanged);
        }
        k += 1;
    }
    assert(lines[comments.len() as int] == *rule);
    if !stands_unchanged(input, rule) {
        return Err(CrontabChanged);
    }
    assert(still_there(input@, lines));
    let mut out: Vec<String> = Vec::new();
    let mut i: usize = 0;
    while i < input.len()
        invariant
            i <= input.len(),
            lines == leaving(*rule, comments@),
            texts(out@) == kept(input@, lines, i as int),
        decreases input.len() - i,
    {
        let ghost before = texts(out@);
        if !is_marked(rule, comments, i) {
            out.push(input[i].text.clone());
            assert(texts(out@) =~= before + seq![input[i as int].text@]);
        } else {
            assert(texts(out@) =~= before + Seq::<Seq<char>>::empty());
        }
        i += 1;
    }
    Ok(out)
}

/// The text to write to the crontab once the comment and the rule are
/// taken out, each line that is left closed by a line feed; or
/// `CrontabChanged`.
pub fn without_block(input: &Vec<Line>, rule: &Line, comments: &Vec<Line>) -> (text: Result<
    String,
    CrontabChanged,
>)
    ensures
        text is Ok <==> still_there(input@, leaving(*rule, comments@)),
        text matches Ok(t) ==> t@ == lines_text(
            kept(input@, leaving(*rule, comments@), input.len() as int),
        ),
{
    match filter_out(input, rule, comments) {
        Ok(lines) => Ok(join_lines(&lines)),
        Err(e) => Err(e),
    }
}

/// The step that takes the comment and the rule of the installation out of
/// the crontab.
#[derive(Debug, Clone, PartialEq, Eq)]
pub struct RemoveInstalled {
    /// The user whose crontab it is; the caller's own where there is none.
    pub user: Option<String>,
    /// The lines of the comment, as they were read.
    pub comments: Vec<Line>,
    /// The rule behind the comment, as it was read.
    pub rule: Line,
}

impl RemoveInstalled {
    /// The one line that says what the step does.
    pub open spec fn description(&self, tense: Tense) -> Seq<char> {
        tense.pick_text("Removed"@, "Remove"@, "Will remove"@, "Removing"@)
            + " the installs comment and rule from "@ + owner_text(self.user) + "crontab"@
    }

    /// What the step does, with the lines that it removes.
    pub open spec fn detailed_description(&self, tense: Tense) -> Seq<char> {
        self.description(tense) + ":\n| comment:"@ + listed_text(self.comments@)
            + "\n| rule:\n|\t"@ + self.rule.numbered_text()
    }

    /// Says in one line what the step does.
    pub fn describe(&self, tense: Tense) -> (text: String)
        ensures
            text@ == self.description(tense),
    {
        let mut text = String::from_str(tense.pick("Removed", "Remove", "Will remove", "Removing"));
        text.append(" the installs comment and rule from ");
        push_owner(&mut text, &self.user);
        text.append("crontab");
        text
    }

    /// Says what the step does and shows the lines that it removes, each
    /// with its number.
    pub fn describe_detailed(&self, tense: Tense) -> (text: String)
        ensures
            text@ == self.detailed_description(tense),
    {
        let mut text = self.describe(tense);
        text.append(":\n| comment:");
        push_listed(&mut text, &self.comments);
        text.append("\n| rule:\n|\t");
        let rule = self.rule.to_string();
        text.append(rule.as_str());
        text
    }

    /// The text to write to the crontab that was just read, or
    /// `CrontabChanged` where a line that is to leave no longer stands as it
    /// was.
    pub fn new_crontab(&self, current: &Vec<Line>) -> (text: Result<String, CrontabChanged>)
        ensures
            text is Ok <==> still_there(current@, leaving(self.rule, self.comments@)),
            text matches Ok(t) ==> t@ == lines_text(
                kept(current@, leaving(self.rule, self.comments@), current.len() as int),
            ),
    {
        without_block(current, &self.rule, &self.comments)
    }
}

/// What tearing down finds in `current` for the binary `bin_name`: nothing
/// where no landmark comment with a rule behind it stands there; else the
/// step that removes the first such block, and the path that its rule
/// starts.
pub open spec fn tear_down_plan(
    bin_name: Seq<char>,
    user: Option<Seq<char>>,
    current: Seq<Line>,
    plan: Option<(Vec<RemoveStep>, String)>,
) -> bool {
    let comment = lines_of(comment_text(bin_name));
    match first_block(line_texts(current), comment) {
        None => plan is None,
        Some(at) => {
            &&& plan matches Some((steps, path))
            &&& steps.len() == 1
            &&& steps[0] matches RemoveStep::CronRemoveInstalled(step)
            &&& same_lines(step.comments@, current.subrange(at, at + comment.len()))
            &&& same_line(step.rule, current[at + comment.len()])
            &&& opt_text(step.user) == user
            &&& path@ == rule_path(current[at + comment.len()].text@)
        },
    }
}

/// The optional text as an owned string.
pub fn owned(text: Option<&str>) -> (copy: Option<String>)
    ensures
        opt_text(copy) == (opt_chars(text)),
{
    match text {
        Some(t) => Some(String::from_str(t)),
        None => None,
    }
}

/// Looks in the crontab for what the binary `bin_name` installed.
///
/// Where the landmark comment stands there with a rule behind it, gives the
/// step that removes the first such comment and rule, and the path of the
/// executable that the rule starts. Where it does not, gives nothing: there
/// is no installation in this crontab.
pub fn tear_down_steps(
    bin_name: &str,
    mode: Mode,
    user: Option<&str>,
    current: &Vec<Line>,
) -> (plan: Option<(Vec<RemoveStep>, String)>)
    ensures
        tear_down_plan(
            bin_name@,
            opt_chars(user),
            current@,
            plan,
        ),
{
    let landmark_comment = autogenerated_comment(bin_name);
    let comment = split_lines(landmark_comment.as_str());
    let at = match find_block(current, &comment) {
        Some(at) => at,
        None => {
            return None;
        },
    };
    assert(texts(comment@).len() == comment.len());
    let rule = &current[at + comment.len()];
    let install_path = from_rule(rule.text.as_str());
    let step = RemoveInstalled {
        comments: copy_lines(current, at, at + comment.len()),
        rule: copy_line(rule),
        user: owned(user),
    };
    let mut steps: Vec<RemoveStep> = Vec::new();
    steps.push(RemoveStep::CronRemoveInstalled(step));
    Some((steps, install_path))
}

/// Taking out a block that was read from the crontab leaves what stands
/// before and behind it, as long as the crontab is still the one that was
/// read.
pub proof fn lemma_block_taken_out(current: Seq<Line>, comments: Seq<Line>, rule: Line, at: int)
    requires
        numbered(current),
        0 <= at,
        at + comments.len() < current.len(),
        same_lines(comments, current.subrange(at, at + comments.len())),
        same_line(rule, current[at + comments.len()]),
    ensures
        still_there(current, leaving(rule, comments)),
        kept(current, leaving(rule, comments), current.len() as int) == line_texts(current).take(
            at,
        ) + line_texts(current).skip(at + comments.len() + 1),
{
    let leave = leaving(rule, comments);
    let len = comments.len() as int;
    assert forall|k: int| 0 <= k <= len implies (#[trigger] leave[k]).pos == at + k
        && leave[k].text@ == current[at + k].text@ by {
        if k < len {
            assert(leave[k] == comments[k]);
            assert(current.subrange(at, at + len)[k] == current[at + k]);
        }
    }
    lemma_kept_around_block(current, leave, at, len, current.len() as int);
    assert(line_texts(current).subrange(at + len + 1, current.len() as int) =~= line_texts(
        current,
    ).skip(at + len + 1));
}

/// Installing and then tearing down gives the crontab back.
///
/// `before` is a crontab of plain lines in which the comment of the binary
/// stands nowhere. The step `add` appends the comment and a rule to it, and
/// `after` is what is read once that is written. Tearing down then finds
/// one installation: its step still finds every line that it removes, what
/// it leaves are the lines of `before`, and the path it reports is the one
/// that the rule starts.
pub proof fn lemma_install_then_tear_down(
    before: Seq<Line>,
    add: Add,
    bin_name: Seq<char>,
    after: Seq<Line>,
    user: Option<Seq<char>>,
    plan: Option<(Vec<RemoveStep>, String)>,
)
    requires
        forall|i: int| 0 <= i < bin_name.len() ==> #[trigger] bin_name[i] != '\n',
        add.comment@ == comment_text(bin_name),
        plain_line(add.rule@),
        plain_lines(line_texts(before)),
        free_of(line_texts(before), lines_of(comment_text(bin_name))),
        numbered(after),
        line_texts(after) == lines_of(add.appended(before)),
        tear_down_plan(bin_name, user, after, plan),
    ensures
        plan matches Some((steps, path)) && steps.len() == 1 && (
        steps[0] matches RemoveStep::CronRemoveInstalled(step) && still_there(
            after,
            leaving(step.rule, step.comments@),
        ) && kept(after, leaving(step.rule, step.comments@), after.len() as int) == line_texts(
            before,
        )) && path@ == rule_path(add.rule@),
{
    let comment = lines_of(comment_text(bin_name));
    let lines = line_texts(before);
    let all = line_texts(after);
    let n = before.len() as int;
    assert(comment.len() == 3 && starts_apart(comment)) by {
        lemma_comment_lines(bin_name);
    }
    assert(all == lines + comment + seq![add.rule@]) by {
        lemma_comment_lines(bin_name);
        lemma_lines_after_append(lines, bin_name, add.rule@);
    }
    assert(first_block(all, comment) == Some(n)) by {
        lemma_one_block_after_append(lines, comment, add.rule@);
        lemma_first_block_of_one(all, comment, n);
    }
    assert(all[n + 3] == add.rule@);
    assert(after.len() == n + 4) by {
        assert(all.len() == after.len());
    }
    assert(after[n + 3].text@ == all[n + 3]);
    match plan {
        None => {},
        Some((steps, path)) => {
            if let RemoveStep::CronRemoveInstalled(step) = steps[0] {
                lemma_block_taken_out(after, step.comments@, step.rule, n);
                assert(all.take(n) =~= lines);
                assert(all.skip(n + 4) =~= Seq::<Seq<char>>::empty());
                assert(lines + Seq::<Seq<char>>::empty() =~= lines);
            }
        },
    }
}

/// A number in decimal holds digits only: no white space, and no sign in
/// front.
pub proof fn lemma_decimal_is_a_word(n: nat)
    ensures
        decimal(n).len() > 0,
        forall|i: int| 0 <= i < decimal(n).len() ==> '0' <= #[trigger] decimal(n)[i] <= '9',
    decreases n,
{
    if n >= 10 {
        lemma_decimal_is_a_word(n / 10);
    }
}

/// Behind a word without white space and the white space that ends it, one
/// field less is left to pass.
pub proof fn lemma_after_fields_word(word: Seq<char>, space: char, rest: Seq<char>, n: nat)
    requires
        n >= 1,
        is_whitespace(space),
        forall|i: int| 0 <= i < word.len() ==> !is_whitespace(#[trigger] word[i]),
    ensures
        after_fields(word + seq![space] + rest, n) == after_fields(rest, (n - 1) as nat),
    decreases word.len(),
{
    let all = word + seq![space] + rest;
    if word.len() == 0 {
        assert(all[0] == space);
        assert(all.drop_first() =~= rest);
    } else {
        assert(all[0] == word[0]);
        assert(all.drop_first() =~= word.drop_first() + seq![space] + rest);
        assert forall|i: int| 0 <= i < word.drop_first().len() implies !is_whitespace(
            #[trigger] word.drop_first()[i],
        ) by {
            assert(word.drop_first()[i] == word[i + 1]);
        }
        lemma_after_fields_word(word.drop_first(), space, rest, n);
    }
}

/// Where nothing before it holds `&&`, the first `&&` is the one that is
/// put there, and what follows it is what follows the change of directory.
pub proof fn lemma_after_cd_behind(before: Seq<char>, rest: Seq<char>)
    requires
        !contains_text(before, "&&"@),
        before.len() > 0,
        before.last() != '&',
    ensures
        after_cd(before + "&&"@ + rest) == rest,
{
    reveal_strlit("&&");
    let both = "&&"@;
    let all = before + both + rest;
    let p = before.len() as int;
    assert(all.subrange(p, p + 2) =~= both);
    assert forall|k: int| 0 <= k < p implies !occurs_at(all, both, k) by {
        if occurs_at(all, both, k) {
            assert(all.subrange(k, k + 2)[0] == all[k]);
            if k + 2 <= p {
                assert(before.subrange(k, k + 2) =~= all.subrange(k, k + 2));
                assert(occurs_at(before, both, k));
            } else {
                assert(all[k] == before.last());
            }
        }
    }
    assert(first_at(all, both, p));
    let chosen = choose|at: int| first_at(all, both, at);
    assert(chosen == p) by {
        if chosen < p {
            assert(!occurs_at(all, both, chosen));
        }
        if p < chosen {
            assert(!occurs_at(all, both, p));
        }
    }
    assert(all.skip(p + 2) =~= rest);
}

/// Text without `&&` stays as it is: there is no change of directory to
/// pass.
pub proof fn lemma_after_cd_without(command: Seq<char>)
    requires
        !contains_text(command, "&&"@),
    ensures
        after_cd(command) == command,
{
    assert forall|at: int| !first_at(command, "&&"@, at) by {
        if first_at(command, "&&"@, at) {
            assert(occurs_at(command, "&&"@, at));
        }
    }
}

/// Putting text without `&` around text without `&&` makes no `&&`.
pub proof fn lemma_no_cd_around(left: Seq<char>, middle: Seq<char>, right: Seq<char>)
    requires
        forall|i: int| 0 <= i < left.len() ==> #[trigger] left[i] != '&',
        forall|i: int| 0 <= i < right.len() ==> #[trigger] right[i] != '&',
        !contains_text(middle, "&&"@),
    ensures
        !contains_text(left + middle + right, "&&"@),
{
    reveal_strlit("&&");
    let both = "&&"@;
    let all = left + middle + right;
    assert forall|k: int| !occurs_at(all, both, k) by {
        if occurs_at(all, both, k) {
            assert(all.subrange(k, k + 2)[0] == all[k]);
            assert(all.subrange(k, k + 2)[1] == all[k + 1]);
            let j = k - left.len();
            if k < left.len() {
                assert(all[k] == left[k]);
            } else if k + 1 >= left.len() + middle.len() {
                assert(all[k + 1] == right[k + 1 - left.len() - middle.len()]);
            } else {
                assert(middle.subrange(j, j + 2) =~= all.subrange(k, k + 2));
                assert(occurs_at(middle, both, j));
            }
        }
    }
}

/// The shell form of a text is not empty and begins with no white space.
pub proof fn lemma_shell_escaped_begins(text: Seq<char>)
    ensures
        shell_escaped_text(text).len() > 0,
        !is_whitespace(shell_escaped_text(text)[0]),
{
    if text.len() > 0 && all_shell_safe(text) {
        assert(shell_safe(text[0]));
    }
}

/// The path of the executable is read back from the rule that was written
/// for it.
///
/// This holds of a service without environment variables; with them, the
/// word behind the time fields is `export`. And it holds where no `&&`
/// stands before the executable but the one that ends the change of
/// directory: with a working directory, none in its shell form; without,
/// none in the command.
pub proof fn lemma_rule_round_trip(params: &Params)
    requires
        params.environment.len() == 0,
        match params.working_dir {
            Some(dir) => !contains_text(shell_escaped_text(dir@), "&&"@),
            None => !contains_text(command_text(params), "&&"@),
        },
    ensures
        rule_path(rule_text(params)) == params.exe_path@,
{
    reveal_strlit(" ");
    reveal_strlit("&&");
    reveal_strlit("cd ");
    reveal_strlit(" && ");
    reveal_strlit("@reboot");
    reveal_strlit(" * * *");
    let space = seq![' '];
    let exe = shell_escaped_text(params.exe_path@);
    let args = joined(escaped_args(params.exe_args@), " "@);
    let run = exe + space + args;
    let command = command_text(params);
    let rule = rule_text(params);
    // What is left behind the time fields: the command, behind a space
    // where the rule starts on boot.
    let lead: Seq<char> = match params.trigger {
        Trigger::OnBoot => space,
        Trigger::OnSchedule(_) => Seq::empty(),
    };
    assert(rule_command(rule) == lead + command) by {
        match params.trigger {
            Trigger::OnBoot => {
                assert(rule =~= "@reboot"@ + (space + command));
                assert(rule.subrange(0, 7) =~= "@reboot"@);
                assert(rule.skip(7) =~= space + command);
            },
            Trigger::OnSchedule(Schedule::Daily(time)) => {
                let minute = decimal(time.parts().1);
                let hour = decimal(time.parts().0);
                let star = seq!['*'];
                lemma_decimal_is_a_word(time.parts().1);
                lemma_decimal_is_a_word(time.parts().0);
                assert(rule[0] == minute[0]);
                assert(!"@reboot"@.is_prefix_of(rule)) by {
                    if "@reboot"@.is_prefix_of(rule) {
                        assert(rule.subrange(0, 7)[0] == rule[0]);
                    }
                }
                let r4 = star + space + command;
                let r3 = star + space + r4;
                let r2 = star + space + r3;
                let r1 = hour + space + r2;
                assert(rule =~= minute + space + r1);
                lemma_after_fields_word(minute, ' ', r1, 5);
                lemma_after_fields_word(hour, ' ', r2, 4);
                lemma_after_fields_word(star, ' ', r3, 3);
                lemma_after_fields_word(star, ' ', r4, 2);
                lemma_after_fields_word(star, ' ', command, 1);
            },
        }
    }
    lemma_shell_escaped_begins(params.exe_path@);
    // What is left behind the change of directory: the executable and its
    // arguments, behind white space at most.
    assert(is_whitespace(' '));
    assert(!is_whitespace(run[0])) by {
        assert(run[0] == exe[0]);
    }
    assert(trim_start(run) == run);
    assert(trim_start(space + run) == run) by {
        assert((space + run)[0] == ' ');
        assert((space + run).drop_first() =~= run);
    }
    assert(trim_start(after_cd(lead + command)) == run) by {
        match params.working_dir {
            Some(dir) => {
                let before = lead + "cd "@ + shell_escaped_text(dir@) + space;
                assert(command =~= "cd "@ + shell_escaped_text(dir@) + " && "@ + run);
                assert(" && "@ =~= space + "&&"@ + space);
                assert(lead + command =~= before + "&&"@ + (space + run));
                assert(!contains_text(before, "&&"@)) by {
                    assert(forall|i: int|
                        0 <= i < (lead + "cd "@).len() ==> #[trigger] (lead + "cd "@)[i] != '&');
                    lemma_no_cd_around(lead + "cd "@, shell_escaped_text(dir@), space);
                }
                assert(before.last() == ' ');
                lemma_after_cd_behind(before, space + run);
                assert(after_cd(lead + command) == space + run);
            },
            None => {
                assert(command =~= run);
                assert(lead + command =~= lead + command + Seq::<char>::empty());
                lemma_no_cd_around(lead, command, Seq::empty());
                lemma_after_cd_without(lead + command);
                assert(after_cd(lead + command) == lead + command);
                if lead.len() > 0 {
                    assert(lead + command =~= space + run);
                } else {
                    assert(lead + command =~= run);
                }
            },
        }
    }
    lemma_shell_escape_round_trip(params.exe_path@, space + args);
    assert(exe + (space + args) =~= run);
}

} // verus!
