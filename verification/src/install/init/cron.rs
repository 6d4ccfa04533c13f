//! Services started by cron: reading the crontab as lines, and the parts
//! that setting up, disabling and tearing down share.

use vstd::prelude::*;
use vstd::string::*;
use crate::install::IoError;
use crate::install::files::process_parent::Process;
use crate::text::{opt_chars, chars_of, lines_of, push_decimal, split_lines, str_starts_with, decimal,
    ends_with_chars, texts};

pub mod disable;
pub mod setup;
pub mod teardown;

verus! {

/// One line of a crontab.
#[derive(Debug, Clone, PartialEq, Eq)]
pub struct Line {
    /// The index of the line in the crontab as it was read.
    pub pos: usize,
    /// The line without its line ending.
    pub text: String,
}

impl Line {
    /// The line without its line ending.
    pub fn text(&self) -> (text: &str)
        ensures
            text@ == self.text@,
    {
        self.text.as_str()
    }

    /// The line with its number in front.
    pub open spec fn numbered_text(&self) -> Seq<char> {
        decimal(self.pos as nat) + ": "@ + self.text@
    }

    /// The line with its number in front, as in `3: @reboot /usr/bin/demo`.
    pub fn to_string(&self) -> (shown: String)
        ensures
            shown@ == self.numbered_text(),
    {
        let mut shown = String::new();
        push_decimal(&mut shown, self.pos as u64);
        assert(shown@ =~= decimal(self.pos as nat));
        shown.append(": ");
        shown.append(self.text.as_str());
        shown
    }
}

/// The texts of the lines, in order.
pub open spec fn line_texts(lines: Seq<Line>) -> Seq<Seq<char>> {
    Seq::new(lines.len(), |i: int| lines[i].text@)
}

/// Whether every line stands at the index that it records.
pub open spec fn numbered(lines: Seq<Line>) -> bool {
    forall|i: int| 0 <= i < lines.len() ==> (#[trigger] lines[i]).pos == i
}

/// The texts of the lines, in order.
pub fn texts_of(lines: &Vec<Line>) -> (all: Vec<String>)
    ensures
        texts(all@) == line_texts(lines@),
{
    let mut all: Vec<String> = Vec::new();
    let mut i: usize = 0;
    while i < lines.len()
        invariant
            i <= lines.len(),
            all.len() == i,
            forall|k: int| 0 <= k < i ==> (#[trigger] all[k])@ == lines[k].text@,
        decreases lines.len() - i,
    {
        all.push(lines[i].text.clone());
        i += 1;
    }
    assert(texts(all@) =~= line_texts(lines@));
    all
}

/// Whether two lines record the same index and hold the same text.
pub open spec fn same_line(a: Line, b: Line) -> bool {
    a.pos == b.pos && a.text@ == b.text@
}

/// Whether two lists of lines agree line by line.
pub open spec fn same_lines(a: Seq<Line>, b: Seq<Line>) -> bool {
    a.len() == b.len() && forall|i: int| 0 <= i < a.len() ==> same_line(#[trigger] a[i], b[i])
}

/// A copy of `line`.
pub fn copy_line(line: &Line) -> (copy: Line)
    ensures
        same_line(copy, *line),
{
    Line { pos: line.pos, text: line.text.clone() }
}

/// A copy of the lines of `lines` from index `from` up to `to`.
pub fn copy_lines(lines: &Vec<Line>, from: usize, to: usize) -> (copy: Vec<Line>)
    requires
        from <= to <= lines.len(),
    ensures
        same_lines(copy@, lines@.subrange(from as int, to as int)),
{
    let mut copy: Vec<Line> = Vec::new();
    let mut i = from;
    while i < to
        invariant
            from <= i <= to <= lines.len(),
            copy.len() == i - from,
            forall|k: int| 0 <= k < i - from ==> same_line(#[trigger] copy[k], lines[from + k]),
        decreases to - i,
    {
        copy.push(copy_line(&lines[i]));
        i += 1;
    }
    copy
}

/// How the banner begins that the crontab program puts before the table
/// when it lists it.
pub const HEADER_ADDED_BY_LIST_CMD: &'static str = "# DO NOT EDIT THIS FILE";

/// The lines of the table in the text that the crontab program lists: all
/// lines of the text, without the three lines of the banner where the text
/// starts with it.
pub open spec fn crontab_texts(text: Seq<char>) -> Seq<Seq<char>> {
    let all = lines_of(text);
    if HEADER_ADDED_BY_LIST_CMD@.is_prefix_of(text) {
        if all.len() <= 3 {
            Seq::empty()
        } else {
            all.skip(3)
        }
    } else {
        all
    }
}

/// Reads the text that the crontab program lists as lines, each with its
/// index. The banner that the program puts in front is left out and not
/// counted.
pub fn crontab_lines(text: String) -> (lines: Vec<Line>)
    ensures
        numbered(lines@),
        line_texts(lines@) == crontab_texts(text@),
{
    let header_lines: usize = if str_starts_with(text.as_str(), HEADER_ADDED_BY_LIST_CMD) {
        3
    } else {
        0
    };
    let mut all = split_lines(text.as_str());
    let mut lines: Vec<Line> = Vec::new();
    if header_lines >= all.len() {
        assert(line_texts(lines@) =~= crontab_texts(text@));
        return lines;
    }
    let ghost goal = crontab_texts(text@);
    assert(goal =~= texts(all@).skip(header_lines as int));
    let mut i: usize = header_lines;
    while i < all.len()
        invariant
            header_lines <= i <= all.len(),
            lines.len() == i - header_lines,
            numbered(lines@),
            goal == texts(all@).skip(header_lines as int),
            line_texts(lines@) == goal.take(i - header_lines),
        decreases all.len() - i,
    {
        let line = Line { pos: i - header_lines, text: all[i].clone() };
        lines.push(line);
        assert(line_texts(lines@) =~= goal.take(i + 1 - header_lines));
        i += 1;
    }
    assert(goal.take(goal.len() as int) =~= goal);
    lines
}

/// Why the crontab could not be read.
#[derive(Debug, Clone, PartialEq, Eq)]
pub enum GetCrontabError {
    /// The crontab program could not be run.
    CouldNotRun(IoError),
    /// The crontab program ran and failed.
    CommandFailed { stderr: String },
}

/// Why the crontab could not be written.
#[derive(Debug, Clone, PartialEq, Eq)]
pub enum SetCrontabError {
    /// The crontab program could not be run.
    CouldNotRun(IoError),
    /// The crontab program ran and failed.
    CommandFailed { stderr: String },
    /// The input of the crontab program could not be opened.
    StdinClosed,
    /// The new table could not be handed to the crontab program.
    WritingStdin(IoError),
    /// The crontab program could not be waited for.
    FailedToWait(IoError),
}

/// The arguments of the crontab program, behind `first`: `-u` and the
/// user, where a user is given.
pub open spec fn crontab_arguments(first: Seq<char>, user: Option<Seq<char>>) -> Seq<Seq<char>> {
    match user {
        Some(name) => seq![first, "-u"@, name],
        None => seq![first],
    }
}

fn arguments(first: &str, user: Option<&str>) -> (args: Vec<String>)
    ensures
        texts(args@) == crontab_arguments(first@, opt_chars(user)),
{
    let mut args: Vec<String> = Vec::new();
    args.push(String::from_str(first));
    if let Some(name) = user {
        args.push(String::from_str("-u"));
        args.push(String::from_str(name));
    }
    assert(texts(args@) =~= crontab_arguments(first@, opt_chars(user)));
    args
}

/// The arguments that the crontab program lists the crontab with: `-l`,
/// and the user where it is not the caller's own crontab.
pub fn list_arguments(user: Option<&str>) -> (args: Vec<String>)
    ensures
        texts(args@) == crontab_arguments("-l"@, opt_chars(user)),
{
    arguments("-l", user)
}

/// The arguments that the crontab program replaces the crontab with: `-`,
/// for reading the new one from its input, and the user where it is not the
/// caller's own crontab.
pub fn set_arguments(user: Option<&str>) -> (args: Vec<String>)
    ensures
        texts(args@) == crontab_arguments("-"@, opt_chars(user)),
{
    arguments("-", user)
}

/// What listing the crontab came to, from how the crontab program ended
/// and what it wrote: the lines of the crontab where it succeeded, else its
/// error output.
pub fn listed(success: bool, stdout: String, stderr: String) -> (crontab: Result<
    Vec<Line>,
    GetCrontabError,
>)
    ensures
        match crontab {
            Ok(lines) => success && numbered(lines@) && line_texts(lines@) == crontab_texts(
                stdout@,
            ),
            Err(e) => !success && e == (GetCrontabError::CommandFailed { stderr }),
        },
{
    if success {
        Ok(crontab_lines(stdout))
    } else {
        Err(GetCrontabError::CommandFailed { stderr })
    }
}

/// What replacing the crontab came to, from how the crontab program ended
/// and what it wrote to its error output.
pub fn replaced(success: bool, stderr: String) -> (done: Result<(), SetCrontabError>)
    ensures
        match done {
            Ok(()) => success,
            Err(e) => !success && e == (SetCrontabError::CommandFailed { stderr }),
        },
{
    if success {
        Ok(())
    } else {
        Err(SetCrontabError::CommandFailed { stderr })
    }
}

/// Whether some part of some command line ends in `/cron`.
pub open spec fn cron_runs(processes: Seq<Process>) -> bool {
    exists|i: int, j: int|
        0 <= i < processes.len() && 0 <= j < processes[i].cmd.len() && is_cron_path(
            #[trigger] processes[i].cmd[j]@,
        )
}

/// Whether `path` ends in `/cron`.
pub open spec fn is_cron_path(path: Seq<char>) -> bool {
    "/cron"@.is_suffix_of(path)
}

/// Whether `path` is that of a cron daemon: it ends in `/cron`.
pub fn is_init_path(path: &str) -> (cron: bool)
    ensures
        cron == is_cron_path(path@),
{
    let p = chars_of(path);
    let suffix = chars_of("/cron");
    ends_with_chars(&p, &suffix)
}

/// Whether cron cannot be used on this machine: no process of the table
/// was started with a command that ends in `/cron`.
pub fn not_available(processes: &Vec<Process>) -> (missing: bool)
    ensures
        missing == !cron_runs(processes@),
{
    let mut i: usize = 0;
    while i < processes.len()
        invariant
            i <= processes.len(),
            forall|a: int, b: int|
                0 <= a < i && 0 <= b < processes[a].cmd.len() ==> !is_cron_path(
                    #[trigger] processes[a].cmd[b]@,
                ),
        decreases processes.len() - i,
    {
        let cmd = &processes[i].cmd;
        let mut j: usize = 0;
        while j < cmd.len()
            invariant
                j <= cmd.len(),
                i < processes.len(),
                cmd == &processes[i as int].cmd,
                forall|b: int| 0 <= b < j ==> !is_cron_path(#[trigger] processes[i as int].cmd[b]@),
            decreases cmd.len() - j,
        {
            if is_init_path(cmd[j].as_str()) {
                return false;
            }
            j += 1;
        }
        i += 1;
    }
    true
}

/// The undoing of a change to the crontab that cannot be undone: cron keeps
/// no record of what the table was.
#[derive(Debug, Clone, Copy, PartialEq, Eq, Structural)]
pub struct RollbackImpossible;

impl RollbackImpossible {
    /// What the step says of itself; the same in every tense.
    pub open spec fn description(&self) -> Seq<char> {
        "Rollback of cron setup is not possible, check crontab manually"@
    }

    /// Says that the crontab has to be set right by hand.
    pub fn describe(&self) -> (text: String)
        ensures
            text@ == self.description(),
    {
        String::from_str("Rollback of cron setup is not possible, check crontab manually")
    }
}

/// `user` and `'s `, or nothing where there is no user.
pub open spec fn owner_text(user: Option<String>) -> Seq<char> {
    match user {
        Some(name) => name@ + "'s "@,
        None => Seq::empty(),
    }
}

/// Appends `user` and `'s ` to `out`, or nothing where there is no user.
pub fn push_owner(out: &mut String, user: &Option<String>)
    ensures
        final(out)@ == old(out)@ + owner_text(*user),
{
    match user {
        Some(name) => {
            out.append(name.as_str());
            out.append("'s ");
            assert(out@ =~= old(out)@ + owner_text(*user));
        },
        None => {
            assert(out@ =~= old(out)@ + owner_text(*user));
        },
    }
}

/// Whether the lines of `comment` stand in `lines` from index `at` on.
pub open spec fn comment_at(lines: Seq<Seq<char>>, comment: Seq<Seq<char>>, at: int) -> bool {
    0 <= at && at + comment.len() <= lines.len() && lines.subrange(at, at + comment.len())
        == comment
}

/// Whether the lines of `comment` stand in `lines` from index `at` on and
/// one more line, the rule, follows them.
pub open spec fn block_at(lines: Seq<Seq<char>>, comment: Seq<Seq<char>>, at: int) -> bool {
    comment_at(lines, comment, at) && at + comment.len() < lines.len()
}

/// Whether `found` is where the first block of `comment` and rule stands
/// in `lines`: the least index at which there is one, or nothing where there
/// is none.
pub open spec fn is_first_block(
    lines: Seq<Seq<char>>,
    comment: Seq<Seq<char>>,
    found: Option<usize>,
) -> bool {
    match found {
        Some(at) => block_at(lines, comment, at as int) && forall|q: int|
            0 <= q < at ==> !block_at(lines, comment, q),
        None => forall|q: int| !block_at(lines, comment, q),
    }
}

/// Where the first block of `comment` and rule stands in `lines`, if
/// there is one.
pub open spec fn first_block(lines: Seq<Seq<char>>, comment: Seq<Seq<char>>) -> Option<int> {
    if exists|at: int| is_least_block(lines, comment, at) {
        Some(choose|at: int| is_least_block(lines, comment, at))
    } else {
        None
    }
}

/// Whether a block of `comment` and rule stands in `lines` at index `at`
/// and none stands before.
pub open spec fn is_least_block(lines: Seq<Seq<char>>, comment: Seq<Seq<char>>, at: int) -> bool {
    block_at(lines, comment, at) && forall|q: int| 0 <= q < at ==> !block_at(lines, comment, q)
}

/// What was found to be the first block is the first block.
pub proof fn lemma_first_block_is(
    lines: Seq<Seq<char>>,
    comment: Seq<Seq<char>>,
    found: Option<usize>,
)
    requires
        is_first_block(lines, comment, found),
    ensures
        first_block(lines, comment) == (match found {
            Some(at) => Some(at as int),
            None => None,
        }),
{
    match found {
        Some(at) => {
            assert(is_least_block(lines, comment, at as int));
            let chosen = choose|c: int| is_least_block(lines, comment, c);
            if chosen < at {
                assert(!block_at(lines, comment, chosen));
            }
            if at < chosen {
                assert(!block_at(lines, comment, at as int));
            }
        },
        None => {
            assert forall|c: int| !is_least_block(lines, comment, c) by {
                assert(!block_at(lines, comment, c));
            }
        },
    }
}

/// Where a block stands at one index only, that index is the first block.
pub proof fn lemma_first_block_of_one(lines: Seq<Seq<char>>, comment: Seq<Seq<char>>, at: int)
    requires
        forall|q: int| block_at(lines, comment, q) <==> q == at,
    ensures
        first_block(lines, comment) == Some(at),
{
    assert(is_least_block(lines, comment, at));
    let chosen = choose|c: int| is_least_block(lines, comment, c);
    assert(block_at(lines, comment, chosen));
}

fn comment_stands_at(current: &Vec<Line>, comment: &Vec<String>, at: usize) -> (found: bool)
    requires
        at + comment.len() <= current.len(),
    ensures
        found == comment_at(line_texts(current@), texts(comment@), at as int),
{
    let mut k: usize = 0;
    let ghost lines = line_texts(current@);
    let ghost want = texts(comment@);
    while k < comment.len()
        invariant
            k <= comment.len(),
            at + comment.len() <= current.len(),
            lines == line_texts(current@),
            want == texts(comment@),
            lines.subrange(at as int, at + k) == want.take(k as int),
        decreases comment.len() - k,
    {
        if !crate::text::str_eq(current[at + k].text.as_str(), comment[k].as_str()) {
            assert(lines.subrange(at as int, at + comment.len())[k as int] != want[k as int]);
            return false;
        }
        assert(lines.subrange(at as int, at + k + 1) =~= lines.subrange(at as int, at + k).push(
            lines[at + k],
        ));
        assert(want.take(k + 1) =~= want.take(k as int).push(want[k as int]));
        k += 1;
    }
    assert(want.take(comment.len() as int) =~= want);
    true
}

/// Finds the first place in the crontab where the lines of the landmark
/// comment stand with a rule behind them.
pub fn find_block(current: &Vec<Line>, comment: &Vec<String>) -> (found: Option<usize>)
    ensures
        first_block(line_texts(current@), texts(comment@)) == (match found {
            Some(at) => Some(at as int),
            None => None,
        }),
        found matches Some(at) ==> at + comment.len() < current.len(),
{
    let found = search_block(current, comment);
    proof {
        lemma_first_block_is(line_texts(current@), texts(comment@), found);
        if let Some(at) = found {
            assert(block_at(line_texts(current@), texts(comment@), at as int));
            assert(texts(comment@).len() == comment.len());
            assert(line_texts(current@).len() == current.len());
        }
    }
    found
}

fn search_block(current: &Vec<Line>, comment: &Vec<String>) -> (found: Option<usize>)
    ensures
        is_first_block(line_texts(current@), texts(comment@), found),
{
    if comment.len() >= current.len() {
        return None;
    }
    let last = current.len() - comment.len() - 1;
    let mut at: usize = 0;
    while at <= last
        invariant
            comment.len() < current.len(),
            last == current.len() - comment.len() - 1,
            forall|q: int| 0 <= q < at ==> !block_at(line_texts(current@), texts(comment@), q),
        decreases last + 1 - at,
    {
        if comment_stands_at(current, comment, at) {
            return Some(at);
        }
        if at == last {
            return None;
        }
        at += 1;
    }
    None
}

/// Whether the lines of `comment` stand nowhere in `lines`.
pub open spec fn free_of(lines: Seq<Seq<char>>, comment: Seq<Seq<char>>) -> bool {
    forall|at: int| !comment_at(lines, comment, at)
}

/// Whether the first line of `comment` stands nowhere else in it.
pub open spec fn starts_apart(comment: Seq<Seq<char>>) -> bool {
    comment.len() >= 1 && forall|j: int| 1 <= j < comment.len() ==> #[trigger] comment[j]
        != comment[0]
}

/// Behind lines that are free of a comment, the comment and a rule make
/// one block, and it is the only one.
pub proof fn lemma_one_block_after_append(
    lines: Seq<Seq<char>>,
    comment: Seq<Seq<char>>,
    rule: Seq<char>,
)
    requires
        free_of(lines, comment),
        starts_apart(comment),
    ensures
        forall|at: int| block_at(lines + comment + seq![rule], comment, at) <==> at == lines.len(),
{
    let all = lines + comment + seq![rule];
    let k = comment.len() as int;
    let n = lines.len() as int;
    assert(all.subrange(n, n + k) =~= comment);
    assert(block_at(all, comment, n));
    assert forall|at: int| block_at(all, comment, at) implies at == n by {
        let window = all.subrange(at, at + k);
        if at < n {
            if at + k <= n {
                assert(lines.subrange(at, at + k) =~= window);
                assert(comment_at(lines, comment, at));
            } else {
                assert(window[n - at] == all[n]);
                assert(all[n] == comment[0]);
                assert(comment[n - at] == comment[0]);
            }
        }
    }
}

/// The lines of `input` that stay when a block of `len + 1` lines is
/// taken out which starts at index `at`: those before the block and those
/// behind it.
pub proof fn lemma_kept_around_block(input: Seq<Line>, lines: Seq<Line>, at: int, len: int, n: int)
    requires
        0 <= at,
        0 <= len,
        at + len + 1 <= input.len(),
        lines.len() == len + 1,
        forall|k: int| 0 <= k <= len ==> (#[trigger] lines[k]).pos == at + k,
        0 <= n <= input.len(),
    ensures
        teardown::kept(input, lines, n) == (if n <= at {
            line_texts(input).take(n)
        } else if n <= at + len + 1 {
            line_texts(input).take(at)
        } else {
            line_texts(input).take(at) + line_texts(input).subrange(at + len + 1, n)
        }),
    decreases n,
{
    let all = line_texts(input);
    if n > 0 {
        lemma_kept_around_block(input, lines, at, len, n - 1);
        let i = n - 1;
        if at <= i <= at + len {
            assert(lines[i - at].pos == i);
            assert(teardown::marked(lines, i));
            if n - 1 <= at {
                assert(all.take(n - 1) =~= all.take(at));
            }
            assert(teardown::kept(input, lines, n) =~= all.take(at));
        } else {
            assert(!teardown::marked(lines, i));
            if n <= at {
                assert(all.take(n - 1) + seq![input[i].text@] =~= all.take(n));
            } else {
                if n - 1 <= at + len + 1 {
                    assert(all.take(at) + seq![input[i].text@] =~= all.take(at) + all.subrange(
                        at + len + 1,
                        n,
                    ));
                } else {
                    assert(all.take(at) + all.subrange(at + len + 1, n - 1) + seq![input[i].text@]
                        =~= all.take(at) + all.subrange(at + len + 1, n));
                }
            }
        }
    } else {
        assert(all.take(0) =~= Seq::<Seq<char>>::empty());
    }
}

} // verus!
