//! The init systems that can start a service, and the text they share: the
//! landmark comment and the two quoting grammars.

use vstd::prelude::*;
use vstd::string::*;
use crate::text::{opt_chars, opt_text, push_char, push_replaced, replace_char, lines_of,
    lines_text, plain_line, plain_lines, lemma_lines_of_first, lemma_line_end_of_plain,
    lemma_lines_text_of_both, lemma_lines_text_of_one};
use crate::install::{IoError, Mode};
use crate::install::files::NoHomeError;
use crate::install::builder::Trigger;

pub mod cron;
pub mod extract_path;
pub mod systemd;

verus! {

/// How the comment that marks what this crate installed begins.
pub const COMMENT_PREAMBLE: &'static str = "# created by: ";

/// How the comment that marks what this crate installed ends.
pub const COMMENT_SUFFIX: &'static str =
    " during its installation\n# might get removed by it in the future.\n# Remove this comment to prevent that";

/// The landmark comment for the binary `bin_name`.
pub open spec fn comment_text(bin_name: Seq<char>) -> Seq<char> {
    COMMENT_PREAMBLE@ + seq!['\''] + bin_name + seq!['\''] + COMMENT_SUFFIX@
}

/// The comment that marks an entry as installed by the binary `bin_name`.
/// It is the only thing by which an installation is found again.
pub fn autogenerated_comment(bin_name: &str) -> (comment: String)
    ensures
        comment@ == comment_text(bin_name@),
{
    let mut comment = String::from_str(COMMENT_PREAMBLE);
    push_char(&mut comment, '\'');
    comment.append(bin_name);
    push_char(&mut comment, '\'');
    comment.append(COMMENT_SUFFIX);
    comment
}

/// The three lines of the landmark comment for a binary whose name holds
/// no line feed.
pub open spec fn comment_lines(bin_name: Seq<char>) -> Seq<Seq<char>> {
    seq![
        COMMENT_PREAMBLE@ + seq!['\''] + bin_name + "' during its installation"@,
        "# might get removed by it in the future."@,
        "# Remove this comment to prevent that"@,
    ]
}

/// The landmark comment of a binary whose name holds no line feed has three
/// lines. Each can stand as a line of a crontab, and the first differs from
/// the two after it.
pub proof fn lemma_comment_lines(bin_name: Seq<char>)
    requires
        forall|i: int| 0 <= i < bin_name.len() ==> #[trigger] bin_name[i] != '\n',
    ensures
        lines_of(comment_text(bin_name)) == comment_lines(bin_name),
        plain_lines(comment_lines(bin_name)),
        comment_lines(bin_name)[1] != comment_lines(bin_name)[0],
        comment_lines(bin_name)[2] != comment_lines(bin_name)[0],
        comment_text(bin_name).len() > 0,
        comment_text(bin_name).last() != '\n',
        comment_text(bin_name).last() != '\r',
{
    reveal_strlit("# created by: ");
    reveal_strlit(
        " during its installation\n# might get removed by it in the future.\n# Remove this comment to prevent that",
    );
    reveal_strlit("' during its installation");
    reveal_strlit("# might get removed by it in the future.");
    reveal_strlit("# Remove this comment to prevent that");
    let lines = comment_lines(bin_name);
    let first = lines[0];
    let second = lines[1];
    let third = lines[2];
    assert(first[2] == 'c');
    assert(second[2] == 'm');
    assert(third[2] == 'R');
    assert(comment_text(bin_name) =~= first + seq!['\n'] + (second + seq!['\n'] + third));
    assert(first.last() == 'n');
    assert(plain_line(first));
    assert(plain_line(second));
    assert(plain_line(third));
    lemma_lines_of_first(first, second + seq!['\n'] + third);
    lemma_lines_of_first(second, third);
    lemma_line_end_of_plain(third, Seq::empty());
    assert(lines_of(third) =~= seq![third]);
    assert(lines_of(comment_text(bin_name)) =~= lines);
}

/// The landmark comment, closed by a line feed, is its three lines written
/// out.
pub proof fn lemma_comment_written(bin_name: Seq<char>)
    ensures
        comment_text(bin_name) + seq!['\n'] == lines_text(comment_lines(bin_name)),
{
    reveal_strlit("# created by: ");
    reveal_strlit(
        " during its installation\n# might get removed by it in the future.\n# Remove this comment to prevent that",
    );
    reveal_strlit("' during its installation");
    reveal_strlit("# might get removed by it in the future.");
    reveal_strlit("# Remove this comment to prevent that");
    let feed = seq!['\n'];
    let comment = comment_lines(bin_name);
    assert(comment =~= seq![comment[0]] + seq![comment[1]] + seq![comment[2]]);
    lemma_lines_text_of_both(seq![comment[0]] + seq![comment[1]], seq![comment[2]]);
    lemma_lines_text_of_both(seq![comment[0]], seq![comment[1]]);
    lemma_lines_text_of_one(comment[0]);
    lemma_lines_text_of_one(comment[1]);
    lemma_lines_text_of_one(comment[2]);
    assert(comment_text(bin_name) + feed =~= comment[0] + feed + (comment[1] + feed) + (comment[2]
        + feed));
}

/// An init system that this crate can set a service up for.
#[derive(Debug, Clone, Copy, PartialEq, Eq, Structural)]
pub enum System {
    Systemd,
    Cron,
}

impl System {
    /// The name of the init system as text.
    pub open spec fn name_text(self) -> Seq<char> {
        match self {
            System::Systemd => "Systemd"@,
            System::Cron => "Cron"@,
        }
    }

    /// The name of the init system.
    pub fn name(&self) -> (name: &'static str)
        ensures
            name@ == self.name_text(),
    {
        match self {
            System::Systemd => "Systemd",
            System::Cron => "Cron",
        }
    }

    /// Whether `path` is that of this init system. For systemd, `resolved`
    /// is what resolving the path gave; the resolved path has to name
    /// systemd. For cron the path itself has to end in `/cron`.
    pub open spec fn init_path(
        self,
        path: Seq<char>,
        resolved: Result<String, IoError>,
    ) -> Result<bool, PathCheckError> {
        match self {
            System::Systemd => match resolved {
                Ok(p) => Ok(systemd::names_systemd(p@)),
                Err(e) => Err(PathCheckError(e)),
            },
            System::Cron => Ok(cron::is_cron_path(path)),
        }
    }

    /// Whether the process that runs `path` is this init system.
    /// `resolved` is what resolving `path` gave; only systemd looks at it.
    pub fn is_init_path(&self, path: &str, resolved: &Result<String, IoError>) -> (found: Result<
        bool,
        PathCheckError,
    >)
        ensures
            found == self.init_path(path@, *resolved),
    {
        match self {
            System::Systemd => match resolved {
                Ok(p) => systemd::path_is_systemd(Ok(p.clone())),
                Err(e) => systemd::path_is_systemd(Err(e.copy())),
            },
            System::Cron => Ok(cron::is_init_path(path)),
        }
    }

    /// Whether this init system cannot be used on this machine: for
    /// systemd, the first process is not systemd; for cron, no cron daemon
    /// runs. `init_path` is what resolving the path of the first process
    /// gave; `processes` is the process table.
    pub fn not_available(
        &self,
        init_path: &Result<String, IoError>,
        processes: &Vec<crate::install::files::process_parent::Process>,
    ) -> (missing: Result<bool, SetupError>)
        ensures
            match self {
                System::Systemd => match *init_path {
                    Ok(p) => missing == Ok::<bool, SetupError>(!systemd::names_systemd(p@)),
                    Err(e) => missing == Err::<bool, SetupError>(
                        SetupError::Systemd(systemd::Error::CheckingInitSys(PathCheckError(e))),
                    ),
                },
                System::Cron => missing == Ok::<bool, SetupError>(!cron::cron_runs(processes@)),
            },
    {
        match self {
            System::Systemd => match init_path {
                Ok(p) => systemd::not_available(Ok(p.clone())),
                Err(e) => systemd::not_available(Err(e.copy())),
            },
            System::Cron => Ok(cron::not_available(processes)),
        }
    }

    /// Every init system, in the order in which they are tried: systemd, then
    /// cron.
    pub fn all() -> (systems: Vec<System>)
        ensures
            systems@ == seq![System::Systemd, System::Cron],
    {
        let mut systems = Vec::new();
        systems.push(System::Systemd);
        systems.push(System::Cron);
        assert(systems@ =~= seq![System::Systemd, System::Cron]);
        systems
    }
}

/// What the caller read for setting up: each init system looks at its
/// own part only.
#[derive(Debug, PartialEq, Eq)]
pub struct SetUpFacts {
    /// The home directory of the installing user.
    pub home: Option<String>,
    /// Whether a service of the name to set up is active now, or why that
    /// could not be found out.
    pub already_running: Result<bool, systemd::Error>,
    /// The crontab, or why it could not be read.
    pub crontab: Result<Vec<cron::Line>, cron::GetCrontabError>,
}

/// What the caller read for tearing down: each init system looks at its
/// own part only.
#[derive(Debug, PartialEq, Eq)]
pub struct TearDownFacts {
    /// The home directory of the user.
    pub home: Option<String>,
    /// What the directory of unit files holds.
    pub entries: Vec<systemd::find::DirEntry>,
    /// The crontab, or why it could not be read.
    pub crontab: Result<Vec<cron::Line>, cron::GetCrontabError>,
}

impl System {
    /// What setting up with this init system plans, or why it cannot:
    /// what the init system's own planning gives, from its part of what was
    /// read. A crontab that could not be read is cron's failure.
    pub open spec fn set_up_plan(
        self,
        params: &Params,
        facts: SetUpFacts,
        plan: Result<Vec<crate::install::InstallStep>, SetupError>,
    ) -> bool {
        match self {
            System::Systemd => systemd::set_up_plan(
                params,
                opt_text(facts.home),
                facts.already_running,
                plan,
            ),
            System::Cron => match facts.crontab {
                Err(e) => plan == Err::<Vec<crate::install::InstallStep>, SetupError>(
                    SetupError::Cron(cron::setup::Error::GetCrontab(e)),
                ),
                Ok(lines) => plan matches Ok(steps) && cron::setup::set_up_plan(
                    params,
                    lines@,
                    steps@,
                ),
            },
        }
    }

    /// Plans the steps that set the service up with this init system.
    pub fn set_up_steps(&self, params: &Params, facts: SetUpFacts) -> (plan: Result<
        Vec<crate::install::InstallStep>,
        SetupError,
    >)
        ensures
            self.set_up_plan(params, facts, plan),
    {
        match self {
            System::Systemd => {
                let home = match &facts.home {
                    Some(h) => Some(h.as_str()),
                    None => None,
                };
                systemd::set_up_steps(params, home, facts.already_running)
            },
            System::Cron => match facts.crontab {
                Err(e) => Err(SetupError::Cron(cron::setup::Error::GetCrontab(e))),
                Ok(lines) => Ok(cron::setup::set_up_steps(params, &lines)),
            },
        }
    }

    /// What tearing down finds in this init system, or why it cannot
    /// look: what the init system's own search gives, from its part of what
    /// was read. A crontab that could not be read is cron's failure.
    pub open spec fn tear_down_plan(
        self,
        bin_name: Seq<char>,
        mode: Mode,
        user: Option<Seq<char>>,
        facts: TearDownFacts,
        plan: Result<Option<(Vec<crate::install::RemoveStep>, String)>, TearDownError>,
    ) -> bool {
        match self {
            System::Systemd => systemd::tear_down_plan(
                mode,
                opt_text(facts.home),
                facts.entries@,
                plan,
            ),
            System::Cron => match facts.crontab {
                Err(e) => plan == Err::<
                    Option<(Vec<crate::install::RemoveStep>, String)>,
                    TearDownError,
                >(TearDownError::Cron(cron::teardown::Error::GetCrontab(e))),
                Ok(lines) => plan matches Ok(found) && cron::teardown::tear_down_plan(
                    bin_name,
                    user,
                    lines@,
                    found,
                ),
            },
        }
    }

    /// Looks in this init system for what the binary `bin_name` installed,
    /// and plans its removal. Cron keeps one crontab per user: `user` says
    /// whose crontab was read, where it is not the caller's own.
    pub fn tear_down_steps(
        &self,
        bin_name: &str,
        mode: Mode,
        user: Option<&str>,
        facts: TearDownFacts,
    ) -> (plan: Result<Option<(Vec<crate::install::RemoveStep>, String)>, TearDownError>)
        ensures
            self.tear_down_plan(
                bin_name@,
                mode,
                opt_chars(user),
                facts,
                plan,
            ),
    {
        match self {
            System::Systemd => {
                let home = match &facts.home {
                    Some(h) => Some(h.as_str()),
                    None => None,
                };
                systemd::tear_down_steps(mode, home, &facts.entries)
            },
            System::Cron => match facts.crontab {
                Err(e) => Err(TearDownError::Cron(cron::teardown::Error::GetCrontab(e))),
                Ok(lines) => Ok(cron::teardown::tear_down_steps(bin_name, mode, user, &lines)),
            },
        }
    }
}

/// A path could not be resolved.
#[derive(Debug, Clone, PartialEq, Eq)]
pub struct PathCheckError(pub IoError);

/// Why an init system could not be set up.
#[derive(Debug, Clone, PartialEq, Eq)]
pub enum SetupError {
    /// Something went wrong with systemd.
    Systemd(systemd::Error),
    /// Something went wrong with the crontab.
    Cron(cron::setup::Error),
    /// The home directory of the user is not known.
    NoHome(NoHomeError),
}

/// Why an installation could not be torn down.
#[derive(Debug, Clone, PartialEq, Eq)]
pub enum TearDownError {
    /// Something went wrong with the crontab.
    Cron(cron::teardown::Error),
    /// Something went wrong with systemd.
    Systemd(systemd::Error),
    /// The home directory of the user is not known.
    NoHome(NoHomeError),
    /// A timer of this crate has no service of this crate beside it.
    TimerWithoutService,
    /// The path of the executable could not be found.
    FindingExePath(systemd::FindExeError),
    /// The services of this crate start different executables; which to
    /// remove cannot be told.
    MultipleExePaths(Vec<String>),
}

/// What every init system is told about the service to set up.
#[derive(Debug, Clone, PartialEq, Eq)]
pub struct Params {
    /// The name of the service.
    pub name: String,
    /// The name of the binary that installs; it goes into the landmark comment.
    pub bin_name: String,
    /// What the service is for, in words.
    pub description: Option<String>,
    /// Where the executable was placed.
    pub exe_path: String,
    /// The arguments the executable is started with.
    pub exe_args: Vec<String>,
    /// The environment variables it is started with, in the order in which
    /// they are written out. No name holds an equals sign.
    pub environment: Vec<(String, String)>,
    /// The directory it is started in.
    pub working_dir: Option<String>,
    /// What starts it.
    pub trigger: Trigger,
    /// The user it runs as, where that is not the installing user.
    pub run_as: Option<String>,
    /// For whom it is installed.
    pub mode: Mode,
}

/// Whether `name` can name an environment variable: it holds no equals
/// sign.
pub open spec fn is_variable_name(name: Seq<char>) -> bool {
    forall|i: int| 0 <= i < name.len() ==> #[trigger] name[i] != '='
}

impl Params {
    /// Whether the values are in order: no name of an environment variable
    /// holds an equals sign.
    pub open spec fn wf(&self) -> bool {
        forall|i: int|
            0 <= i < self.environment.len() ==> is_variable_name(
                (#[trigger] self.environment[i]).0@,
            )
    }

    /// The description of the service: the one given, or `starts` and the
    /// service's name.
    pub open spec fn description_text(&self) -> Seq<char> {
        match self.description {
            Some(d) => d@,
            None => "starts "@ + self.name@,
        }
    }

    /// The description of the service: the one given, or `starts` and the
    /// service's name.
    pub fn description(&self) -> (text: String)
        ensures
            text@ == self.description_text(),
    {
        match &self.description {
            Some(d) => d.clone(),
            None => {
                let mut text = String::from_str("starts ");
                text.append(self.name.as_str());
                text
            },
        }
    }
}

/// Whether a shell reads `c` as itself outside quotes: a letter or digit of
/// ASCII, or one of `-_=/,.+`.
pub open spec fn shell_safe(c: char) -> bool {
    ('a' <= c <= 'z') || ('A' <= c <= 'Z') || ('0' <= c <= '9') || c == '-' || c == '_' || c == '='
        || c == '/' || c == ',' || c == '.' || c == '+'
}

/// Whether every character of `s` is shell safe.
pub open spec fn all_shell_safe(s: Seq<char>) -> bool {
    forall|i: int| 0 <= i < s.len() ==> shell_safe(#[trigger] s[i])
}

/// What stands between the outer single quotes of a quoted word: `s` with
/// every single quote and every exclamation mark taken out of the quotes,
/// protected by a backslash, and the quotes opened again.
pub open spec fn shell_quoted_body(s: Seq<char>) -> Seq<char>
    decreases s.len(),
{
    if s.len() == 0 {
        Seq::empty()
    } else {
        (if s[0] == '\'' || s[0] == '!' {
            seq!['\'', '\\', s[0], '\'']
        } else {
            seq![s[0]]
        }) + shell_quoted_body(s.drop_first())
    }
}

/// `s` as one shell word: unchanged where it is not empty and all its
/// characters are shell safe, in single quotes otherwise.
pub open spec fn shell_escaped_text(s: Seq<char>) -> Seq<char> {
    if s.len() > 0 && all_shell_safe(s) {
        s
    } else {
        seq!['\''] + shell_quoted_body(s) + seq!['\'']
    }
}

/// `s` as one shell word.
///
/// Calls `shell_escape::unix::escape`. The contract states what its source
/// does: a string that is not empty and holds only ASCII letters, digits and
/// `-_=/,.+` comes back unchanged; any other is wrapped in single quotes, with
/// `'\''` written for each single quote and `'\!'` for each exclamation mark.
#[verifier::external_body]
fn shell_escape_unix(s: &str) -> (word: String)
    ensures
        word@ == shell_escaped_text(s@),
{
    shell_escape::unix::escape(std::borrow::Cow::Borrowed(s)).into_owned()
}

/// Text that can stand as one word in a shell command.
pub trait ShellEscape {
    /// The characters of the text.
    spec fn plain(&self) -> Seq<char>;

    /// The text quoted for a shell.
    fn shell_escaped(&self) -> (word: String)
        ensures
            word@ == shell_escaped_text(self.plain()),
    ;
}

impl ShellEscape for String {
    open spec fn plain(&self) -> Seq<char> {
        self@
    }

    fn shell_escaped(&self) -> (word: String) {
        shell_escape_unix(self.as_str())
    }
}

impl ShellEscape for &str {
    open spec fn plain(&self) -> Seq<char> {
        self@
    }

    fn shell_escaped(&self) -> (word: String) {
        shell_escape_unix(self)
    }
}

/// `s` as one item of a systemd setting: in double quotes, with a backslash
/// before every double quote of `s`.
pub open spec fn systemd_escaped_text(s: Seq<char>) -> Seq<char> {
    seq!['"'] + replace_char(s, '"', seq!['\\', '"']) + seq!['"']
}

/// Text that can stand as one item of a systemd setting.
pub trait SystemdEscape {
    /// The characters of the text.
    spec fn unquoted(&self) -> Seq<char>;

    /// The text quoted for systemd.
    fn systemd_escape(&self) -> (item: String)
        ensures
            item@ == systemd_escaped_text(self.unquoted()),
    ;
}

fn systemd_quote(s: &str) -> (item: String)
    ensures
        item@ == systemd_escaped_text(s@),
{
    let mut item = String::new();
    push_char(&mut item, '"');
    proof {
        reveal_strlit("\\\"");
        assert("\\\""@ =~= seq!['\\', '"']);
    }
    push_replaced(&mut item, s, '"', "\\\"");
    push_char(&mut item, '"');
    assert(item@ =~= systemd_escaped_text(s@));
    item
}

impl SystemdEscape for String {
    open spec fn unquoted(&self) -> Seq<char> {
        self@
    }

    fn systemd_escape(&self) -> (item: String) {
        systemd_quote(self.as_str())
    }
}

impl SystemdEscape for &str {
    open spec fn unquoted(&self) -> Seq<char> {
        self@
    }

    fn systemd_escape(&self) -> (item: String) {
        systemd_quote(self)
    }
}

} // verus!
