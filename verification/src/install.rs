//! Installation and removal: the configuration, the steps and the errors.

use vstd::prelude::*;
use vstd::string::*;
use crate::install::init::{cron, systemd, System};

use crate::Tense;

pub mod builder;
pub mod engine;
pub mod files;
pub mod init;
pub mod prepare;

pub use engine::{BestEffortRemoval, Installation, Removal};

verus! {

/// Whether to install for the whole machine or for the current user only.
#[derive(Debug, Clone, Copy, PartialEq, Eq, Structural)]
pub enum Mode {
    /// For the current user; needs no special rights.
    User,
    /// For the whole machine; installing and removing need root.
    System,
}

impl Mode {
    /// Whether this is an installation for the current user only.
    pub fn is_user(self) -> (user: bool)
        ensures
            user == (self == Mode::User),
    {
        match self {
            Mode::User => true,
            Mode::System => false,
        }
    }

    /// The word for the mode in descriptions.
    pub open spec fn text(self) -> Seq<char> {
        match self {
            Mode::User => "user"@,
            Mode::System => "system"@,
        }
    }

    /// The word for the mode: `user` or `system`.
    pub fn as_str(&self) -> (word: &'static str)
        ensures
            word@ == self.text(),
    {
        match self {
            Mode::User => "user",
            Mode::System => "system",
        }
    }

    /// The word for the mode, as an owned string.
    pub fn to_string(&self) -> (word: String)
        ensures
            word@ == self.text(),
    {
        String::from_str(self.as_str())
    }
}

/// What kind of failure the operating system reported.
#[derive(Debug, Clone, Copy, PartialEq, Eq, Structural)]
pub enum IoErrorKind {
    /// The file or directory is not there.
    NotFound,
    /// Any other failure.
    Other,
}

/// A failure of the operating system, as the caller that ran into it
/// reports it.
#[derive(Debug, Clone, PartialEq, Eq)]
pub struct IoError {
    pub kind: IoErrorKind,
    pub message: String,
}

impl IoError {
    /// A copy of the failure.
    pub fn copy(&self) -> (copy: IoError)
        ensures
            copy == *self,
    {
        IoError { kind: self.kind, message: self.message.clone() }
    }
}

/// How the user can answer when a step is put as a question.
#[derive(Debug, Clone, Copy, PartialEq, Eq, Structural)]
pub enum StepOptions {
    YesOrAbort,
}

/// Why an installation could not be prepared.
#[derive(Debug, Clone, PartialEq, Eq)]
pub enum PrepareInstallError {
    /// An init system could not be asked.
    Init(init::SetupError),
    /// The executable cannot be placed.
    Move(files::MoveError),
    /// An installation for the whole machine needs root.
    NeedRootForSysInstall,
    /// A service that runs as another user needs root to be set up.
    NeedRootToRunAs,
    /// None of the init systems is there.
    NoInitSystemRecognized,
    /// The service is to run as this user, who does not exist.
    UserDoesNotExist(String),
    /// Every init system that is there failed.
    SupportedInitSystemFailed(Vec<InitSystemFailure>),
}

/// An init system was there, and setting the service up with it failed.
/// It is reported only where no other init system did better.
#[derive(Debug, Clone, PartialEq, Eq)]
pub struct InitSystemFailure {
    /// The name of the init system.
    pub name: String,
    pub error: init::SetupError,
}

/// Why a removal could not be prepared.
#[derive(Debug, Clone, PartialEq, Eq)]
pub enum PrepareRemoveError {
    /// The path of the running executable is not known.
    GetExeLocation(IoError),
    /// The files cannot be removed.
    Move(files::DeleteError),
    /// An init system could not be asked.
    Init(init::TearDownError),
    /// No init system holds an installation.
    NoInstallFound,
    /// Removing an installation for the whole machine needs root.
    NeedRoot,
}

/// Why a step of an installation failed.
#[derive(Debug, Clone, PartialEq, Eq)]
pub enum InstallError {
    GetCrontab(cron::GetCrontabError),
    CrontabChanged(cron::teardown::CrontabChanged),
    SetCrontab(cron::SetCrontabError),
    Systemd(systemd::Error),
    SetRootOwner(IoError),
    SetReadOnly(files::SetReadOnlyError),
    /// The process that cron started will not stop.
    CouldNotStop,
    KillOld(files::process_parent::KillOldError),
    CopyExeError(IoError),
    Backup(BackupError),
    TokioRt(IoError),
}

/// Why the file at the install location could not be kept for a while.
#[derive(Debug, Clone, PartialEq, Eq)]
pub enum BackupError {
    Create(IoError),
    Write(IoError),
    Read(IoError),
}

/// Why a step of a removal failed.
#[derive(Debug, Clone, PartialEq, Eq)]
pub enum RemoveError {
    GetCrontab(cron::GetCrontabError),
    CrontabChanged(cron::teardown::CrontabChanged),
    SetCrontab(cron::SetCrontabError),
    DeleteError(files::DeleteError),
    Systemd(systemd::Error),
}

impl RemoveError {
    /// What the error says.
    pub open spec fn message(&self) -> Seq<char> {
        match self {
            RemoveError::GetCrontab(_) => "Could not get crontab, needed tot filter out our added lines"@,
            RemoveError::CrontabChanged(_) => "Crontab was modified while uninstall ran, you should manually verify it"@,
            RemoveError::SetCrontab(_) => "Could not set crontab, needed tot filter out our added lines"@,
            RemoveError::DeleteError(_) => "Could not remove file(s), error"@,
            RemoveError::Systemd(_) => "Something went wrong interacting with systemd"@,
        }
    }

    /// Says what went wrong.
    pub fn to_string(&self) -> (text: String)
        ensures
            text@ == self.message(),
    {
        match self {
            RemoveError::GetCrontab(_) => String::from_str(
                "Could not get crontab, needed tot filter out our added lines",
            ),
            RemoveError::CrontabChanged(_) => String::from_str(
                "Crontab was modified while uninstall ran, you should manually verify it",
            ),
            RemoveError::SetCrontab(_) => String::from_str(
                "Could not set crontab, needed tot filter out our added lines",
            ),
            RemoveError::DeleteError(_) => String::from_str("Could not remove file(s), error"),
            RemoveError::Systemd(_) => String::from_str(
                "Something went wrong interacting with systemd",
            ),
        }
    }
}

/// Why the undoing of a step failed. It is kept apart from the failure
/// that made the undoing necessary.
#[derive(Debug, Clone, PartialEq, Eq)]
pub enum RollbackError {
    Removing(RemoveError),
    RestoringPermissions(IoError),
    ReEnabling(systemd::Error),
    /// Setting up cron cannot be undone; it has to be done by hand.
    Impossible,
    CrontabChanged(cron::teardown::CrontabChanged),
    GetCrontab(cron::GetCrontabError),
    SetCrontab(cron::SetCrontabError),
    MovingBack(files::MoveBackError),
}

/// One step of an installation. It can be described, and the caller
/// performs it.
#[derive(Debug, Clone, PartialEq, Eq)]
pub enum InstallStep {
    /// Copy the executable to the install location.
    Move(files::Move),
    /// Make root the owner of the installed executable.
    SetRootOwner(files::SetRootOwner),
    /// Make the installed executable read and execute only.
    MakeReadExecOnly(files::MakeReadExecOnly),
    /// Say that the executable is installed already.
    FilesAlreadyInstalled(files::FilesAlreadyInstalled),
    /// Make a read only file at the install location writable.
    MakeRemovable(files::MakeRemovable),
    /// End a process that runs the file at the install location.
    KillOld(files::process_parent::KillOld),
    /// Append the landmark comment and the rule to the crontab.
    CronAdd(cron::setup::Add),
    /// Take the comment and rule of an earlier installation out of the
    /// crontab.
    CronRemovePrevious(cron::setup::RemovePrevious),
    /// Stop a process that cron started.
    CronKill(cron::disable::Kill),
    /// Turn a rule of the crontab into a comment.
    CronCommentOutRule(cron::disable::CommentOutRule),
    /// Write the unit file of the service.
    SystemdService(systemd::setup::Service),
    /// Write the unit file of the timer.
    SystemdTimer(systemd::setup::Timer),
    /// Enable and start the timer.
    SystemdEnableTimer(systemd::setup::EnableTimer),
    /// Enable and start the service.
    SystemdEnableService(systemd::setup::EnableService),
    /// Disable the services and timers that run the file at the install
    /// location.
    SystemdDisable(systemd::disable_existing::Disable),
}

impl InstallStep {
    /// The one line that says what the step does.
    pub open spec fn description(&self, tense: Tense) -> Seq<char> {
        match self {
            InstallStep::Move(step) => step.description(tense),
            InstallStep::SetRootOwner(step) => step.description(tense),
            InstallStep::MakeReadExecOnly(step) => step.description(tense),
            InstallStep::FilesAlreadyInstalled(step) => step.description(tense),
            InstallStep::MakeRemovable(step) => step.description(tense),
            InstallStep::KillOld(step) => step.description(tense),
            InstallStep::CronAdd(step) => step.description(tense),
            InstallStep::CronRemovePrevious(step) => step.description(tense),
            InstallStep::CronKill(step) => step.description(tense),
            InstallStep::CronCommentOutRule(step) => step.description(tense),
            InstallStep::SystemdService(step) => systemd::setup::writes_unit_text(
                "service"@,
                step.path@,
                tense,
            ),
            InstallStep::SystemdTimer(step) => systemd::setup::writes_unit_text(
                "timer"@,
                step.path@,
                tense,
            ),
            InstallStep::SystemdEnableTimer(step) => step.description(tense),
            InstallStep::SystemdEnableService(step) => step.description(tense),
            InstallStep::SystemdDisable(step) => step.description(tense),
        }
    }

    /// What the step does, in as much detail as there is. A step without
    /// more to say says its one line.
    pub open spec fn detailed_description(&self, tense: Tense) -> Seq<char> {
        match self {
            InstallStep::Move(step) => step.detailed_description(tense),
            InstallStep::FilesAlreadyInstalled(step) => step.detailed_description(tense),
            InstallStep::MakeRemovable(step) => step.detailed_description(tense),
            InstallStep::KillOld(step) => step.detailed_description(tense),
            InstallStep::CronAdd(step) => step.detailed_description(tense),
            InstallStep::CronRemovePrevious(step) => step.detailed_description(tense),
            InstallStep::CronKill(step) => step.detailed_description(tense),
            InstallStep::CronCommentOutRule(step) => step.detailed_description(tense),
            InstallStep::SystemdService(step) => systemd::setup::writes_unit_detailed_text(
                "service"@,
                step.path@,
                step.unit@,
                tense,
            ),
            InstallStep::SystemdTimer(step) => systemd::setup::writes_unit_detailed_text(
                "timer"@,
                step.path@,
                step.unit@,
                tense,
            ),
            InstallStep::SystemdDisable(step) => step.detailed_description(tense),
            _ => self.description(tense),
        }
    }

    /// Says in one line what performing the step does, in the tense asked
    /// for.
    pub fn describe(&self, tense: Tense) -> (text: String)
        ensures
            text@ == self.description(tense),
    {
        match self {
            InstallStep::Move(step) => step.describe(tense),
            InstallStep::SetRootOwner(step) => step.describe(tense),
            InstallStep::MakeReadExecOnly(step) => step.describe(tense),
            InstallStep::FilesAlreadyInstalled(step) => step.describe(tense),
            InstallStep::MakeRemovable(step) => step.describe(tense),
            InstallStep::KillOld(step) => step.describe(tense),
            InstallStep::CronAdd(step) => step.describe(tense),
            InstallStep::CronRemovePrevious(step) => step.describe(tense),
            InstallStep::CronKill(step) => step.describe(tense),
            InstallStep::CronCommentOutRule(step) => step.describe(tense),
            InstallStep::SystemdService(step) => step.describe(tense),
            InstallStep::SystemdTimer(step) => step.describe(tense),
            InstallStep::SystemdEnableTimer(step) => step.describe(tense),
            InstallStep::SystemdEnableService(step) => step.describe(tense),
            InstallStep::SystemdDisable(step) => step.describe(tense),
        }
    }

    /// Says what performing the step does to the machine, with as many
    /// details as there are.
    pub fn describe_detailed(&self, tense: Tense) -> (text: String)
        ensures
            text@ == self.detailed_description(tense),
    {
        match self {
            InstallStep::Move(step) => step.describe_detailed(tense),
            InstallStep::FilesAlreadyInstalled(step) => step.describe_detailed(tense),
            InstallStep::MakeRemovable(step) => step.describe_detailed(tense),
            InstallStep::KillOld(step) => step.describe_detailed(tense),
            InstallStep::CronAdd(step) => step.describe_detailed(tense),
            InstallStep::CronRemovePrevious(step) => step.describe_detailed(tense),
            InstallStep::CronKill(step) => step.describe_detailed(tense),
            InstallStep::CronCommentOutRule(step) => step.describe_detailed(tense),
            InstallStep::SystemdService(step) => step.describe_detailed(tense),
            InstallStep::SystemdTimer(step) => step.describe_detailed(tense),
            InstallStep::SystemdDisable(step) => step.describe_detailed(tense),
            InstallStep::SetRootOwner(_) | InstallStep::MakeReadExecOnly(_)
            | InstallStep::SystemdEnableTimer(_) | InstallStep::SystemdEnableService(_) =>
                self.describe(tense),
        }
    }

    /// How the user can answer when the step is put as a question; a
    /// notice has no answer.
    pub fn options(&self) -> (choice: Option<StepOptions>)
        ensures
            choice == (if self is FilesAlreadyInstalled {
                None
            } else {
                Some(StepOptions::YesOrAbort)
            }),
    {
        match self {
            InstallStep::FilesAlreadyInstalled(step) => step.options(),
            _ => Some(StepOptions::YesOrAbort),
        }
    }
}

/// One step of a removal. It can be described, and the caller performs
/// it.
#[derive(Debug, Clone, PartialEq, Eq)]
pub enum RemoveStep {
    /// Take the comment and rule of the installation out of the crontab.
    CronRemoveInstalled(cron::teardown::RemoveInstalled),
    /// Delete the installed executable.
    Remove(files::Remove),
    /// Delete the unit file of the service.
    RemoveService(systemd::teardown::RemoveService),
    /// Disable the service.
    DisableService(systemd::teardown::DisableService),
    /// Delete the unit file of the timer.
    RemoveTimer(systemd::teardown::RemoveTimer),
    /// Disable the timer.
    DisableTimer(systemd::teardown::DisableTimer),
}

impl RemoveStep {
    /// The one line that says what the step does.
    pub open spec fn description(&self, tense: Tense) -> Seq<char> {
        match self {
            RemoveStep::CronRemoveInstalled(step) => step.description(tense),
            RemoveStep::Remove(step) => step.description(tense),
            RemoveStep::RemoveService(step) => step.description(tense),
            RemoveStep::DisableService(step) => step.description(tense),
            RemoveStep::RemoveTimer(step) => step.description(tense),
            RemoveStep::DisableTimer(step) => step.description(tense),
        }
    }

    /// What the step does, in as much detail as there is.
    pub open spec fn detailed_description(&self, tense: Tense) -> Seq<char> {
        match self {
            RemoveStep::CronRemoveInstalled(step) => step.detailed_description(tense),
            RemoveStep::Remove(step) => step.detailed_description(tense),
            _ => self.description(tense),
        }
    }

    /// Says in one line what performing the step does, in the tense asked
    /// for.
    pub fn describe(&self, tense: Tense) -> (text: String)
        ensures
            text@ == self.description(tense),
    {
        match self {
            RemoveStep::CronRemoveInstalled(step) => step.describe(tense),
            RemoveStep::Remove(step) => step.describe(tense),
            RemoveStep::RemoveService(step) => step.describe(tense),
            RemoveStep::DisableService(step) => step.describe(tense),
            RemoveStep::RemoveTimer(step) => step.describe(tense),
            RemoveStep::DisableTimer(step) => step.describe(tense),
        }
    }

    /// Says what performing the step does to the machine, with as many
    /// details as there are.
    pub fn describe_detailed(&self, tense: Tense) -> (text: String)
        ensures
            text@ == self.detailed_description(tense),
    {
        match self {
            RemoveStep::CronRemoveInstalled(step) => step.describe_detailed(tense),
            RemoveStep::Remove(step) => step.describe_detailed(tense),
            RemoveStep::RemoveService(_) | RemoveStep::DisableService(_)
            | RemoveStep::RemoveTimer(_) | RemoveStep::DisableTimer(_) => self.describe(tense),
        }
    }
}

/// The undoing of a step of an installation. Every step of a removal can
/// serve as one.
#[derive(Debug, Clone, PartialEq, Eq)]
pub enum RollbackStep {
    /// Undo by removing what was installed.
    Remove(RemoveStep),
    /// Give a file the rights that it had.
    RestorePermissions(files::RestorePermissions),
    /// Put back the file that was at the install location.
    MoveBack(files::MoveBack),
    /// The change to the crontab cannot be undone.
    RollbackImpossible(cron::RollbackImpossible),
    /// Turn a rule that was made a comment into a rule again.
    RollbackCommentOut(cron::disable::RollbackCommentOut),
    /// Enable the units again that were disabled.
    ReEnable(systemd::disable_existing::ReEnable),
}

impl RollbackStep {
    /// What the step says of itself.
    pub open spec fn description(&self, tense: Tense) -> Seq<char> {
        match self {
            RollbackStep::Remove(step) => step.description(tense),
            RollbackStep::RestorePermissions(step) => step.description(tense),
            RollbackStep::MoveBack(step) => step.description(tense),
            RollbackStep::RollbackImpossible(step) => step.description(),
            RollbackStep::RollbackCommentOut(step) => step.description(tense),
            RollbackStep::ReEnable(step) => step.description(tense),
        }
    }

    /// Says what performing the step does, in the tense asked for.
    pub fn describe(&self, tense: Tense) -> (text: String)
        ensures
            text@ == self.description(tense),
    {
        match self {
            RollbackStep::Remove(step) => step.describe(tense),
            RollbackStep::RestorePermissions(step) => step.describe(tense),
            RollbackStep::MoveBack(step) => step.describe(tense),
            RollbackStep::RollbackImpossible(step) => step.describe(),
            RollbackStep::RollbackCommentOut(step) => step.describe(tense),
            RollbackStep::ReEnable(step) => step.describe(tense),
        }
    }
}

/// The steps of an installation, in the order in which they have to be
/// performed: every step counts on the ones before it.
#[derive(Debug, Clone, PartialEq, Eq)]
pub struct InstallSteps(pub Vec<InstallStep>);

/// The steps of a removal, in the order in which they have to be
/// performed.
#[derive(Debug, Clone, PartialEq, Eq)]
pub struct RemoveSteps(pub Vec<RemoveStep>);

/// The descriptions of `steps` for the future, each on a line of its own;
/// the detailed ones where `detailed` is set.
pub open spec fn install_steps_text(steps: Seq<InstallStep>, detailed: bool) -> Seq<char>
    decreases steps.len(),
{
    if steps.len() == 0 {
        Seq::empty()
    } else {
        install_steps_text(steps.drop_last(), detailed) + (if detailed {
            steps.last().detailed_description(Tense::Future)
        } else {
            steps.last().description(Tense::Future)
        }) + seq!['\n']
    }
}

/// The descriptions of `steps` for the future, each on a line of its own;
/// the detailed ones where `detailed` is set.
pub open spec fn remove_steps_text(steps: Seq<RemoveStep>, detailed: bool) -> Seq<char>
    decreases steps.len(),
{
    if steps.len() == 0 {
        Seq::empty()
    } else {
        remove_steps_text(steps.drop_last(), detailed) + (if detailed {
            steps.last().detailed_description(Tense::Future)
        } else {
            steps.last().description(Tense::Future)
        }) + seq!['\n']
    }
}

impl InstallSteps {
    fn list(&self, detailed: bool) -> (text: String)
        ensures
            text@ == install_steps_text(self.0@, detailed),
    {
        let mut text = String::new();
        let mut i: usize = 0;
        assert(text@ =~= install_steps_text(self.0@.take(0), detailed));
        while i < self.0.len()
            invariant
                i <= self.0.len(),
                text@ == install_steps_text(self.0@.take(i as int), detailed),
            decreases self.0.len() - i,
        {
            let line = if detailed {
                self.0[i].describe_detailed(Tense::Future)
            } else {
                self.0[i].describe(Tense::Future)
            };
            crate::text::push_line(&mut text, line.as_str());
            assert(self.0@.take(i + 1).drop_last() =~= self.0@.take(i as int));
            i += 1;
        }
        assert(self.0@.take(self.0.len() as int) =~= self.0@);
        text
    }

    /// Says what the installation will do, one line for every step.
    pub fn summary(&self) -> (text: String)
        ensures
            text@ == install_steps_text(self.0@, false),
    {
        self.list(false)
    }

    /// Says what the installation will do, every step in detail.
    pub fn to_string(&self) -> (text: String)
        ensures
            text@ == install_steps_text(self.0@, true),
    {
        self.list(true)
    }
}

impl RemoveSteps {
    fn list(&self, detailed: bool) -> (text: String)
        ensures
            text@ == remove_steps_text(self.0@, detailed),
    {
        let mut text = String::new();
        let mut i: usize = 0;
        assert(text@ =~= remove_steps_text(self.0@.take(0), detailed));
        while i < self.0.len()
            invariant
                i <= self.0.len(),
                text@ == remove_steps_text(self.0@.take(i as int), detailed),
            decreases self.0.len() - i,
        {
            let line = if detailed {
                self.0[i].describe_detailed(Tense::Future)
            } else {
                self.0[i].describe(Tense::Future)
            };
            crate::text::push_line(&mut text, line.as_str());
            assert(self.0@.take(i + 1).drop_last() =~= self.0@.take(i as int));
            i += 1;
        }
        assert(self.0@.take(self.0.len() as int) =~= self.0@);
        text
    }

    /// Says what the removal will do, one line for every step.
    pub fn summary(&self) -> (text: String)
        ensures
            text@ == remove_steps_text(self.0@, false),
    {
        self.list(false)
    }

    /// Says what the removal will do, every step in detail.
    pub fn to_string(&self) -> (text: String)
        ensures
            text@ == remove_steps_text(self.0@, true),
    {
        self.list(true)
    }
}

/// What went wrong in a removal that was carried on past its failures:
/// for every step that failed, what it was doing and why it failed.
#[derive(Debug, Clone, PartialEq, Eq)]
pub struct BestEffortRemoveError {
    pub failures: Vec<(String, RemoveError)>,
}

/// `s` in lower case, as `str::to_lowercase` gives it.
pub uninterp spec fn lowercase_of(s: Seq<char>) -> Seq<char>;

/// `s` in lower case.
///
/// Calls `str::to_lowercase` of the standard library, which Verus has no
/// specification for; the contract gives its result the name
/// `lowercase_of`.
#[verifier::external_body]
fn to_lowercase(s: &str) -> (lower: String)
    ensures
        lower@ == lowercase_of(s@),
{
    s.to_lowercase()
}

impl BestEffortRemoveError {
    /// The report of the failures from index `n` on.
    pub open spec fn failures_text(failures: Seq<(String, RemoveError)>) -> Seq<char>
        decreases failures.len(),
    {
        if failures.len() == 0 {
            Seq::empty()
        } else {
            Self::failures_text(failures.drop_last()) + "* Tried to "@ + lowercase_of(
                failures.last().0@,
            ) + "\nfailed because: "@ + failures.last().1.message() + "\n"@
        }
    }

    /// What the error says.
    pub open spec fn message(&self) -> Seq<char> {
        "Ran into one or more issues trying to remove an install\nYou should resolve/check these issues manually\n"@
            + Self::failures_text(self.failures@)
    }

    /// Says which steps failed and why, one entry per step.
    pub fn to_string(&self) -> (text: String)
        ensures
            text@ == self.message(),
    {
        let mut text = String::from_str(
            "Ran into one or more issues trying to remove an install\nYou should resolve/check these issues manually\n",
        );
        let ghost head = text@;
        let mut i: usize = 0;
        assert(text@ =~= head + Self::failures_text(self.failures@.take(0)));
        while i < self.failures.len()
            invariant
                i <= self.failures.len(),
                text@ == head + Self::failures_text(self.failures@.take(i as int)),
            decreases self.failures.len() - i,
        {
            text.append("* Tried to ");
            let task = to_lowercase(self.failures[i].0.as_str());
            text.append(task.as_str());
            text.append("\nfailed because: ");
            let error = self.failures[i].1.to_string();
            text.append(error.as_str());
            text.append("\n");
            assert(self.failures@.take(i + 1).drop_last() =~= self.failures@.take(i as int));
            assert(text@ =~= head + Self::failures_text(self.failures@.take(i + 1)));
            i += 1;
        }
        assert(self.failures@.take(self.failures.len() as int) =~= self.failures@);
        text
    }
}

/// Whether an installation may go ahead, as far as rights go.
///
/// An installation for the whole machine needs root. A service that is to
/// run as a given user needs the name of the current user to be known, else
/// `UserDoesNotExist`; and it needs root unless the two are the same user.
pub fn check_install_rights(
    mode: Mode,
    run_as: Option<&str>,
    is_root: bool,
    current_user: Option<&str>,
) -> (allowed: Result<(), PrepareInstallError>)
    ensures
        match allowed {
            Ok(()) => !(mode == Mode::System && !is_root) && (run_as matches Some(user)
                ==> current_user matches Some(current) && (current@ == user@ || is_root)),
            Err(PrepareInstallError::NeedRootForSysInstall) => mode == Mode::System && !is_root,
            Err(PrepareInstallError::UserDoesNotExist(name)) => !(mode == Mode::System
                && !is_root) && current_user is None && (run_as matches Some(user) && user@
                == name@),
            Err(PrepareInstallError::NeedRootToRunAs) => !(mode == Mode::System && !is_root)
                && !is_root && (run_as matches Some(user) && (current_user matches Some(current)
                && current@ != user@)),
            Err(_) => false,
        },
{
    if let Mode::System = mode {
        if !is_root {
            return Err(PrepareInstallError::NeedRootForSysInstall);
        }
    }
    if let Some(user) = run_as {
        let current = match current_user {
            Some(current) => current,
            None => {
                return Err(PrepareInstallError::UserDoesNotExist(String::from_str(user)));
            },
        };
        if !crate::text::str_eq(current, user) && !is_root {
            return Err(PrepareInstallError::NeedRootToRunAs);
        }
    }
    Ok(())
}

/// Whether a removal may go ahead, as far as rights go: removing an
/// installation for the whole machine needs root.
pub fn check_remove_rights(mode: Mode, is_root: bool) -> (allowed: Result<(), PrepareRemoveError>)
    ensures
        allowed == (if mode == Mode::System && !is_root {
            Err::<(), PrepareRemoveError>(PrepareRemoveError::NeedRoot)
        } else {
            Ok::<(), PrepareRemoveError>(())
        }),
{
    match mode {
        Mode::System => if is_root {
            Ok(())
        } else {
            Err(PrepareRemoveError::NeedRoot)
        },
        Mode::User => Ok(()),
    }
}

} // verus!
