//! Placing the executable, and taking it away again.

use vstd::prelude::*;
use vstd::string::*;
use crate::Tense;
use crate::install::{InstallStep, IoError, IoErrorKind, Mode, RemoveStep, RollbackError,
    StepOptions};
use crate::install::init::{cron, systemd, PathCheckError, System};
use crate::install::init::cron::Line;
use crate::install::init::systemd::disable_existing::ServiceFile;
use crate::install::init::systemd::unit::Unit;
use crate::install::files::process_parent::{kill_old_steps, IdRes};
use crate::paths::{file_name, file_name_of, join, joined_path, parent, parent_of};
use crate::text::{opt_chars, join_strings, joined, str_eq, texts};

pub mod process_parent;

verus! {

/// The home directory of the user is not known.
#[derive(Debug, Clone, Copy, PartialEq, Eq, Structural)]
pub struct NoHomeError;

/// Why the executable cannot be placed.
#[derive(Debug, Clone, PartialEq, Eq)]
pub enum MoveError {
    /// The home directory of the user is not known.
    NoHome(NoHomeError),
    /// None of the usual directories for a user's programs exists.
    UserDirNotAvailable,
    /// None of the usual directories for the machine's programs exists.
    SystemDirNotAvailable,
    /// The path of the source names no file.
    SourceNotFile,
    /// The executable could not be moved.
    IO(IoError),
    /// A file of that name is at the install location already, and
    /// overwriting is not allowed.
    TargetExists { name: String, dir: String },
    /// The file at the install location is in use.
    TargetInUse(TargetInUseError),
    /// Whether the file at the install location is read only could not be
    /// found out.
    CheckExistingFilePermissions(IoError),
    /// The path of the running executable could not be found out.
    ResolveCurrentExe(IoError),
}

/// Why the file at the install location, which is running, cannot be
/// replaced.
#[derive(Debug, Clone, PartialEq, Eq)]
pub enum TargetInUseError {
    /// The process that runs it has no parent; how it was started is not
    /// known.
    NoParent,
    /// The path of its parent could not be resolved.
    ResolvePath(PathCheckError),
    /// These are its ancestors.
    Parents(Vec<String>),
    /// A service runs it, and the service could not be disabled.
    CouldNotDisable(DisableError),
}

/// Why a service that keeps the file in use could not be disabled.
#[derive(Debug, Clone, PartialEq, Eq)]
pub enum DisableError {
    SystemD(systemd::DisableError),
    Cron(cron::disable::Error),
}

/// Why the installed executable cannot be removed.
#[derive(Debug, Clone, PartialEq, Eq)]
pub enum DeleteError {
    NoHome(NoHomeError),
    UserDirNotAvailable,
    SystemDirNotAvailable,
    SourceNotFile,
    IO(IoError),
    GetExeLocation(IoError),
    /// Only the running executable may be uninstalled.
    ExeNotInstalled { running: String, installed: String },
}

/// Why the original file could not be put back.
#[derive(Debug, Clone, PartialEq, Eq)]
pub enum MoveBackError {
    ReadingBackup(IoError),
    WritingToTarget(IoError),
}

/// Why the rights of the installed file could not be set.
#[derive(Debug, Clone, PartialEq, Eq)]
pub enum SetReadOnlyError {
    GetPermissions(IoError),
    SetPermissions(IoError),
}

impl DisableError {
    /// What the error says: what the error of the init system says.
    pub open spec fn message(&self) -> Seq<char> {
        match self {
            DisableError::SystemD(e) => e.message(),
            DisableError::Cron(e) => e.message(),
        }
    }

    /// Says what went wrong.
    pub fn to_string(&self) -> (text: String)
        ensures
            text@ == self.message(),
    {
        match self {
            DisableError::SystemD(e) => e.to_string(),
            DisableError::Cron(e) => e.to_string(),
        }
    }
}

impl TargetInUseError {
    /// What the error says.
    pub open spec fn message(&self) -> Seq<char> {
        match self {
            TargetInUseError::NoParent => "There is already a file at the install location. It can not be replaced as it is running. We have no information on how it was started as it has no parent\n"@,
            TargetInUseError::ResolvePath(_) => "There is already a file at the install location. It can not be replaced as it is running. While it has a parent we failed to get information about it\n"@,
            TargetInUseError::Parents(tree) => "There is already a file at the install location. It can not be replaced as it is running.\n\tThe process tree that started that:\n\t`"@
                + joined(texts(tree@), " -> "@)
                + "`\nIn this tree the arrow means left started the right process\n"@,
            TargetInUseError::CouldNotDisable(e) => "The file we need to replace is in use by a running service however we could not disable that service. "@
                + e.message() + "\n"@,
        }
    }

    /// Says why the file cannot be replaced: for ancestors, with the chain
    /// of processes, each started by the one before; for a service that
    /// could not be disabled, with the reason.
    pub fn to_string(&self) -> (text: String)
        ensures
            text@ == self.message(),
    {
        match self {
            TargetInUseError::NoParent => String::from_str(
                "There is already a file at the install location. It can not be replaced as it is running. We have no information on how it was started as it has no parent\n",
            ),
            TargetInUseError::ResolvePath(_) => String::from_str(
                "There is already a file at the install location. It can not be replaced as it is running. While it has a parent we failed to get information about it\n",
            ),
            TargetInUseError::Parents(tree) => {
                let mut text = String::from_str(
                    "There is already a file at the install location. It can not be replaced as it is running.\n\tThe process tree that started that:\n\t`",
                );
                let tree = join_strings(tree, " -> ");
                text.append(tree.as_str());
                text.append("`\nIn this tree the arrow means left started the right process\n");
                text
            },
            TargetInUseError::CouldNotDisable(e) => {
                let mut text = String::from_str(
                    "The file we need to replace is in use by a running service however we could not disable that service. ",
                );
                let why = e.to_string();
                text.append(why.as_str());
                text.append("\n");
                text
            },
        }
    }
}

/// The directory that the machine's programs are installed to.
pub const SYSTEM_DIR: &'static str = "/usr/bin/";

/// The directory below the home directory that a user's programs are
/// installed to.
pub const USER_DIR: &'static str = ".local/bin";

/// Whether `path` is one of `dirs`.
pub open spec fn among(dirs: Seq<String>, path: Seq<char>) -> bool {
    exists|i: int| 0 <= i < dirs.len() && (#[trigger] dirs[i])@ == path
}

fn is_among(dirs: &Vec<String>, path: &str) -> (found: bool)
    ensures
        found == among(dirs@, path@),
{
    let mut i: usize = 0;
    while i < dirs.len()
        invariant
            i <= dirs.len(),
            forall|k: int| 0 <= k < i ==> (#[trigger] dirs[k])@ != path@,
        decreases dirs.len() - i,
    {
        if str_eq(dirs[i].as_str(), path) {
            return true;
        }
        i += 1;
    }
    false
}

/// Whether the directory above `dir` is one of `dirs`.
pub open spec fn parent_exists(dir: Seq<char>, dirs: Seq<String>) -> bool {
    parent_of(dir) matches Some(above) && among(dirs, above)
}

fn has_parent(dir: &str, dirs: &Vec<String>) -> (found: bool)
    ensures
        found == parent_exists(dir@, dirs@),
{
    match parent(dir) {
        Some(above) => is_among(dirs, above.as_str()),
        None => false,
    }
}

/// The directory for the machine's programs, where the directory above it
/// exists. `dirs` are the directories that the caller found to exist.
pub fn system_dir(dirs: &Vec<String>) -> (dir: Option<String>)
    ensures
        match dir {
            Some(d) => d@ == SYSTEM_DIR@ && parent_exists(SYSTEM_DIR@, dirs@),
            None => !parent_exists(SYSTEM_DIR@, dirs@),
        },
{
    if has_parent(SYSTEM_DIR, dirs) {
        Some(String::from_str(SYSTEM_DIR))
    } else {
        None
    }
}

/// The directory for the user's programs: `.local/bin` below `home`,
/// where the directory above it exists. Without a home directory there is
/// none to look for.
pub fn user_dir(home: Option<&str>, dirs: &Vec<String>) -> (dir: Result<
    Option<String>,
    NoHomeError,
>)
    ensures
        match home {
            None => dir is Err,
            Some(h) => match dir {
                Ok(Some(d)) => d@ == joined_path(h@, USER_DIR@) && parent_exists(d@, dirs@),
                Ok(None) => !parent_exists(joined_path(h@, USER_DIR@), dirs@),
                Err(_) => false,
            },
        },
{
    let home = match home {
        Some(h) => h,
        None => {
            return Err(NoHomeError);
        },
    };
    let path = join(home, USER_DIR);
    if has_parent(path.as_str(), dirs) {
        Ok(Some(path))
    } else {
        Ok(None)
    }
}

/// The directory of `path` for descriptions: what lies above it, or
/// nothing where nothing does.
pub open spec fn dir_text(path: Seq<char>) -> Seq<char> {
    match parent_of(path) {
        Some(dir) => dir,
        None => Seq::empty(),
    }
}

fn dir_of(path: &str) -> (dir: String)
    ensures
        dir@ == dir_text(path@),
{
    match parent(path) {
        Some(dir) => dir,
        None => String::new(),
    }
}

/// The step that copies the executable to the install location.
#[derive(Debug, Clone, PartialEq, Eq)]
pub struct Move {
    /// The file name of the executable.
    pub name: String,
    /// Where it is copied from.
    pub source: String,
    /// Where it is copied to.
    pub target: String,
}

impl Move {
    /// The one line that says what the step does.
    pub open spec fn description(&self, tense: Tense) -> Seq<char> {
        tense.pick_text("Copied"@, "Copy"@, "Will copy"@, "Copying"@) + " executable `"@
            + self.name@ + "` to:\n|\t"@ + dir_text(self.target@) + tense.punct_text()
    }

    /// What the step does, with both directories.
    pub open spec fn detailed_description(&self, tense: Tense) -> Seq<char> {
        tense.pick_text("Copied"@, "Copy"@, "Will copy"@, "Copying"@) + " executable `"@
            + self.name@ + "`"@ + tense.punct_text() + "\n| from:\n|\t"@ + dir_text(self.source@)
            + "\n| to:\n|\t"@ + dir_text(self.target@)
    }

    /// Says which executable is copied to which directory.
    pub fn describe(&self, tense: Tense) -> (text: String)
        ensures
            text@ == self.description(tense),
    {
        let mut text = String::from_str(tense.pick("Copied", "Copy", "Will copy", "Copying"));
        text.append(" executable `");
        text.append(self.name.as_str());
        text.append("` to:\n|\t");
        let target = dir_of(self.target.as_str());
        text.append(target.as_str());
        text.append(tense.punct());
        text
    }

    /// Says which executable is copied from which directory to which.
    pub fn describe_detailed(&self, tense: Tense) -> (text: String)
        ensures
            text@ == self.detailed_description(tense),
    {
        let mut text = String::from_str(tense.pick("Copied", "Copy", "Will copy", "Copying"));
        text.append(" executable `");
        text.append(self.name.as_str());
        text.append("`");
        text.append(tense.punct());
        text.append("\n| from:\n|\t");
        let source = dir_of(self.source.as_str());
        text.append(source.as_str());
        text.append("\n| to:\n|\t");
        let target = dir_of(self.target.as_str());
        text.append(target.as_str());
        text
    }

    /// The step that undoes this one: where a file was at the install
    /// location before, that file is put back; else the copy is deleted.
    pub fn rollback(&self, target_was_file: bool) -> (undo: crate::install::RollbackStep)
        ensures
            target_was_file ==> (undo matches crate::install::RollbackStep::MoveBack(back)
                && back.target@ == self.target@),
            !target_was_file ==> (undo matches crate::install::RollbackStep::Remove(
                RemoveStep::Remove(remove),
            ) && remove.target@ == self.target@),
    {
        if target_was_file {
            crate::install::RollbackStep::MoveBack(MoveBack { target: self.target.clone() })
        } else {
            crate::install::RollbackStep::Remove(
                RemoveStep::Remove(Remove { target: self.target.clone() }),
            )
        }
    }
}

/// The step that puts back the file that was at the install location
/// before. The caller keeps the copy of that file.
#[derive(Debug, Clone, PartialEq, Eq)]
pub struct MoveBack {
    /// Where the file is put back.
    pub target: String,
}

impl MoveBack {
    /// What the step says of itself.
    pub open spec fn description(&self, tense: Tense) -> Seq<char> {
        tense.pick_text("Moved"@, "Move"@, "Will move"@, "Moving"@)
            + " back the file that was origonally at the install location"@ + tense.punct_text()
    }

    /// Says that the original file is put back.
    pub fn describe(&self, tense: Tense) -> (text: String)
        ensures
            text@ == self.description(tense),
    {
        let mut text = String::from_str(tense.pick("Moved", "Move", "Will move", "Moving"));
        text.append(" back the file that was origonally at the install location");
        text.append(tense.punct());
        text
    }
}

/// The user and group id of root.
pub const ROOT: u32 = 0;

/// The step that makes root the owner of the installed executable. It
/// cannot be undone.
#[derive(Debug, Clone, PartialEq, Eq)]
pub struct SetRootOwner {
    pub path: String,
}

impl SetRootOwner {
    /// What the step says of itself.
    pub open spec fn description(&self, tense: Tense) -> Seq<char> {
        tense.pick_text("Set"@, "Set"@, "Will set"@, "Setting"@) + " executables owner to root"@
            + tense.punct_text()
    }

    /// Says that root becomes the owner.
    pub fn describe(&self, tense: Tense) -> (text: String)
        ensures
            text@ == self.description(tense),
    {
        let mut text = String::from_str(tense.pick("Set", "Set", "Will set", "Setting"));
        text.append(" executables owner to root");
        text.append(tense.punct());
        text
    }
}

/// The rights of an installed executable: everyone may read and run it,
/// nobody may write it.
pub const READ_EXEC_ONLY: u32 = 0o555;

/// The rights that make a file removable by its owner.
pub const REMOVABLE: u32 = 0o600;

/// The step that makes the installed executable read and execute only.
#[derive(Debug, Clone, PartialEq, Eq)]
pub struct MakeReadExecOnly {
    pub path: String,
}

impl MakeReadExecOnly {
    /// What the step says of itself.
    pub open spec fn description(&self, tense: Tense) -> Seq<char> {
        tense.pick_text("Made"@, "Make"@, "Will make"@, "Making"@)
            + " the executable read and execute only"@ + tense.punct_text()
    }

    /// Says that the executable is made read and execute only.
    pub fn describe(&self, tense: Tense) -> (text: String)
        ensures
            text@ == self.description(tense),
    {
        let mut text = String::from_str(tense.pick("Made", "Make", "Will make", "Making"));
        text.append(" the executable read and execute only");
        text.append(tense.punct());
        text
    }

    /// The step that undoes this one: it gives the file the rights
    /// `org_permissions` that it had.
    pub fn rollback(&self, org_permissions: u32) -> (undo: RestorePermissions)
        ensures
            undo.path@ == self.path@,
            undo.org_permissions == org_permissions,
    {
        RestorePermissions { path: self.path.clone(), org_permissions }
    }
}

/// The step that gives a file the rights that it had.
#[derive(Debug, Clone, PartialEq, Eq)]
pub struct RestorePermissions {
    pub path: String,
    /// The rights that the file had.
    pub org_permissions: u32,
}

impl RestorePermissions {
    /// What the step says of itself.
    pub open spec fn description(&self, tense: Tense) -> Seq<char> {
        tense.pick_text("Restored"@, "Restore"@, "Will Restore"@, "Restoring"@)
            + " executables previous permissions"@ + tense.punct_text()
    }

    /// Says that the previous rights are restored.
    pub fn describe(&self, tense: Tense) -> (text: String)
        ensures
            text@ == self.description(tense),
    {
        let mut text = String::from_str(
            tense.pick("Restored", "Restore", "Will Restore", "Restoring"),
        );
        text.append(" executables previous permissions");
        text.append(tense.punct());
        text
    }

    /// What the step comes to, from what setting the rights gave. A file
    /// that is no longer there is no failure: it may have been overwritten
    /// or removed since.
    pub fn outcome(&self, set: Result<(), IoError>) -> (done: Result<(), RollbackError>)
        ensures
            match set {
                Ok(()) => done is Ok,
                Err(e) => if e.kind == IoErrorKind::NotFound {
                    done is Ok
                } else {
                    done == Err::<(), RollbackError>(RollbackError::RestoringPermissions(e))
                },
            },
    {
        match set {
            Ok(()) => Ok(()),
            Err(e) => match e.kind {
                IoErrorKind::NotFound => Ok(()),
                IoErrorKind::Other => Err(RollbackError::RestoringPermissions(e)),
            },
        }
    }
}

/// The notice that the executable is installed at the install location
/// already. There is nothing to perform.
#[derive(Debug, Clone, PartialEq, Eq)]
pub struct FilesAlreadyInstalled {
    pub target: String,
}

impl FilesAlreadyInstalled {
    /// The one line of the notice.
    pub open spec fn description(&self, tense: Tense) -> Seq<char> {
        tense.pick_text(
            "this binary was already installed in the target location"@,
            "this binary is already installed in the target location"@,
            "this binary is already installed in the target location"@,
            "this binary is already installed in the target location"@,
        )
    }

    /// The notice with the install location.
    pub open spec fn detailed_description(&self, tense: Tense) -> Seq<char> {
        self.description(tense) + "\n\t-target location: "@ + self.target@
    }

    /// Says that the binary is installed already.
    pub fn describe(&self, tense: Tense) -> (text: String)
        ensures
            text@ == self.description(tense),
    {
        String::from_str(
            tense.pick(
                "this binary was already installed in the target location",
                "this binary is already installed in the target location",
                "this binary is already installed in the target location",
                "this binary is already installed in the target location",
            ),
        )
    }

    /// Says that the binary is installed already, and where.
    pub fn describe_detailed(&self, tense: Tense) -> (text: String)
        ensures
            text@ == self.detailed_description(tense),
    {
        let mut text = self.describe(tense);
        text.append("\n\t-target location: ");
        text.append(self.target.as_str());
        text
    }

    /// A notice is no question: there is nothing to answer.
    pub fn options(&self) -> (choice: Option<StepOptions>)
        ensures
            choice is None,
    {
        None
    }
}

/// The step that makes a read only file at the install location writable,
/// so that it can be replaced.
#[derive(Debug, Clone, PartialEq, Eq)]
pub struct MakeRemovable(pub String);

impl MakeRemovable {
    /// The one line that says what the step does.
    pub open spec fn description(&self, tense: Tense) -> Seq<char> {
        tense.pick_text("Made"@, "Make"@, "Will make"@, "Making"@)
            + " the file taking up the install location removable"@ + tense.punct_text()
    }

    /// What the step does, with the file.
    pub open spec fn detailed_description(&self, tense: Tense) -> Seq<char> {
        "A read only file is taking up the install location. "@ + tense.pick_text(
            "Made"@,
            "Make"@,
            "Will make"@,
            "Making"@,
        ) + " it removable by making it writable"@ + tense.punct_text() + "\n| file:\n|\t"@
            + self.0@
    }

    /// Says that the file in the way is made removable.
    pub fn describe(&self, tense: Tense) -> (text: String)
        ensures
            text@ == self.description(tense),
    {
        let mut text = String::from_str(tense.pick("Made", "Make", "Will make", "Making"));
        text.append(" the file taking up the install location removable");
        text.append(tense.punct());
        text
    }

    /// Says which file is made removable, and how.
    pub fn describe_detailed(&self, tense: Tense) -> (text: String)
        ensures
            text@ == self.detailed_description(tense),
    {
        let mut text = String::from_str("A read only file is taking up the install location. ");
        text.append(tense.pick("Made", "Make", "Will make", "Making"));
        text.append(" it removable by making it writable");
        text.append(tense.punct());
        text.append("\n| file:\n|\t");
        text.append(self.0.as_str());
        text
    }

    /// The step that undoes this one: it gives the file the rights
    /// `org_permissions` that it had.
    pub fn rollback(&self, org_permissions: u32) -> (undo: RestorePermissions)
        ensures
            undo.path@ == self.0@,
            undo.org_permissions == org_permissions,
    {
        RestorePermissions { path: self.0.clone(), org_permissions }
    }
}

/// The step that deletes the installed executable.
#[derive(Debug, Clone, PartialEq, Eq)]
pub struct Remove {
    pub target: String,
}

impl Remove {
    /// The name of the installed executable: the last component of its
    /// path, or the path where it has none.
    pub open spec fn bin_text(&self) -> Seq<char> {
        match file_name_of(self.target@) {
            Some(name) => name,
            None => self.target@,
        }
    }

    /// The one line that says what the step does.
    pub open spec fn description(&self, tense: Tense) -> Seq<char> {
        tense.pick_text("Removed"@, "Remove"@, "Will remove"@, "Removing"@)
            + " installed executable `"@ + self.bin_text() + "`"@ + tense.punct_text()
    }

    /// What the step does, with the directory.
    pub open spec fn detailed_description(&self, tense: Tense) -> Seq<char> {
        self.description(tense) + " Is installed at:\n|\t"@ + dir_text(self.target@)
    }

    /// Says which executable is removed.
    pub fn describe(&self, tense: Tense) -> (text: String)
        ensures
            text@ == self.description(tense),
    {
        let mut text = String::from_str(tense.pick("Removed", "Remove", "Will remove", "Removing"));
        text.append(" installed executable `");
        match file_name(self.target.as_str()) {
            Some(name) => text.append(name.as_str()),
            None => text.append(self.target.as_str()),
        }
        text.append("`");
        text.append(tense.punct());
        text
    }

    /// Says which executable is removed, and from which directory.
    pub fn describe_detailed(&self, tense: Tense) -> (text: String)
        ensures
            text@ == self.detailed_description(tense),
    {
        let mut text = self.describe(tense);
        text.append(" Is installed at:\n|\t");
        let dir = dir_of(self.target.as_str());
        text.append(dir.as_str());
        text
    }
}

/// The step that removes the executable installed at `installed`.
pub fn remove_files(installed: String) -> (step: Remove)
    ensures
        step.target == installed,
{
    Remove { target: installed }
}

/// The step that makes the file at `target` removable, where there is a
/// file and it is read only. `readonly` is what looking at the file gave.
pub fn make_removable_if_needed(target: &str, readonly: Result<bool, IoError>) -> (step: Result<
    Option<InstallStep>,
    MoveError,
>)
    ensures
        match readonly {
            Ok(true) => step matches Ok(Some(InstallStep::MakeRemovable(make))) && make.0@
                == target@,
            Ok(false) => step matches Ok(None),
            Err(e) => if e.kind == IoErrorKind::NotFound {
                step matches Ok(None)
            } else {
                step == Err::<Option<InstallStep>, MoveError>(
                    MoveError::CheckExistingFilePermissions(e),
                )
            },
        },
{
    match readonly {
        Ok(true) => Ok(Some(InstallStep::MakeRemovable(MakeRemovable(String::from_str(target))))),
        Ok(false) => Ok(None),
        Err(e) => match e.kind {
            IoErrorKind::NotFound => Ok(None),
            IoErrorKind::Other => Err(MoveError::CheckExistingFilePermissions(e)),
        },
    }
}

/// Where the executable goes.
#[derive(Debug, Clone, PartialEq, Eq)]
pub struct Location {
    /// The install directory.
    pub dir: String,
    /// The file name of the executable.
    pub name: String,
    /// The path of the installed executable.
    pub target: String,
}

/// The install directory for `mode`, or why there is none.
pub open spec fn install_dir(
    mode: Mode,
    home: Option<Seq<char>>,
    dirs: Seq<String>,
) -> Result<Seq<char>, MoveError> {
    match mode {
        Mode::System => if parent_exists(SYSTEM_DIR@, dirs) {
            Ok(SYSTEM_DIR@)
        } else {
            Err(MoveError::SystemDirNotAvailable)
        },
        Mode::User => match home {
            None => Err(MoveError::NoHome(NoHomeError)),
            Some(h) => if parent_exists(joined_path(h, USER_DIR@), dirs) {
                Ok(joined_path(h, USER_DIR@))
            } else {
                Err(MoveError::UserDirNotAvailable)
            },
        },
    }
}

/// Finds where the executable at `source` goes: into the install directory
/// for `mode`, under its own file name.
pub fn install_location(source: &str, mode: Mode, home: Option<&str>, dirs: &Vec<String>) -> (place:
    Result<Location, MoveError>)
    ensures
        match install_dir(
            mode,
            opt_chars(home),
            dirs@,
        ) {
            Err(e) => place == Err::<Location, MoveError>(e),
            Ok(dir) => match file_name_of(source@) {
                None => place == Err::<Location, MoveError>(MoveError::SourceNotFile),
                Some(name) => place matches Ok(found) && found.dir@ == dir && found.name@ == name
                    && found.target@ == joined_path(dir, name),
            },
        },
{
    let dir = match mode {
        Mode::User => match user_dir(home, dirs) {
            Ok(Some(dir)) => dir,
            Ok(None) => {
                return Err(MoveError::UserDirNotAvailable);
            },
            Err(e) => {
                return Err(MoveError::NoHome(e));
            },
        },
        Mode::System => match system_dir(dirs) {
            Some(dir) => dir,
            None => {
                return Err(MoveError::SystemDirNotAvailable);
            },
        },
    };
    let name = match file_name(source) {
        Some(name) => name,
        None => {
            return Err(MoveError::SourceNotFile);
        },
    };
    let target = join(dir.as_str(), name.as_str());
    Ok(Location { dir, name, target })
}

/// What the caller found at the install location.
#[derive(Debug, PartialEq, Eq)]
pub struct Found {
    /// Whether a file is there.
    pub is_file: bool,
    /// The path of the running executable, or why it is not known. It is
    /// looked at only where a file is there.
    pub current_exe: Result<String, IoError>,
    /// Whether the file there is read only, or why that is not known.
    pub readonly: Result<bool, IoError>,
}

/// Whether `steps` place the executable: copy it, make the copy read and
/// execute only and, for the whole machine, make root its owner.
pub open spec fn places(
    steps: Seq<InstallStep>,
    source: Seq<char>,
    place: Location,
    mode: Mode,
) -> bool {
    &&& steps.len() == (if mode == Mode::System {
        3int
    } else {
        2int
    })
    &&& steps[0] matches InstallStep::Move(copy) && copy.name@ == place.name@ && copy.source@
        == source && copy.target@ == place.target@
    &&& steps[1] matches InstallStep::MakeReadExecOnly(make) && make.path@ == place.target@
    &&& mode == Mode::System ==> (steps[2] matches InstallStep::SetRootOwner(own) && own.path@
        == place.target@)
}

/// What placing the executable plans, or why it cannot be placed.
///
/// Where the file at the install location is the running executable, there
/// is nothing to do but to say so. Where another file is there and must not
/// be overwritten: `TargetExists`. Else, in this order: the step that makes
/// a read only file there removable, the steps that free the file from
/// whatever runs it, and the steps that place the executable.
pub open spec fn move_plan(
    source: Seq<char>,
    mode: Mode,
    overwrite_existing: bool,
    place: Location,
    found: Found,
    disable_steps: Result<Vec<InstallStep>, TargetInUseError>,
    plan: Result<(Vec<InstallStep>, String), MoveError>,
) -> bool {
    if found.is_file && found.current_exe is Err {
        plan == Err::<(Vec<InstallStep>, String), MoveError>(
            MoveError::ResolveCurrentExe(found.current_exe->Err_0),
        )
    } else if found.is_file && found.current_exe->Ok_0@ == place.target@ {
        plan matches Ok((steps, target)) && target@ == place.target@ && steps.len() == 1 && (
        steps[0] matches InstallStep::FilesAlreadyInstalled(notice) && notice.target@
            == place.target@)
    } else if found.is_file && !overwrite_existing {
        plan matches Err(MoveError::TargetExists { name, dir }) && name@ == place.name@ && dir@
            == place.dir@
    } else {
        match found.readonly {
            Err(e) if e.kind != IoErrorKind::NotFound => plan == Err::<
                (Vec<InstallStep>, String),
                MoveError,
            >(MoveError::CheckExistingFilePermissions(e)),
            _ => match disable_steps {
                Err(e) => plan == Err::<(Vec<InstallStep>, String), MoveError>(
                    MoveError::TargetInUse(e),
                ),
                Ok(free) => {
                    let first: int = if found.readonly == Ok::<bool, IoError>(true) {
                        1
                    } else {
                        0
                    };
                    &&& plan matches Ok((steps, target))
                    &&& target@ == place.target@
                    &&& steps.len() >= first + free.len()
                    &&& first == 1 ==> (steps[0] matches InstallStep::MakeRemovable(make)
                        && make.0@ == place.target@)
                    &&& steps@.subrange(first, first + free.len()) == free@
                    &&& places(steps@.skip(first + free.len()), source, place, mode)
                },
            },
        }
    }
}

/// Plans the steps that place the executable at `source` at `place`.
///
/// `found` is what the caller found at the install location, and
/// `disable_steps` the steps that stop whatever runs the file there, or why
/// it cannot be stopped.
pub fn move_files(
    source: String,
    mode: Mode,
    overwrite_existing: bool,
    place: Location,
    found: Found,
    disable_steps: Result<Vec<InstallStep>, TargetInUseError>,
) -> (plan: Result<(Vec<InstallStep>, String), MoveError>)
    ensures
        move_plan(source@, mode, overwrite_existing, place, found, disable_steps, plan),
{
    let Found { is_file, current_exe, readonly } = found;
    if is_file {
        match current_exe {
            Err(e) => {
                return Err(MoveError::ResolveCurrentExe(e));
            },
            Ok(exe) => {
                if str_eq(exe.as_str(), place.target.as_str()) {
                    let mut steps: Vec<InstallStep> = Vec::new();
                    steps.push(
                        InstallStep::FilesAlreadyInstalled(
                            FilesAlreadyInstalled { target: place.target.clone() },
                        ),
                    );
                    return Ok((steps, place.target));
                }
            },
        }
        if !overwrite_existing {
            return Err(MoveError::TargetExists { name: place.name, dir: place.dir });
        }
    }
    let mut steps: Vec<InstallStep> = Vec::new();
    if let Some(make_removable) = make_removable_if_needed(place.target.as_str(), readonly)? {
        steps.push(make_removable);
    }
    let ghost first = steps@.len() as int;
    let ghost head = steps@;
    let mut free = match disable_steps {
        Ok(free) => free,
        Err(e) => {
            return Err(MoveError::TargetInUse(e));
        },
    };
    let ghost freeing = free@;
    steps.append(&mut free);
    assert(steps@.subrange(first, first + freeing.len()) =~= freeing);
    let ghost before = steps@;
    steps.push(
        InstallStep::Move(
            Move { name: place.name.clone(), source, target: place.target.clone() },
        ),
    );
    steps.push(InstallStep::MakeReadExecOnly(MakeReadExecOnly { path: place.target.clone() }));
    if let Mode::System = mode {
        steps.push(InstallStep::SetRootOwner(SetRootOwner { path: place.target.clone() }));
    }
    proof {
        assert(steps@.subrange(first, first + freeing.len()) =~= freeing);
        let tail = steps@.skip(first + freeing.len());
        assert(tail[0] == steps@[first + freeing.len()]);
        assert(tail[1] == steps@[first + freeing.len() + 1]);
        if mode == Mode::System {
            assert(tail[2] == steps@[first + freeing.len() + 2]);
        }
    }
    Ok((steps, place.target))
}

/// What the caller read for the init systems, to find what runs the
/// target.
#[derive(Debug, PartialEq, Eq)]
pub struct InitFacts {
    /// The service and timer units of the directory of unit files, or why
    /// they could not be read.
    pub units: Result<(Vec<ServiceFile>, Vec<Unit>), systemd::DisableError>,
    /// The crontab, or why it could not be read.
    pub crontab: Result<Vec<Line>, cron::GetCrontabError>,
}

/// Why the file `target` cannot be freed from a process with this origin,
/// if it cannot.
///
/// A process without a parent cannot be freed. One that systemd started
/// cannot where the unit files could not be read or none of them runs the
/// target; one that cron started cannot where the crontab could not be
/// read.
pub open spec fn freeing_error(
    target: Seq<char>,
    origin: IdRes,
    mode: Mode,
    facts: InitFacts,
) -> Option<TargetInUseError> {
    match origin {
        IdRes::NoParent => Some(TargetInUseError::NoParent),
        IdRes::ParentNotInit { .. } => None,
        IdRes::ParentIsInit { init: System::Systemd, .. } => match facts.units {
            Err(e) => Some(TargetInUseError::CouldNotDisable(DisableError::SystemD(e))),
            Ok((services, timers)) => if systemd::disable_existing::disable_plan(
                target,
                mode,
                services@,
                timers@,
                Err(systemd::DisableError::NoServiceOrTimerFound),
            ) {
                Some(
                    TargetInUseError::CouldNotDisable(
                        DisableError::SystemD(systemd::DisableError::NoServiceOrTimerFound),
                    ),
                )
            } else {
                None
            },
        },
        IdRes::ParentIsInit { init: System::Cron, .. } => match facts.crontab {
            Err(e) => Some(
                TargetInUseError::CouldNotDisable(
                    DisableError::Cron(cron::disable::Error::GetCrontab(e)),
                ),
            ),
            Ok(_) => None,
        },
    }
}

/// Whether `steps` free the file `target` from a process with this
/// origin: one that an init system started is disabled as that init system
/// plans it, any other is ended.
pub open spec fn frees(
    target: Seq<char>,
    origin: IdRes,
    mode: Mode,
    run_as: Option<Seq<char>>,
    facts: InitFacts,
    steps: Seq<InstallStep>,
) -> bool {
    match origin {
        IdRes::NoParent => false,
        IdRes::ParentNotInit { parents, pid } => steps.len() == 1 && (
        steps[0] matches InstallStep::KillOld(kill) && kill.pid == pid && texts(kill.parents@)
            == texts(parents@)),
        IdRes::ParentIsInit { init: System::Systemd, .. } => facts.units matches Ok(
            (services, timers),
        ) && (exists|list: Vec<InstallStep>|
            list@ == steps && systemd::disable_existing::disable_plan(
                target,
                mode,
                services@,
                timers@,
                Ok(list),
            )),
        IdRes::ParentIsInit { init: System::Cron, pid } => facts.crontab matches Ok(crontab)
            && cron::disable::disable_plan(target, pid, run_as, crontab@, steps),
    }
}

/// Whether the process at index `at` is the first from which the file
/// cannot be freed.
pub open spec fn first_stuck(
    target: Seq<char>,
    running: Seq<IdRes>,
    mode: Mode,
    facts: InitFacts,
    at: int,
) -> bool {
    0 <= at < running.len() && freeing_error(target, running[at], mode, facts) is Some
        && forall|k: int|
        0 <= k < at ==> freeing_error(target, #[trigger] running[k], mode, facts) is None
}

/// What freeing the file `target` plans, or why it cannot be freed.
///
/// Where the origin of a process could not be told: `ResolvePath`. Where
/// the file cannot be freed from one of the processes: the error of the
/// first such. Else, for every process in order, the steps that free the
/// file from it.
pub open spec fn free_plan(
    target: Seq<char>,
    running: Result<Vec<IdRes>, PathCheckError>,
    mode: Mode,
    run_as: Option<Seq<char>>,
    facts: InitFacts,
    plan: Result<Vec<InstallStep>, TargetInUseError>,
) -> bool {
    match running {
        Err(e) => plan == Err::<Vec<InstallStep>, TargetInUseError>(
            TargetInUseError::ResolvePath(e),
        ),
        Ok(origins) => match plan {
            Err(e) => exists|at: int|
                first_stuck(target, origins@, mode, facts, at) && freeing_error(
                    target,
                    origins[at],
                    mode,
                    facts,
                ) == Some(e),
            Ok(steps) => exists|parts: Seq<Seq<InstallStep>>|
                {
                    &&& parts.len() == origins.len()
                    &&& forall|i: int|
                        0 <= i < origins.len() ==> frees(
                            target,
                            origins[i],
                            mode,
                            run_as,
                            facts,
                            #[trigger] parts[i],
                        )
                    &&& steps@ == parts.flatten()
                },
        },
    }
}

/// Plans the steps that stop what runs the file at `target`, so that the
/// file can be replaced.
///
/// `running` says, for every process that runs `target`, who started it,
/// as `process_parent::list` found it; `facts` is what the caller read for
/// the init systems.
pub fn disable_if_running(
    target: &str,
    running: Result<Vec<IdRes>, PathCheckError>,
    mode: Mode,
    run_as: Option<&str>,
    facts: InitFacts,
) -> (plan: Result<Vec<InstallStep>, TargetInUseError>)
    ensures
        free_plan(
            target@,
            running,
            mode,
            opt_chars(run_as),
            facts,
            plan,
        ),
{
    let origins = match running {
        Ok(origins) => origins,
        Err(e) => {
            return Err(TargetInUseError::ResolvePath(e));
        },
    };
    let ghost user = opt_chars(run_as);
    let InitFacts { units, crontab } = facts;
    let mut steps: Vec<InstallStep> = Vec::new();
    let ghost mut parts: Seq<Seq<InstallStep>> = Seq::empty();
    let mut i: usize = 0;
    proof {
        assert(parts.flatten() =~= Seq::<InstallStep>::empty());
    }
    while i < origins.len()
        invariant
            i <= origins.len(),
            running == Ok::<Vec<IdRes>, PathCheckError>(origins),
            facts == (InitFacts { units, crontab }),
            user == (opt_chars(run_as)),
            parts.len() == i,
            forall|k: int|
                0 <= k < i ==> freeing_error(target@, #[trigger] origins[k], mode, facts) is None,
            forall|k: int|
                0 <= k < i ==> frees(target@, origins[k], mode, user, facts, #[trigger] parts[k]),
            steps@ == parts.flatten(),
        decreases origins.len() - i,
    {
        let mut part: Vec<InstallStep> = match &origins[i] {
            IdRes::NoParent => {
                assert(first_stuck(target@, origins@, mode, facts, i as int));
                return Err(TargetInUseError::NoParent);
            },
            IdRes::ParentNotInit { parents, pid } => {
                let mut part: Vec<InstallStep> = Vec::new();
                let mut copy: Vec<String> = Vec::new();
                let mut k: usize = 0;
                while k < parents.len()
                    invariant
                        k <= parents.len(),
                        copy@ == parents@.take(k as int),
                    decreases parents.len() - k,
                {
                    copy.push(parents[k].clone());
                    assert(copy@ =~= parents@.take(k + 1));
                    k += 1;
                }
                assert(copy@ =~= parents@);
                part.push(kill_old_steps(*pid, copy));
                part
            },
            IdRes::ParentIsInit { init: System::Systemd, pid } => match &units {
                Err(_) => {
                    assert(first_stuck(target@, origins@, mode, facts, i as int));
                    match units {
                        Err(e) => {
                            return Err(
                                TargetInUseError::CouldNotDisable(DisableError::SystemD(e)),
                            );
                        },
                        Ok(_) => Vec::new(),
                    }
                },
                Ok((services, timers)) => match systemd::disable_existing::disable_step(
                    target,
                    mode,
                    services,
                    timers,
                ) {
                    Ok(part) => part,
                    Err(e) => {
                        assert(first_stuck(target@, origins@, mode, facts, i as int));
                        return Err(TargetInUseError::CouldNotDisable(DisableError::SystemD(e)));
                    },
                },
            },
            IdRes::ParentIsInit { init: System::Cron, pid } => match &crontab {
                Err(_) => {
                    assert(first_stuck(target@, origins@, mode, facts, i as int));
                    match crontab {
                        Err(e) => {
                            return Err(
                                TargetInUseError::CouldNotDisable(
                                    DisableError::Cron(cron::disable::Error::GetCrontab(e)),
                                ),
                            );
                        },
                        Ok(_) => Vec::new(),
                    }
                },
                Ok(lines) => cron::disable::step(target, *pid, run_as, lines),
            },
        };
        proof {
            assert(frees(target@, origins[i as int], mode, user, facts, part@));
            let grown = parts.push(part@);
            assert(grown.drop_last() =~= parts);
            grown.lemma_flatten_push(part@);
            assert(grown.flatten() =~= steps@ + part@) by {
                parts.lemma_flatten_push(part@);
            }
            parts = grown;
        }
        steps.append(&mut part);
        i += 1;
    }
    Ok(steps)
}

impl System {
    /// Plans the steps that keep this init system from running `target`
    /// again and that stop the process `pid`, which it started. `facts` is
    /// what the caller read for the init systems.
    pub fn disable_steps(
        &self,
        target: &str,
        pid: u32,
        mode: Mode,
        run_as: Option<&str>,
        facts: InitFacts,
    ) -> (plan: Result<Vec<InstallStep>, TargetInUseError>)
        ensures
            match plan {
                Ok(steps) => frees(
                    target@,
                    IdRes::ParentIsInit { init: *self, pid },
                    mode,
                    opt_chars(run_as),
                    facts,
                    steps@,
                ),
                Err(e) => freeing_error(
                    target@,
                    IdRes::ParentIsInit { init: *self, pid },
                    mode,
                    facts,
                ) == Some(e),
            },
    {
        match self {
            System::Systemd => match facts.units {
                Err(e) => Err(TargetInUseError::CouldNotDisable(DisableError::SystemD(e))),
                Ok((services, timers)) => match systemd::disable_existing::disable_step(
                    target,
                    mode,
                    &services,
                    &timers,
                ) {
                    Ok(steps) => Ok(steps),
                    Err(e) => Err(TargetInUseError::CouldNotDisable(DisableError::SystemD(e))),
                },
            },
            System::Cron => match facts.crontab {
                Err(e) => Err(
                    TargetInUseError::CouldNotDisable(
                        DisableError::Cron(cron::disable::Error::GetCrontab(e)),
                    ),
                ),
                Ok(crontab) => Ok(cron::disable::step(target, pid, run_as, &crontab)),
            },
        }
    }
}

} // verus!
