//! Who started the process that keeps the install location busy.

use vstd::prelude::*;
use vstd::string::*;
use crate::Tense;
use crate::install::{InstallStep, IoError};
use crate::install::init::{PathCheckError, System};
use crate::text::{decimal, join_strings, joined, push_decimal, str_eq, texts};

verus! {

/// One entry of the process table, as the caller read it.
#[derive(Debug, PartialEq, Eq)]
pub struct Process {
    /// The process id.
    pub pid: u32,
    /// The id of the process that started it, where it is known.
    pub parent: Option<u32>,
    /// The path of the executable it runs, where it is known.
    pub exe: Option<String>,
    /// The command line it was started with.
    pub cmd: Vec<String>,
    /// What resolving the path that it runs gave: the path without links
    /// and dots, or why it could not be resolved.
    pub resolved: Result<String, IoError>,
}

impl Process {
    /// The path that the process runs: that of its executable, else the
    /// first word of its command line.
    pub open spec fn path_text(&self) -> Option<Seq<char>> {
        match self.exe {
            Some(exe) => Some(exe@),
            None => if self.cmd.len() > 0 {
                Some(self.cmd[0]@)
            } else {
                None
            },
        }
    }

    /// The path that the process runs: that of its executable, else the
    /// first word of its command line.
    pub fn path(&self) -> (path: Option<String>)
        ensures
            crate::text::opt_text(path) == self.path_text(),
    {
        match &self.exe {
            Some(exe) => Some(exe.clone()),
            None => if self.cmd.len() > 0 {
                Some(self.cmd[0].clone())
            } else {
                None
            },
        }
    }
}

/// Who started a process that runs the target.
#[derive(Debug, Clone, PartialEq, Eq)]
pub enum IdRes {
    /// Nobody that is still there: the process is an orphan.
    NoParent,
    /// An init system that this crate knows.
    ParentIsInit { init: System, pid: u32 },
    /// Something else; `parents` are the paths of its ancestors, the
    /// nearest first.
    ParentNotInit { parents: Vec<String>, pid: u32 },
}

/// Who started a process, as text.
pub enum Origin {
    NoParent,
    ParentIsInit { init: System, pid: u32 },
    ParentNotInit { parents: Seq<Seq<char>>, pid: u32 },
}

impl IdRes {
    /// The answer as text.
    pub open spec fn view(&self) -> Origin {
        match self {
            IdRes::NoParent => Origin::NoParent,
            IdRes::ParentIsInit { init, pid } => Origin::ParentIsInit { init: *init, pid: *pid },
            IdRes::ParentNotInit { parents, pid } => Origin::ParentNotInit {
                parents: texts(parents@),
                pid: *pid,
            },
        }
    }
}

/// The first of `init_systems`, up to index `n`, that takes the path for
/// its own; or the failure to resolve the path, where systemd has to be
/// asked before one does.
pub open spec fn init_among(
    init_systems: Seq<System>,
    path: Seq<char>,
    resolved: Result<String, IoError>,
    from: int,
) -> Result<Option<System>, PathCheckError>
    decreases init_systems.len() - from,
{
    if from < 0 || from >= init_systems.len() {
        Ok(None)
    } else {
        match System::init_path(init_systems[from], path, resolved) {
            Err(e) => Err(e),
            Ok(true) => Ok(Some(init_systems[from])),
            Ok(false) => init_among(init_systems, path, resolved, from + 1),
        }
    }
}

/// Who started the process `pid`, from the paths of its ancestors: nobody
/// where there are none; an init system where the nearest ancestor is one;
/// else its ancestors.
pub open spec fn origin_of(
    tree: Seq<Seq<char>>,
    pid: u32,
    init_systems: Seq<System>,
    resolved: Result<String, IoError>,
) -> Result<Origin, PathCheckError> {
    if tree.len() == 0 {
        Ok(Origin::NoParent)
    } else {
        match init_among(init_systems, tree[0], resolved, 0) {
            Err(e) => Err(e),
            Ok(Some(init)) => Ok(Origin::ParentIsInit { init, pid }),
            Ok(None) => Ok(Origin::ParentNotInit { parents: tree, pid }),
        }
    }
}

/// The answer as text, or the failure.
pub open spec fn origin_view(found: Result<IdRes, PathCheckError>) -> Result<
    Origin,
    PathCheckError,
> {
    match found {
        Ok(id) => Ok(id.view()),
        Err(e) => Err(e),
    }
}

impl IdRes {
    /// Says who started the process `pid`.
    ///
    /// `tree` holds the paths of its ancestors, the nearest first, and
    /// `resolved` what resolving the path of the nearest gave. The init
    /// systems are asked in order whether the nearest ancestor is theirs.
    pub fn from_tree_and_pid(
        tree: Vec<String>,
        pid: u32,
        init_systems: &Vec<System>,
        resolved: &Result<String, IoError>,
    ) -> (found: Result<IdRes, PathCheckError>)
        ensures
            origin_view(found) == origin_of(texts(tree@), pid, init_systems@, *resolved),
    {
        if tree.len() == 0 {
            return Ok(IdRes::NoParent);
        }
        let mut i: usize = 0;
        let ghost direct = tree[0]@;
        assert(texts(tree@)[0] == direct);
        while i < init_systems.len()
            invariant
                i <= init_systems.len(),
                tree.len() > 0,
                direct == tree[0]@,
                init_among(init_systems@, direct, *resolved, i as int) == init_among(
                    init_systems@,
                    direct,
                    *resolved,
                    0,
                ),
            decreases init_systems.len() - i,
        {
            match init_systems[i].is_init_path(tree[0].as_str(), resolved) {
                Ok(true) => {
                    return Ok(IdRes::ParentIsInit { init: init_systems[i], pid });
                },
                Ok(false) => {},
                Err(e) => {
                    return Err(e);
                },
            }
            i += 1;
        }
        Ok(IdRes::ParentNotInit { pid, parents: tree })
    }
}

/// The index of the first process with the id `pid`, from index `from`
/// on.
pub open spec fn index_of_pid(processes: Seq<Process>, pid: u32, from: int) -> Option<int>
    decreases processes.len() - from,
{
    if from < 0 || from >= processes.len() {
        None
    } else if processes[from].pid == pid {
        Some(from)
    } else {
        index_of_pid(processes, pid, from + 1)
    }
}

/// The index of an entry of the process table is within the table.
pub proof fn lemma_index_of_pid_bounds(processes: Seq<Process>, pid: u32, from: int)
    ensures
        index_of_pid(processes, pid, from) matches Some(i) ==> from <= i < processes.len()
            && processes[i].pid == pid,
    decreases processes.len() - from,
{
    if 0 <= from < processes.len() && processes[from].pid != pid {
        lemma_index_of_pid_bounds(processes, pid, from + 1);
    }
}

fn find_pid(processes: &Vec<Process>, pid: u32) -> (found: Option<usize>)
    ensures
        index_of_pid(processes@, pid, 0) == (match found {
            Some(i) => Some(i as int),
            None => None,
        }),
        found matches Some(i) ==> i < processes.len(),
{
    let mut i: usize = 0;
    while i < processes.len()
        invariant
            i <= processes.len(),
            index_of_pid(processes@, pid, i as int) == index_of_pid(processes@, pid, 0),
        decreases processes.len() - i,
    {
        if processes[i].pid == pid {
            return Some(i);
        }
        i += 1;
    }
    None
}

/// The process that started the one at index `at`, where it is in the
/// table and the path that it runs is known.
pub open spec fn parent_index(processes: Seq<Process>, at: int) -> Option<int> {
    match processes[at].parent {
        None => None,
        Some(pid) => match index_of_pid(processes, pid, 0) {
            None => None,
            Some(j) => if processes[j].path_text() is Some {
                Some(j)
            } else {
                None
            },
        },
    }
}

/// The ancestors of the process at index `at`, the nearest first: its
/// parent, the parent of that, and so on, until one is not in the table or
/// the path that it runs is not known. No more than `fuel` are followed.
pub open spec fn ancestors(processes: Seq<Process>, at: int, fuel: nat) -> Seq<int>
    decreases fuel,
{
    if fuel == 0 {
        Seq::empty()
    } else {
        match parent_index(processes, at) {
            None => Seq::empty(),
            Some(j) => seq![j] + ancestors(processes, j, (fuel - 1) as nat),
        }
    }
}

/// The paths that the processes at the indices `chain` run.
pub open spec fn paths_of(processes: Seq<Process>, chain: Seq<int>) -> Seq<Seq<char>> {
    Seq::new(chain.len(), |k: int| processes[chain[k]].path_text().unwrap())
}

/// Whether the process at index `at` runs `target`.
pub open spec fn runs(processes: Seq<Process>, target: Seq<char>, at: int) -> bool {
    0 <= at < processes.len() && (processes[at].exe matches Some(exe) && exe@ == target)
}

/// Whether the process at index `at` runs `target` and was not started by
/// another process that runs `target`.
pub open spec fn is_root(processes: Seq<Process>, target: Seq<char>, at: int) -> bool {
    runs(processes, target, at) && match processes[at].parent {
        None => true,
        Some(pid) => forall|j: int| !(runs(processes, target, j) && processes[j].pid == pid),
    }
}

/// Who started the process at index `at`: what its ancestors say, with
/// the path of the nearest resolved.
pub open spec fn identified(
    processes: Seq<Process>,
    at: int,
    init_systems: Seq<System>,
) -> Result<Origin, PathCheckError> {
    let chain = ancestors(processes, at, processes.len());
    origin_of(
        paths_of(processes, chain),
        processes[at].pid,
        init_systems,
        if chain.len() > 0 {
            processes[chain[0]].resolved
        } else {
            processes[at].resolved
        },
    )
}

fn runs_target(processes: &Vec<Process>, target: &str, at: usize) -> (found: bool)
    requires
        at < processes.len(),
    ensures
        found == runs(processes@, target@, at as int),
{
    match &processes[at].exe {
        Some(exe) => str_eq(exe.as_str(), target),
        None => false,
    }
}

fn root_at(processes: &Vec<Process>, target: &str, at: usize) -> (found: bool)
    requires
        at < processes.len(),
    ensures
        found == is_root(processes@, target@, at as int),
{
    if !runs_target(processes, target, at) {
        return false;
    }
    let pid = match processes[at].parent {
        Some(pid) => pid,
        None => {
            return true;
        },
    };
    let mut j: usize = 0;
    while j < processes.len()
        invariant
            j <= processes.len(),
            at < processes.len(),
            runs(processes@, target@, at as int),
            processes[at as int].parent == Some(pid),
            forall|k: int|
                0 <= k < j ==> !(runs(processes@, target@, k) && processes[k].pid == pid),
        decreases processes.len() - j,
    {
        if processes[j].pid == pid && runs_target(processes, target, j) {
            assert(runs(processes@, target@, j as int) && processes[j as int].pid == pid);
            return false;
        }
        j += 1;
    }
    true
}

fn tree_of(processes: &Vec<Process>, at: usize) -> (found: (Vec<String>, Option<usize>))
    requires
        at < processes.len(),
    ensures
        texts(found.0@) == paths_of(processes@, ancestors(processes@, at as int, processes@.len())),
        ancestors(processes@, at as int, processes@.len()).len() == found.0.len(),
        match found.1 {
            Some(first) => found.0.len() > 0 && first < processes.len() && ancestors(
                processes@,
                at as int,
                processes@.len(),
            )[0] == first,
            None => found.0.len() == 0,
        },
{
    let mut tree: Vec<String> = Vec::new();
    let mut first: Option<usize> = None;
    let mut current = at;
    let mut fuel = processes.len();
    let ghost all = ancestors(processes@, at as int, processes@.len());
    let ghost mut chain: Seq<int> = Seq::empty();
    assert(chain + ancestors(processes@, current as int, fuel as nat) =~= all);
    while fuel > 0
        invariant
            current < processes.len(),
            fuel <= processes.len(),
            all == ancestors(processes@, at as int, processes@.len()),
            chain + ancestors(processes@, current as int, fuel as nat) == all,
            chain.len() == tree.len(),
            texts(tree@) == paths_of(processes@, chain),
            forall|k: int| 0 <= k < chain.len() ==> 0 <= #[trigger] chain[k] < processes.len(),
            match first {
                Some(f) => chain.len() > 0 && chain[0] == f && f < processes.len(),
                None => chain.len() == 0,
            },
        decreases fuel,
    {
        let parent = match processes[current].parent {
            Some(pid) => find_pid(processes, pid),
            None => None,
        };
        let next = match parent {
            Some(j) => match processes[j].path() {
                Some(path) => Some((j, path)),
                None => None,
            },
            None => None,
        };
        match next {
            Some((j, path)) => {
                proof {
                    assert(parent_index(processes@, current as int) == Some(j as int));
                    let rest = ancestors(processes@, j as int, (fuel - 1) as nat);
                    assert(chain.push(j as int) + rest =~= chain + (seq![j as int] + rest));
                    lemma_index_of_pid_bounds(
                        processes@,
                        processes[current as int].parent.unwrap(),
                        0,
                    );
                    assert(path@ == processes[j as int].path_text().unwrap());
                    let grown = chain.push(j as int);
                    assert forall|k: int| 0 <= k < grown.len() implies texts(tree@.push(path))[k]
                        == paths_of(processes@, grown)[k] by {
                        if k < chain.len() {
                            assert(texts(tree@)[k] == paths_of(processes@, chain)[k]);
                        }
                    }
                    assert(texts(tree@.push(path)) =~= paths_of(processes@, grown));
                    chain = chain.push(j as int);
                }
                tree.push(path);
                if first.is_none() {
                    first = Some(j);
                }
                current = j;
                fuel -= 1;
            },
            None => {
                proof {
                    assert(parent_index(processes@, current as int) is None);
                    assert(chain + Seq::<int>::empty() =~= chain);
                }
                return (tree, first);
            },
        }
    }
    proof {
        assert(chain + Seq::<int>::empty() =~= chain);
    }
    (tree, first)
}

/// The answers as text.
pub open spec fn origins(found: Seq<IdRes>) -> Seq<Origin> {
    Seq::new(found.len(), |i: int| found[i].view())
}

/// The answers for the roots among the first `n` processes, in the order
/// of the table.
pub open spec fn origins_upto(
    processes: Seq<Process>,
    target: Seq<char>,
    init_systems: Seq<System>,
    n: int,
) -> Seq<Origin>
    decreases n,
{
    if n <= 0 {
        Seq::empty()
    } else if is_root(processes, target, n - 1) {
        match identified(processes, n - 1, init_systems) {
            Ok(origin) => origins_upto(processes, target, init_systems, n - 1).push(origin),
            Err(_) => origins_upto(processes, target, init_systems, n - 1),
        }
    } else {
        origins_upto(processes, target, init_systems, n - 1)
    }
}

/// Whether the process at index `at` is the first root whose origin cannot
/// be told.
pub open spec fn first_failure(
    processes: Seq<Process>,
    target: Seq<char>,
    init_systems: Seq<System>,
    at: int,
) -> bool {
    &&& is_root(processes, target, at)
    &&& identified(processes, at, init_systems) is Err
    &&& forall|k: int|
        0 <= k < at && is_root(processes, target, k) ==> identified(processes, k, init_systems)
            is Ok
}

/// Finds the processes that run `target` and says for each who started
/// it.
///
/// Of the processes that run `target`, only those count that no other
/// process that runs `target` started. For each, its ancestors are followed
/// through the table, and the init systems are asked whether the nearest is
/// theirs. The answers come in the order of the table; the first path that
/// has to be resolved and cannot be ends the search with that failure.
pub fn list(target: &str, init_systems: &Vec<System>, processes: &Vec<Process>) -> (found: Result<
    Vec<IdRes>,
    PathCheckError,
>)
    ensures
        match found {
            Ok(list) => origins(list@) == origins_upto(
                processes@,
                target@,
                init_systems@,
                processes.len() as int,
            ) && forall|k: int|
                0 <= k < processes.len() && is_root(processes@, target@, k) ==> identified(
                    processes@,
                    k,
                    init_systems@,
                ) is Ok,
            Err(e) => exists|at: int|
                first_failure(processes@, target@, init_systems@, at) && identified(
                    processes@,
                    at,
                    init_systems@,
                ) == Err::<Origin, PathCheckError>(e),
        },
{
    let mut found: Vec<IdRes> = Vec::new();
    let mut i: usize = 0;
    while i < processes.len()
        invariant
            i <= processes.len(),
            origins(found@) == origins_upto(processes@, target@, init_systems@, i as int),
            forall|k: int|
                0 <= k < i && is_root(processes@, target@, k) ==> identified(
                    processes@,
                    k,
                    init_systems@,
                ) is Ok,
        decreases processes.len() - i,
    {
        let ghost before = origins(found@);
        if root_at(processes, target, i) {
            let (tree, first) = tree_of(processes, i);
            let resolved = match first {
                Some(f) => &processes[f].resolved,
                None => &processes[i].resolved,
            };
            match IdRes::from_tree_and_pid(tree, processes[i].pid, init_systems, resolved) {
                Ok(id) => {
                    found.push(id);
                    assert(origins(found@) =~= before.push(id.view()));
                },
                Err(e) => {
                    assert(first_failure(processes@, target@, init_systems@, i as int));
                    return Err(e);
                },
            }
        }
        i += 1;
    }
    Ok(found)
}

/// Why the process that keeps the install location busy could not be
/// ended.
#[derive(Debug, Clone, PartialEq, Eq)]
pub enum KillOldError {
    /// The program `kill` could not be run.
    KillUnavailable(IoError),
    /// The program `kill` failed, with this output.
    KillFailed(String),
}

/// The step that ends a process that runs the file at the install
/// location and that no init system started.
#[derive(Debug, Clone, PartialEq, Eq)]
pub struct KillOld {
    pub pid: u32,
    /// The paths of the ancestors of the process, the nearest first.
    pub parents: Vec<String>,
}

impl KillOld {
    /// The one line that says what the step does.
    pub open spec fn description(&self, tense: Tense) -> Seq<char> {
        tense.pick_text(
            "there was a program running with the same name taking up the install location it has been terminated"@,
            "there is a program running with the same name taking up the install location terminate it?"@,
            "there is a program running with the same name taking up the install location, it will be terminated"@,
            "there is a program running with the same name taking up the install location, terminating it"@,
        )
    }

    /// Says in one line what the step does.
    pub fn describe(&self, tense: Tense) -> (text: String)
        ensures
            text@ == self.description(tense),
    {
        String::from_str(
            tense.pick(
                "there was a program running with the same name taking up the install location it has been terminated",
                "there is a program running with the same name taking up the install location terminate it?",
                "there is a program running with the same name taking up the install location, it will be terminated",
                "there is a program running with the same name taking up the install location, terminating it",
            ),
        )
    }

    /// The ancestors of the process, one started by the next.
    pub open spec fn started_by_text(&self) -> Seq<char> {
        joined(texts(self.parents@), "\n\twhich was started by: "@)
    }

    /// What the step does, with the ancestors of the process.
    pub open spec fn detailed_description(&self, tense: Tense) -> Seq<char> {
        tense.pick_text(
            "there was a program running with the same name taking up the install location. It was was started by: "@,
            "there is a program running with the same name taking up the install location. It was was started by: "@,
            "there is a program running with the same name taking up the install location. It was was started by: "@,
            "there is a program running with the same name taking up the install location. It was was started by: "@,
        ) + self.started_by_text() + tense.pick_text(
            "\nIt had to be terminated before we could continue."@,
            "\nIt must be terminated before we can continue. Terminating might not work or the parent can restart the program. Do you wish to try to stop the program and continue installation?"@,
            "\nIt must be terminated before we can continue. Terminating might not work or the parent can restart the program. Will try to stop the program and continuing installation"@,
            "\nIt must be terminated before we can continue. Terminating might not work or the parent can restart the program. Stopping the program and continuing installation"@,
        )
    }

    /// Says what the step does, who started the process, and what may come
    /// of ending it.
    pub fn describe_detailed(&self, tense: Tense) -> (text: String)
        ensures
            text@ == self.detailed_description(tense),
    {
        let mut text = String::from_str(
            tense.pick(
                "there was a program running with the same name taking up the install location. It was was started by: ",
                "there is a program running with the same name taking up the install location. It was was started by: ",
                "there is a program running with the same name taking up the install location. It was was started by: ",
                "there is a program running with the same name taking up the install location. It was was started by: ",
            ),
        );
        let list = join_strings(&self.parents, "\n\twhich was started by: ");
        text.append(list.as_str());
        text.append(
            tense.pick(
                "\nIt had to be terminated before we could continue.",
                "\nIt must be terminated before we can continue. Terminating might not work or the parent can restart the program. Do you wish to try to stop the program and continue installation?",
                "\nIt must be terminated before we can continue. Terminating might not work or the parent can restart the program. Will try to stop the program and continuing installation",
                "\nIt must be terminated before we can continue. Terminating might not work or the parent can restart the program. Stopping the program and continuing installation",
            ),
        );
        text
    }

    /// The arguments that the program `kill` is run with: the signal to
    /// terminate, and the process id.
    pub fn arguments(&self) -> (args: Vec<String>)
        ensures
            args.len() == 3,
            args[0]@ == "--signal"@,
            args[1]@ == "TERM"@,
            args[2]@ == decimal(self.pid as nat),
    {
        let mut args: Vec<String> = Vec::new();
        args.push(String::from_str("--signal"));
        args.push(String::from_str("TERM"));
        let mut pid = String::new();
        push_decimal(&mut pid, self.pid as u64);
        assert(pid@ =~= decimal(self.pid as nat));
        args.push(pid);
        args
    }

    /// What the step comes to once `kill` has run: done where it
    /// succeeded, else `KillFailed` with what it wrote to its error output.
    pub fn outcome(&self, success: bool, stderr: String) -> (done: Result<(), KillOldError>)
        ensures
            success ==> done is Ok,
            !success ==> done == Err::<(), KillOldError>(KillOldError::KillFailed(stderr)),
    {
        if success {
            Ok(())
        } else {
            Err(KillOldError::KillFailed(stderr))
        }
    }
}

/// The step that ends the process `pid`, whose ancestors run `parents`.
pub fn kill_old_steps(pid: u32, parents: Vec<String>) -> (step: InstallStep)
    ensures
        step == InstallStep::KillOld(KillOld { pid, parents }),
{
    InstallStep::KillOld(KillOld { pid, parents })
}

} // verus!
