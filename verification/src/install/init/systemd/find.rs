//! Finding what this crate installed among the unit files of a directory.

use vstd::prelude::*;
use vstd::string::*;
use crate::install::{IoError, Mode, RemoveStep};
use crate::install::init::TearDownError;
use crate::install::init::extract_path::unsystemd_quote::UnquoteError;
use crate::install::init::systemd::Error;
use crate::install::init::systemd::teardown::{disable_then_remove_service,
    disable_then_remove_with_timer, removes_service, removes_timer};
use crate::install::init::systemd::unit::{exec_start_path, is_ours, FindExeError, Unit};
use crate::paths::{extension, extension_of, file_name_of, file_stem_of};
use crate::text::str_eq;

verus! {

/// One entry of the directory of unit files, as the caller read it.
#[derive(Debug, PartialEq, Eq)]
pub struct DirEntry {
    /// The path of the entry.
    pub path: String,
    /// Whether the entry is a directory.
    pub is_dir: bool,
    /// The text of the file, or why it could not be read. It is looked at
    /// only for a file with an extension.
    pub body: Result<String, IoError>,
    /// Whether the path that the unit starts leads to a file. It is looked
    /// at only for a service of this crate.
    pub exe_is_file: bool,
}

/// A unit that this crate wrote.
#[derive(Debug, Clone, PartialEq, Eq)]
pub struct Owned {
    /// Whether it is a timer; else it is a service.
    pub timer: bool,
    /// The path of the unit file.
    pub path: String,
    /// The name of the unit, without extension.
    pub name: String,
    /// The path of the executable that a service starts; empty for a timer.
    pub exe: String,
}

/// What a unit of this crate is, as text.
pub struct OwnedUnit {
    pub timer: bool,
    pub path: Seq<char>,
    pub name: Seq<char>,
    pub exe: Seq<char>,
}

impl Owned {
    /// The unit as text.
    pub open spec fn view(&self) -> OwnedUnit {
        OwnedUnit { timer: self.timer, path: self.path@, name: self.name@, exe: self.exe@ }
    }
}

/// The units as text.
pub open spec fn owned_views(units: Seq<Owned>) -> Seq<OwnedUnit> {
    Seq::new(units.len(), |i: int| units[i].view())
}

/// What is wrong with an entry.
pub enum Fault {
    /// The file could not be read.
    Unreadable(IoError),
    /// The path has no name.
    NoName,
    /// The service has no `ExecStart=` line.
    ExecLineMissing,
    /// The first item of the `ExecStart=` line cannot be read.
    ExecLineUnreadable(UnquoteError),
    /// The path that the service starts leads to no file.
    ExecPathNotFile(Seq<char>),
}

/// What an entry of the directory is: nothing to this crate, a unit of
/// this crate, or a fault.
///
/// A directory and a file without extension are nothing. Any other file
/// has to be readable and to have a name. It is a unit of this crate where
/// its text holds the landmark comment and its extension is `timer` or
/// `service`; a service in addition has to start a path that leads to a
/// file.
pub open spec fn classified(entry: DirEntry) -> Result<Option<OwnedUnit>, Fault> {
    if entry.is_dir || extension_of(entry.path@) is None {
        Ok(None)
    } else {
        match entry.body {
            Err(e) => Err(Fault::Unreadable(e)),
            Ok(body) => if file_name_of(entry.path@) is None || file_stem_of(entry.path@)
                is None {
                Err(Fault::NoName)
            } else if !is_ours(body@) {
                Ok(None)
            } else if extension_of(entry.path@) == Some("timer"@) {
                Ok(
                    Some(
                        OwnedUnit {
                            timer: true,
                            path: entry.path@,
                            name: file_stem_of(entry.path@).unwrap(),
                            exe: Seq::empty(),
                        },
                    ),
                )
            } else if extension_of(entry.path@) == Some("service"@) {
                match exec_start_path(body@) {
                    None => Err(Fault::ExecLineMissing),
                    Some(Err(e)) => Err(Fault::ExecLineUnreadable(e)),
                    Some(Ok(exe)) => if entry.exe_is_file {
                        Ok(
                            Some(
                                OwnedUnit {
                                    timer: false,
                                    path: entry.path@,
                                    name: file_stem_of(entry.path@).unwrap(),
                                    exe,
                                },
                            ),
                        )
                    } else {
                        Err(Fault::ExecPathNotFile(exe))
                    },
                }
            } else {
                Ok(None)
            },
        }
    }
}

/// Whether `error` reports the fault `fault` of the entry at `path`.
pub open spec fn reports(error: TearDownError, fault: Fault, path: Seq<char>) -> bool {
    match fault {
        Fault::Unreadable(e) => error == TearDownError::Systemd(
            Error::Verifying(crate::install::init::systemd::unit::Error::FailedToRead(e)),
        ),
        Fault::NoName => error == TearDownError::Systemd(
            Error::Verifying(crate::install::init::systemd::unit::Error::NoName),
        ),
        Fault::ExecLineMissing => error matches TearDownError::FindingExePath(
            FindExeError::ExecLineMissing(at),
        ) && at@ == path,
        Fault::ExecLineUnreadable(e) => error matches TearDownError::FindingExePath(
            FindExeError::ExecLineUnreadable { path: at, error: why },
        ) && at@ == path && why == e,
        Fault::ExecPathNotFile(exe) => error matches TearDownError::FindingExePath(
            FindExeError::ExecPathNotFile(p),
        ) && p@ == exe,
    }
}

/// Says what an entry of the directory is.
pub fn classify(entry: &DirEntry) -> (found: Result<Option<Owned>, TearDownError>)
    ensures
        match classified(*entry) {
            Ok(None) => found matches Ok(None),
            Ok(Some(unit)) => found matches Ok(Some(owned)) && owned.view() == unit,
            Err(fault) => found matches Err(error) && reports(error, fault, entry.path@),
        },
{
    if entry.is_dir {
        return Ok(None);
    }
    let ext = match extension(entry.path.as_str()) {
        Some(ext) => ext,
        None => {
            return Ok(None);
        },
    };
    let body = match &entry.body {
        Ok(body) => body.clone(),
        Err(e) => {
            return Err(
                TearDownError::Systemd(
                    Error::Verifying(
                        crate::install::init::systemd::unit::Error::FailedToRead(e.copy()),
                    ),
                ),
            );
        },
    };
    let unit = match Unit::from_path(entry.path.clone(), Ok(body)) {
        Ok(unit) => unit,
        Err(e) => {
            return Err(TearDownError::Systemd(Error::Verifying(e)));
        },
    };
    if !unit.our_service() {
        return Ok(None);
    }
    if str_eq(ext.as_str(), "timer") {
        Ok(Some(Owned { timer: true, path: unit.path, name: unit.stem, exe: String::new() }))
    } else if str_eq(ext.as_str(), "service") {
        match unit.exe_path(entry.exe_is_file) {
            Ok(exe) => Ok(Some(Owned { timer: false, path: unit.path, name: unit.stem, exe })),
            Err(e) => Err(TearDownError::FindingExePath(e)),
        }
    } else {
        Ok(None)
    }
}

/// The units of this crate among the first `n` entries, in order.
pub open spec fn owned_units(entries: Seq<DirEntry>, n: int) -> Seq<OwnedUnit>
    decreases n,
{
    if n <= 0 {
        Seq::empty()
    } else {
        match classified(entries[n - 1]) {
            Ok(Some(unit)) => owned_units(entries, n - 1).push(unit),
            _ => owned_units(entries, n - 1),
        }
    }
}

/// Whether the entry at index `at` is the first with a fault.
pub open spec fn first_fault_at(entries: Seq<DirEntry>, at: int) -> bool {
    0 <= at < entries.len() && classified(entries[at]) is Err && forall|k: int|
        0 <= k < at ==> classified(#[trigger] entries[k]) is Ok
}

/// Whether no entry has a fault.
pub open spec fn faultless(entries: Seq<DirEntry>) -> bool {
    forall|k: int| 0 <= k < entries.len() ==> classified(#[trigger] entries[k]) is Ok
}

/// Goes through the entries in order and collects the units of this crate,
/// or reports the first fault.
pub fn scan(entries: &Vec<DirEntry>) -> (found: Result<Vec<Owned>, TearDownError>)
    ensures
        match found {
            Ok(units) => faultless(entries@) && owned_views(units@) == owned_units(
                entries@,
                entries.len() as int,
            ),
            Err(error) => exists|at: int|
                first_fault_at(entries@, at) && reports(
                    error,
                    classified(entries[at])->Err_0,
                    entries[at].path@,
                ),
        },
{
    let mut units: Vec<Owned> = Vec::new();
    let mut i: usize = 0;
    while i < entries.len()
        invariant
            i <= entries.len(),
            forall|k: int| 0 <= k < i ==> classified(#[trigger] entries[k]) is Ok,
            owned_views(units@) == owned_units(entries@, i as int),
        decreases entries.len() - i,
    {
        let ghost before = owned_views(units@);
        match classify(&entries[i]) {
            Ok(Some(unit)) => {
                units.push(unit);
                assert(owned_views(units@) =~= before.push(unit.view()));
            },
            Ok(None) => {},
            Err(error) => {
                assert(first_fault_at(entries@, i as int));
                return Err(error);
            },
        }
        i += 1;
    }
    Ok(units)
}

/// Whether a service named `name` is among `units`.
pub open spec fn has_service(units: Seq<OwnedUnit>, name: Seq<char>) -> bool {
    exists|k: int| 0 <= k < units.len() && !(#[trigger] units[k]).timer && units[k].name == name
}

/// Whether some timer among `units` has no service of its name beside it.
pub open spec fn has_orphan_timer(units: Seq<OwnedUnit>) -> bool {
    exists|k: int|
        0 <= k < units.len() && (#[trigger] units[k]).timer && !has_service(units, units[k].name)
}

fn service_named(units: &Vec<Owned>, name: &str) -> (found: bool)
    ensures
        found == has_service(owned_views(units@), name@),
{
    let mut k: usize = 0;
    let ghost views = owned_views(units@);
    while k < units.len()
        invariant
            k <= units.len(),
            views == owned_views(units@),
            forall|j: int| 0 <= j < k ==> !(!(#[trigger] views[j]).timer && views[j].name == name@),
        decreases units.len() - k,
    {
        if !units[k].timer && str_eq(units[k].name.as_str(), name) {
            assert(!views[k as int].timer && views[k as int].name == name@);
            return true;
        }
        k += 1;
    }
    false
}

/// Whether some timer among `units` has no service of its name beside
/// it.
pub fn orphan_timer(units: &Vec<Owned>) -> (found: bool)
    ensures
        found == has_orphan_timer(owned_views(units@)),
{
    let mut k: usize = 0;
    let ghost views = owned_views(units@);
    while k < units.len()
        invariant
            k <= units.len(),
            views == owned_views(units@),
            forall|j: int|
                0 <= j < k ==> !((#[trigger] views[j]).timer && !has_service(views, views[j].name)),
        decreases units.len() - k,
    {
        if units[k].timer && !service_named(units, units[k].name.as_str()) {
            assert(views[k as int].timer && !has_service(views, views[k as int].name));
            return true;
        }
        k += 1;
    }
    false
}

/// The timers among `units`, in order, where `timers` is set; else the
/// services.
pub open spec fn of_kind(units: Seq<OwnedUnit>, timers: bool) -> Seq<OwnedUnit> {
    units.filter(|unit: OwnedUnit| unit.timer == timers)
}

/// The units in the order in which they are taken away: the timers first,
/// then the services.
pub open spec fn timers_first(units: Seq<OwnedUnit>) -> Seq<OwnedUnit> {
    of_kind(units, true) + of_kind(units, false)
}

/// Whether `steps` take `units` away, each by two steps: first disable
/// the unit, then delete its file.
pub open spec fn takes_away(steps: Seq<RemoveStep>, units: Seq<OwnedUnit>, mode: Mode) -> bool {
    &&& steps.len() == 2 * units.len()
    &&& forall|k: int|
        0 <= k < units.len() ==> if (#[trigger] units[k]).timer {
            removes_timer(steps.subrange(2 * k, 2 * k + 2), units[k].path, units[k].name, mode)
        } else {
            removes_service(steps.subrange(2 * k, 2 * k + 2), units[k].path, units[k].name, mode)
        }
}

/// Appends to `steps` the steps that take away the timers among `units`,
/// where `timers` is set, else the services.
pub(crate) fn push_steps(
    steps: &mut Vec<RemoveStep>,
    units: &Vec<Owned>,
    timers: bool,
    mode: Mode,
    Ghost(done): Ghost<Seq<OwnedUnit>>,
)
    requires
        takes_away(old(steps)@, done, mode),
    ensures
        takes_away(final(steps)@, done + of_kind(owned_views(units@), timers), mode),
{
    let ghost views = owned_views(units@);
    let ghost wanted = |unit: OwnedUnit| unit.timer == timers;
    let mut i: usize = 0;
    assert(views.take(0).filter(wanted) =~= Seq::<OwnedUnit>::empty());
    assert(done + views.take(0).filter(wanted) =~= done);
    while i < units.len()
        invariant
            i <= units.len(),
            views == owned_views(units@),
            wanted == (|unit: OwnedUnit| unit.timer == timers),
            takes_away(steps@, done + views.take(i as int).filter(wanted), mode),
        decreases units.len() - i,
    {
        let ghost so_far = done + views.take(i as int).filter(wanted);
        let ghost before = steps@;
        proof {
            assert(views.take(i + 1).drop_last() =~= views.take(i as int));
            crate::install::init::systemd::find::lemma_filter_last(views.take(i + 1), wanted);
        }
        if units[i].timer == timers {
            let unit = &units[i];
            let mut pair = if timers {
                disable_then_remove_with_timer(unit.path.clone(), unit.name.as_str(), mode)
            } else {
                disable_then_remove_service(unit.path.clone(), unit.name.as_str(), mode)
            };
            let ghost pair_steps = pair@;
            steps.append(&mut pair);
            proof {
                let now = so_far.push(views[i as int]);
                assert(done + views.take(i + 1).filter(wanted) =~= now);
                assert(steps@ =~= before + pair_steps);
                assert forall|k: int| 0 <= k < now.len() implies if (#[trigger] now[k]).timer {
                    removes_timer(
                        steps@.subrange(2 * k, 2 * k + 2),
                        now[k].path,
                        now[k].name,
                        mode,
                    )
                } else {
                    removes_service(
                        steps@.subrange(2 * k, 2 * k + 2),
                        now[k].path,
                        now[k].name,
                        mode,
                    )
                } by {
                    if k < so_far.len() {
                        assert(steps@.subrange(2 * k, 2 * k + 2) =~= before.subrange(
                            2 * k,
                            2 * k + 2,
                        ));
                        assert(now[k] == so_far[k]);
                    } else {
                        assert(steps@.subrange(2 * k, 2 * k + 2) =~= pair_steps);
                    }
                }
            }
        } else {
            assert(done + views.take(i + 1).filter(wanted) =~= so_far);
        }
        i += 1;
    }
    assert(views.take(units.len() as int) =~= views);
}

/// Filtering a sequence filters all but its last element and then decides
/// on the last.
pub proof fn lemma_filter_last<A>(s: Seq<A>, pred: spec_fn(A) -> bool)
    requires
        s.len() > 0,
    ensures
        s.filter(pred) == (if pred(s.last()) {
            s.drop_last().filter(pred).push(s.last())
        } else {
            s.drop_last().filter(pred)
        }),
{
    reveal(Seq::filter);
}

/// Whether every service among `units` starts `exe`.
pub open spec fn all_start(units: Seq<OwnedUnit>, exe: Seq<char>) -> bool {
    forall|k: int| 0 <= k < units.len() && !(#[trigger] units[k]).timer ==> units[k].exe == exe
}

/// Whether none of `paths` stands there twice.
pub open spec fn distinct(paths: Seq<String>) -> bool {
    forall|i: int, j: int| 0 <= i < j < paths.len() ==> paths[i]@ != paths[j]@
}

/// Whether a service among `units` starts `exe`.
pub open spec fn started(units: Seq<OwnedUnit>, exe: Seq<char>) -> bool {
    exists|k: int| 0 <= k < units.len() && !(#[trigger] units[k]).timer && units[k].exe == exe
}

/// Whether `exe` is one of `paths`.
pub open spec fn listed(paths: Seq<String>, exe: Seq<char>) -> bool {
    exists|i: int| 0 <= i < paths.len() && (#[trigger] paths[i])@ == exe
}

/// Whether `paths` are the executables that the services among `units`
/// start.
pub open spec fn exes_of(paths: Seq<String>, units: Seq<OwnedUnit>) -> bool {
    &&& forall|i: int| 0 <= i < paths.len() ==> started(units, (#[trigger] paths[i])@)
    &&& forall|k: int|
        0 <= k < units.len() && !(#[trigger] units[k]).timer ==> listed(paths, units[k].exe)
}

fn holds(paths: &Vec<String>, path: &str) -> (found: bool)
    ensures
        found == listed(paths@, path@),
{
    let mut i: usize = 0;
    while i < paths.len()
        invariant
            i <= paths.len(),
            forall|j: int| 0 <= j < i ==> (#[trigger] paths[j])@ != path@,
        decreases paths.len() - i,
    {
        if str_eq(paths[i].as_str(), path) {
            return true;
        }
        i += 1;
    }
    false
}

/// The executables that the services among the first `n` of `units`
/// start, each once, in the order in which they first come.
pub open spec fn exes_in_order(units: Seq<OwnedUnit>, n: int) -> Seq<Seq<char>>
    decreases n,
{
    if n <= 0 {
        Seq::empty()
    } else {
        let before = exes_in_order(units, n - 1);
        if !units[n - 1].timer && !before.contains(units[n - 1].exe) {
            before.push(units[n - 1].exe)
        } else {
            before
        }
    }
}

/// The executables that the services among `units` start, each once, in
/// the order in which they first come.
pub fn exe_paths(units: &Vec<Owned>) -> (paths: Vec<String>)
    ensures
        crate::text::texts(paths@) == exes_in_order(owned_views(units@), units.len() as int),
        distinct(paths@),
        exes_of(paths@, owned_views(units@)),
{
    let mut paths: Vec<String> = Vec::new();
    let ghost views = owned_views(units@);
    let mut k: usize = 0;
    while k < units.len()
        invariant
            k <= units.len(),
            views == owned_views(units@),
            crate::text::texts(paths@) == exes_in_order(views, k as int),
            distinct(paths@),
            forall|i: int|
                0 <= i < paths.len() ==> started(views.take(k as int), (#[trigger] paths[i])@),
            forall|j: int|
                0 <= j < k && !(#[trigger] views[j]).timer ==> listed(paths@, views[j].exe),
        decreases units.len() - k,
    {
        let ghost before = paths@;
        let ghost seen = views.take(k as int);
        let ghost next = views.take(k + 1);
        proof {
            assert forall|exe: Seq<char>| started(seen, exe) implies started(next, exe) by {
                let j = choose|j: int|
                    0 <= j < seen.len() && !(#[trigger] seen[j]).timer && seen[j].exe == exe;
                assert(!next[j].timer && next[j].exe == exe);
            }
        }
        proof {
            let so_far = crate::text::texts(paths@);
            if listed(paths@, views[k as int].exe) {
                let i = choose|i: int|
                    0 <= i < paths.len() && (#[trigger] paths[i])@ == views[k as int].exe;
                assert(so_far[i] == views[k as int].exe);
            }
            if so_far.contains(views[k as int].exe) {
                let i = choose|i: int| 0 <= i < so_far.len() && so_far[i] == views[k as int].exe;
                assert(paths[i]@ == views[k as int].exe);
            }
        }
        if !units[k].timer && !holds(&paths, units[k].exe.as_str()) {
            paths.push(units[k].exe.clone());
            proof {
                assert(crate::text::texts(paths@) =~= crate::text::texts(before).push(
                    views[k as int].exe,
                ));
                assert forall|exe: Seq<char>| listed(before, exe) implies listed(paths@, exe) by {
                    let i = choose|i: int| 0 <= i < before.len() && (#[trigger] before[i])@ == exe;
                    assert(paths@[i]@ == exe);
                }
                assert(paths@[paths.len() - 1]@ == views[k as int].exe);
                assert(!next[k as int].timer && next[k as int].exe == views[k as int].exe);
                assert forall|i: int| 0 <= i < paths.len() implies started(
                    next,
                    (#[trigger] paths[i])@,
                ) by {
                    if i < before.len() {
                        assert(paths[i] == before[i]);
                    }
                }
            }
        }
        k += 1;
    }
    assert(views.take(units.len() as int) =~= views);
    paths
}

} // verus!
