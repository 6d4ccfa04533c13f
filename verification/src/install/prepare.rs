//! Choosing the init system: which one sets the service up, and which one
//! holds an installation to remove.
//!
//! The caller asks the init systems one by one and reports what each
//! said; this module decides which is asked next and what the whole comes
//! to.

use vstd::prelude::*;
use vstd::string::*;
use crate::install::{InitSystemFailure, InstallStep, InstallSteps, PrepareInstallError,
    PrepareRemoveError, RemoveStep, RemoveSteps};
use crate::install::files::remove_files;
use crate::install::init::{SetupError, System, TearDownError};

verus! {

/// What trying to set the service up with one init system came to.
#[derive(Debug, PartialEq, Eq)]
pub enum Attempt {
    /// Whether the init system is there could not be found out.
    Unknown(SetupError),
    /// The init system is not there.
    NotAvailable,
    /// The init system is there, and setting up with it failed.
    Failed(SetupError),
    /// These steps set the service up with the init system.
    Ready(Vec<InstallStep>),
}

/// Whether the failures are those of these init systems with these errors.
pub open spec fn failures_are(
    failures: Seq<InitSystemFailure>,
    systems: Seq<System>,
    errors: Seq<SetupError>,
) -> bool {
    &&& failures.len() == systems.len()
    &&& failures.len() == errors.len()
    &&& forall|i: int|
        0 <= i < failures.len() ==> (#[trigger] failures[i]).name@ == systems[i].name_text()
            && failures[i].error == errors[i]
}

/// The search for an init system that sets the service up.
pub struct SetUpSearch {
    candidates: Vec<System>,
    tried: usize,
    failures: Vec<InitSystemFailure>,
    end: Option<Result<Vec<InstallStep>, SetupError>>,
    failed: Ghost<Seq<System>>,
    errors: Ghost<Seq<SetupError>>,
}

impl SetUpSearch {
    /// Whether the search is in order.
    pub closed spec fn wf(&self) -> bool {
        self.tried <= self.candidates.len() && failures_are(
            self.failures@,
            self.failed@,
            self.errors@,
        )
    }

    /// The init systems to ask, in order.
    pub closed spec fn candidates(&self) -> Seq<System> {
        self.candidates@
    }

    /// How many init systems were asked and did not set the service up.
    pub closed spec fn passed(&self) -> nat {
        self.tried as nat
    }

    /// The init systems that were there and failed, in order.
    pub closed spec fn failed(&self) -> Seq<System> {
        self.failed@
    }

    /// The errors of the init systems that failed, in order.
    pub closed spec fn errors(&self) -> Seq<SetupError> {
        self.errors@
    }

    /// What ended the search, if something did: the steps of the init
    /// system that sets the service up, or the failure to find out whether
    /// an init system is there.
    pub closed spec fn end(&self) -> Option<Result<Vec<InstallStep>, SetupError>> {
        self.end
    }

    /// Whether an init system is left to ask.
    pub open spec fn pending(&self) -> bool {
        self.end() is None && self.passed() < self.candidates().len()
    }

    /// Begins the search among `init_systems`; among all that this crate
    /// knows, systemd first, where none are given.
    pub fn new(init_systems: Option<Vec<System>>) -> (search: SetUpSearch)
        ensures
            search.wf(),
            search.candidates() == (match init_systems {
                Some(given) => given@,
                None => seq![System::Systemd, System::Cron],
            }),
            search.passed() == 0,
            search.end() is None,
            search.failed() == Seq::<System>::empty(),
            search.errors() == Seq::<SetupError>::empty(),
    {
        let candidates = match init_systems {
            Some(given) => given,
            None => System::all(),
        };
        SetUpSearch {
            candidates,
            tried: 0,
            failures: Vec::new(),
            end: None,
            failed: Ghost(Seq::empty()),
            errors: Ghost(Seq::empty()),
        }
    }

    /// The init system to ask next: the first that was not asked yet.
    /// There is none once one has set the service up, once one could not be
    /// asked, or once all were asked.
    pub fn candidate(&self) -> (next: Option<System>)
        requires
            self.wf(),
        ensures
            self.passed() <= self.candidates().len(),
            match next {
                Some(system) => self.pending() && system == self.candidates()[self.passed() as int],
                None => !self.pending(),
            },
    {
        if self.end.is_none() && self.tried < self.candidates.len() {
            Some(self.candidates[self.tried])
        } else {
            None
        }
    }

    /// How many init systems are passed over once `attempt` is noted.
    pub open spec fn passed_after(&self, attempt: Attempt) -> nat {
        if self.pending() && (attempt is NotAvailable || attempt is Failed) {
            self.passed() + 1
        } else {
            self.passed()
        }
    }

    /// What has ended the search once `attempt` is noted.
    pub open spec fn end_after(&self, attempt: Attempt) -> Option<
        Result<Vec<InstallStep>, SetupError>,
    > {
        match attempt {
            Attempt::Unknown(e) if self.pending() => Some(Err(e)),
            Attempt::Ready(steps) if self.pending() => Some(Ok(steps)),
            _ => self.end(),
        }
    }

    /// The init systems that have failed once `attempt` is noted.
    pub open spec fn failed_after(&self, attempt: Attempt) -> Seq<System> {
        if self.pending() && attempt is Failed {
            self.failed().push(self.candidates()[self.passed() as int])
        } else {
            self.failed()
        }
    }

    /// The errors of the init systems that have failed once `attempt` is
    /// noted.
    pub open spec fn errors_after(&self, attempt: Attempt) -> Seq<SetupError> {
        match attempt {
            Attempt::Failed(e) if self.pending() => self.errors().push(e),
            _ => self.errors(),
        }
    }

    /// Takes note of what asking the init system that `candidate` gave
    /// came to. Steps end the search, and so does the failure to find out
    /// whether the init system is there. An init system that is not there is
    /// passed over; one that failed is passed over and its failure kept.
    /// Without an init system to ask nothing is noted.
    pub fn tried(&mut self, attempt: Attempt)
        requires
            old(self).wf(),
        ensures
            final(self).wf(),
            final(self).candidates() == old(self).candidates(),
            final(self).passed() == old(self).passed_after(attempt),
            final(self).end() == old(self).end_after(attempt),
            final(self).failed() == old(self).failed_after(attempt),
            final(self).errors() == old(self).errors_after(attempt),
    {
        if self.end.is_some() || self.tried >= self.candidates.len() {
            return ;
        }
        match attempt {
            Attempt::Unknown(e) => {
                self.end = Some(Err(e));
            },
            Attempt::Ready(steps) => {
                self.end = Some(Ok(steps));
            },
            Attempt::NotAvailable => {
                self.tried = self.tried + 1;
            },
            Attempt::Failed(error) => {
                let system = self.candidates[self.tried];
                self.failures.push(
                    InitSystemFailure { name: String::from_str(system.name()), error },
                );
                self.failed = Ghost(self.failed@.push(system));
                self.errors = Ghost(self.errors@.push(error));
                self.tried = self.tried + 1;
            },
        }
    }

    /// What the search came to; `file_steps` are the steps that place the
    /// executable, which come first.
    ///
    /// With an init system that sets the service up: the steps that place
    /// the executable and then its steps. With one that could not be asked:
    /// that failure. When all were asked and none was there:
    /// `NoInitSystemRecognized`; when some were there and all of those
    /// failed: their failures. While an init system is left to ask there is
    /// no result.
    pub fn result(self, file_steps: Vec<InstallStep>) -> (result: Option<
        Result<InstallSteps, PrepareInstallError>,
    >)
        requires
            self.wf(),
        ensures
            match self.end() {
                Some(Ok(steps)) => result matches Some(Ok(all)) && all.0@ == file_steps@ + steps@,
                Some(Err(e)) => result == Some(
                    Err::<InstallSteps, PrepareInstallError>(PrepareInstallError::Init(e)),
                ),
                None => if self.passed() < self.candidates().len() {
                    result is None
                } else if self.failed().len() == 0 {
                    result == Some(
                        Err::<InstallSteps, PrepareInstallError>(
                            PrepareInstallError::NoInitSystemRecognized,
                        ),
                    )
                } else {
                    result matches Some(
                        Err(PrepareInstallError::SupportedInitSystemFailed(failures)),
                    ) && failures_are(failures@, self.failed(), self.errors())
                },
            },
    {
        match self.end {
            Some(Ok(mut steps)) => {
                let mut all = file_steps;
                all.append(&mut steps);
                Some(Ok(InstallSteps(all)))
            },
            Some(Err(e)) => Some(Err(PrepareInstallError::Init(e))),
            None => if self.tried < self.candidates.len() {
                None
            } else if self.failures.len() == 0 {
                Some(Err(PrepareInstallError::NoInitSystemRecognized))
            } else {
                Some(Err(PrepareInstallError::SupportedInitSystemFailed(self.failures)))
            },
        }
    }
}

/// The search for the init system that holds an installation.
pub struct TearDownSearch {
    candidates: Vec<System>,
    asked: usize,
    end: Option<Result<(Vec<RemoveStep>, String), TearDownError>>,
}

impl TearDownSearch {
    /// Whether the search is in order.
    pub closed spec fn wf(&self) -> bool {
        self.asked <= self.candidates.len()
    }

    /// The init systems to ask, in order.
    pub closed spec fn candidates(&self) -> Seq<System> {
        self.candidates@
    }

    /// How many init systems were asked and hold no installation.
    pub closed spec fn passed(&self) -> nat {
        self.asked as nat
    }

    /// What ended the search, if something did: the steps that remove the
    /// installation and the path of its executable, or the failure of an
    /// init system.
    pub closed spec fn end(&self) -> Option<Result<(Vec<RemoveStep>, String), TearDownError>> {
        self.end
    }

    /// Whether an init system is left to ask.
    pub open spec fn pending(&self) -> bool {
        self.end() is None && self.passed() < self.candidates().len()
    }

    /// Begins the search among `init_systems`; among all that this crate
    /// knows, systemd first, where none are given.
    pub fn new(init_systems: Option<Vec<System>>) -> (search: TearDownSearch)
        ensures
            search.wf(),
            search.candidates() == (match init_systems {
                Some(given) => given@,
                None => seq![System::Systemd, System::Cron],
            }),
            search.passed() == 0,
            search.end() is None,
    {
        let candidates = match init_systems {
            Some(given) => given,
            None => System::all(),
        };
        TearDownSearch { candidates, asked: 0, end: None }
    }

    /// The init system to ask next: the first that was not asked yet.
    /// There is none once one holds an installation, once one has failed,
    /// or once all were asked.
    pub fn candidate(&self) -> (next: Option<System>)
        requires
            self.wf(),
        ensures
            self.passed() <= self.candidates().len(),
            match next {
                Some(system) => self.pending() && system == self.candidates()[self.passed() as int],
                None => !self.pending(),
            },
    {
        if self.end.is_none() && self.asked < self.candidates.len() {
            Some(self.candidates[self.asked])
        } else {
            None
        }
    }

    /// How many init systems are passed over once `found` is noted.
    pub open spec fn passed_after(
        &self,
        found: Result<Option<(Vec<RemoveStep>, String)>, TearDownError>,
    ) -> nat {
        if self.pending() && found == Ok::<Option<(Vec<RemoveStep>, String)>, TearDownError>(None) {
            self.passed() + 1
        } else {
            self.passed()
        }
    }

    /// What has ended the search once `found` is noted.
    pub open spec fn end_after(
        &self,
        found: Result<Option<(Vec<RemoveStep>, String)>, TearDownError>,
    ) -> Option<Result<(Vec<RemoveStep>, String), TearDownError>> {
        match found {
            Err(e) if self.pending() => Some(Err(e)),
            Ok(Some(install)) if self.pending() => Some(Ok(install)),
            _ => self.end(),
        }
    }

    /// Takes note of what the init system that `candidate` gave found. An
    /// installation ends the search, and so does a failure; an init system
    /// that holds none is passed over. Without an init system to ask nothing
    /// is noted.
    pub fn asked(&mut self, found: Result<Option<(Vec<RemoveStep>, String)>, TearDownError>)
        requires
            old(self).wf(),
        ensures
            final(self).wf(),
            final(self).candidates() == old(self).candidates(),
            final(self).passed() == old(self).passed_after(found),
            final(self).end() == old(self).end_after(found),
    {
        if self.end.is_some() || self.asked >= self.candidates.len() {
            return ;
        }
        match found {
            Err(e) => {
                self.end = Some(Err(e));
            },
            Ok(Some(install)) => {
                self.end = Some(Ok(install));
            },
            Ok(None) => {
                self.asked = self.asked + 1;
            },
        }
    }

    /// What the search came to.
    ///
    /// With an installation: the steps that take it out of the init
    /// system, and last the step that deletes its executable. With an init
    /// system that failed: that failure. When all were asked and none holds
    /// an installation: `NoInstallFound`. While an init system is left to
    /// ask there is no result.
    pub fn result(self) -> (result: Option<Result<RemoveSteps, PrepareRemoveError>>)
        requires
            self.wf(),
        ensures
            match self.end() {
                Some(Ok((steps, path))) => result matches Some(Ok(all)) && all.0@.len()
                    == steps@.len() + 1 && all.0@.take(steps@.len() as int) == steps@ && (
                all.0@.last() matches RemoveStep::Remove(remove) && remove.target == path),
                Some(Err(e)) => result == Some(
                    Err::<RemoveSteps, PrepareRemoveError>(PrepareRemoveError::Init(e)),
                ),
                None => if self.passed() < self.candidates().len() {
                    result is None
                } else {
                    result == Some(
                        Err::<RemoveSteps, PrepareRemoveError>(PrepareRemoveError::NoInstallFound),
                    )
                },
            },
    {
        match self.end {
            Some(Ok((steps, path))) => {
                let ghost before = steps@;
                let mut all = steps;
                all.push(RemoveStep::Remove(remove_files(path)));
                assert(all@.take(before.len() as int) =~= before);
                Some(Ok(RemoveSteps(all)))
            },
            Some(Err(e)) => Some(Err(PrepareRemoveError::Init(e))),
            None => if self.asked < self.candidates.len() {
                None
            } else {
                Some(Err(PrepareRemoveError::NoInstallFound))
            },
        }
    }
}

} // verus!
