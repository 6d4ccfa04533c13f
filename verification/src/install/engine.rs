//! Carrying out steps in order.
//!
//! The caller performs each step and reports how it went; this module
//! decides what comes next and what the whole comes to.

use vstd::prelude::*;
use vstd::string::*;
use crate::Tense;
use crate::install::{BestEffortRemoveError, InstallError, InstallStep, InstallSteps, RemoveError,
    RemoveStep, RemoveSteps, RollbackStep};
use crate::text::{join_strings, joined, texts};

verus! {

/// The descriptions, in the past tense, of the first `n` of `steps`.
pub open spec fn install_log(steps: Seq<InstallStep>, n: nat) -> Seq<Seq<char>> {
    Seq::new(n, |i: int| steps[i].description(Tense::Past))
}

/// The descriptions, in the past tense, of the first `n` of `steps`.
pub open spec fn remove_log(steps: Seq<RemoveStep>, n: nat) -> Seq<Seq<char>> {
    Seq::new(n, |i: int| steps[i].description(Tense::Past))
}

/// An installation under way.
pub struct Installation {
    steps: Vec<InstallStep>,
    log: Vec<String>,
    rollback: Vec<RollbackStep>,
    failed: Option<InstallError>,
}

impl Installation {
    /// Whether the run is in order: what it has noted fits its steps.
    pub closed spec fn wf(&self) -> bool {
        self.log.len() <= self.steps.len() && texts(self.log@) == install_log(
            self.steps@,
            self.log.len() as nat,
        )
    }

    /// The steps of the installation, all of them.
    pub closed spec fn steps(&self) -> Seq<InstallStep> {
        self.steps@
    }

    /// How many steps were performed well.
    pub closed spec fn done(&self) -> nat {
        self.log.len() as nat
    }

    /// The failure that ended the installation, if one did.
    pub closed spec fn failure(&self) -> Option<InstallError> {
        self.failed
    }

    /// The steps that undo what was performed, in the order in which they
    /// were handed in.
    pub closed spec fn undo(&self) -> Seq<RollbackStep> {
        self.rollback@
    }

    /// Whether a step is left to perform: none has failed and not all are
    /// done.
    pub open spec fn pending(&self) -> bool {
        self.failure() is None && self.done() < self.steps().len()
    }

    /// The step to perform next. There is none once a step has failed or
    /// all are done; no step is performed before the ones before it.
    pub fn next(&self) -> (step: Option<&InstallStep>)
        requires
            self.wf(),
        ensures
            self.done() <= self.steps().len(),
            match step {
                Some(s) => self.pending() && *s == self.steps()[self.done() as int],
                None => !self.pending(),
            },
    {
        if self.failed.is_none() && self.log.len() < self.steps.len() {
            Some(&self.steps[self.log.len()])
        } else {
            None
        }
    }

    /// How many steps are done once `outcome` is noted.
    pub open spec fn done_after(&self, outcome: Result<Option<RollbackStep>, InstallError>) -> nat {
        if self.pending() && outcome is Ok {
            self.done() + 1
        } else {
            self.done()
        }
    }

    /// The failure that has ended the installation once `outcome` is
    /// noted.
    pub open spec fn failure_after(
        &self,
        outcome: Result<Option<RollbackStep>, InstallError>,
    ) -> Option<InstallError> {
        match outcome {
            Err(e) if self.pending() => Some(e),
            _ => self.failure(),
        }
    }

    /// The steps that undo what was performed once `outcome` is noted.
    pub open spec fn undo_after(
        &self,
        outcome: Result<Option<RollbackStep>, InstallError>,
    ) -> Seq<RollbackStep> {
        match outcome {
            Ok(Some(step)) if self.pending() => self.undo().push(step),
            _ => self.undo(),
        }
    }

    /// Takes note of how the step that `next` gave went. A step that went
    /// well is done, and what undoes it is kept; a step that failed ends the
    /// installation. Without a step to perform nothing is noted.
    pub fn performed(&mut self, outcome: Result<Option<RollbackStep>, InstallError>)
        requires
            old(self).wf(),
        ensures
            final(self).wf(),
            final(self).steps() == old(self).steps(),
            final(self).done() == old(self).done_after(outcome),
            final(self).failure() == old(self).failure_after(outcome),
            final(self).undo() == old(self).undo_after(outcome),
    {
        if self.failed.is_some() || self.log.len() >= self.steps.len() {
            return ;
        }
        match outcome {
            Ok(undo) => {
                let ghost before = texts(self.log@);
                let line = self.steps[self.log.len()].describe(Tense::Past);
                self.log.push(line);
                assert(texts(self.log@) =~= install_log(self.steps@, self.log.len() as nat)) by {
                    assert forall|i: int| 0 <= i < self.log.len() implies texts(self.log@)[i]
                        == install_log(self.steps@, self.log.len() as nat)[i] by {
                        if i < self.log.len() - 1 {
                            assert(before[i] == install_log(
                                self.steps@,
                                (self.log.len() - 1) as nat,
                            )[i]);
                        }
                    }
                }
                if let Some(step) = undo {
                    self.rollback.push(step);
                }
            },
            Err(e) => {
                self.failed = Some(e);
            },
        }
    }

    /// What the steps that were performed did, one line each.
    pub fn described(&self) -> (text: String)
        requires
            self.wf(),
        ensures
            text@ == joined(install_log(self.steps(), self.done()), "\n"@),
    {
        join_strings(&self.log, "\n")
    }

    /// The steps that undo what was performed, in the order in which the
    /// steps were performed. In which order to undo is for the caller to
    /// say.
    pub fn rollback_steps(&self) -> (steps: &Vec<RollbackStep>)
        ensures
            steps@ == self.undo(),
    {
        &self.rollback
    }

    /// What the installation came to: the failure of the step that failed;
    /// or, once all steps are done, what they did, one line each. While a
    /// step is left to perform there is no result.
    pub fn result(self) -> (result: Option<Result<String, InstallError>>)
        requires
            self.wf(),
        ensures
            match self.failure() {
                Some(e) => result == Some(Err::<String, InstallError>(e)),
                None => if self.done() == self.steps().len() {
                    result matches Some(Ok(text)) && text@ == joined(
                        install_log(self.steps(), self.steps().len()),
                        "\n"@,
                    )
                } else {
                    result is None
                },
            },
    {
        if let Some(e) = self.failed {
            return Some(Err(e));
        }
        if self.log.len() == self.steps.len() {
            Some(Ok(join_strings(&self.log, "\n")))
        } else {
            None
        }
    }
}

impl InstallSteps {
    /// Begins the installation. Nothing is performed yet: the caller
    /// performs the step that `next` gives, reports with `performed` how it
    /// went, and goes on until `next` gives none; `result` then says what
    /// the installation came to.
    pub fn install(self) -> (run: Installation)
        ensures
            run.wf(),
            run.steps() == self.0@,
            run.done() == 0,
            run.failure() is None,
            run.undo() == Seq::<RollbackStep>::empty(),
    {
        let run = Installation {
            steps: self.0,
            log: Vec::new(),
            rollback: Vec::new(),
            failed: None,
        };
        assert(texts(run.log@) =~= install_log(run.steps@, 0));
        run
    }
}

/// A removal under way that stops at the first failure.
pub struct Removal {
    steps: Vec<RemoveStep>,
    log: Vec<String>,
    failed: Option<RemoveError>,
}

impl Removal {
    /// Whether the run is in order: what it has noted fits its steps.
    pub closed spec fn wf(&self) -> bool {
        self.log.len() <= self.steps.len() && texts(self.log@) == remove_log(
            self.steps@,
            self.log.len() as nat,
        )
    }

    /// The steps of the removal, all of them.
    pub closed spec fn steps(&self) -> Seq<RemoveStep> {
        self.steps@
    }

    /// How many steps were performed well.
    pub closed spec fn done(&self) -> nat {
        self.log.len() as nat
    }

    /// The failure that ended the removal, if one did.
    pub closed spec fn failure(&self) -> Option<RemoveError> {
        self.failed
    }

    /// Whether a step is left to perform.
    pub open spec fn pending(&self) -> bool {
        self.failure() is None && self.done() < self.steps().len()
    }

    /// The step to perform next. There is none once a step has failed or
    /// all are done.
    pub fn next(&self) -> (step: Option<&RemoveStep>)
        requires
            self.wf(),
        ensures
            self.done() <= self.steps().len(),
            match step {
                Some(s) => self.pending() && *s == self.steps()[self.done() as int],
                None => !self.pending(),
            },
    {
        if self.failed.is_none() && self.log.len() < self.steps.len() {
            Some(&self.steps[self.log.len()])
        } else {
            None
        }
    }

    /// How many steps are done once `outcome` is noted.
    pub open spec fn done_after(&self, outcome: Result<(), RemoveError>) -> nat {
        if self.pending() && outcome is Ok {
            self.done() + 1
        } else {
            self.done()
        }
    }

    /// The failure that has ended the removal once `outcome` is noted.
    pub open spec fn failure_after(&self, outcome: Result<(), RemoveError>) -> Option<RemoveError> {
        match outcome {
            Err(e) if self.pending() => Some(e),
            _ => self.failure(),
        }
    }

    /// Takes note of how the step that `next` gave went. A step that
    /// failed ends the removal. Without a step to perform nothing is noted.
    pub fn performed(&mut self, outcome: Result<(), RemoveError>)
        requires
            old(self).wf(),
        ensures
            final(self).wf(),
            final(self).steps() == old(self).steps(),
            final(self).done() == old(self).done_after(outcome),
            final(self).failure() == old(self).failure_after(outcome),
    {
        if self.failed.is_some() || self.log.len() >= self.steps.len() {
            return ;
        }
        match outcome {
            Ok(()) => {
                let ghost before = texts(self.log@);
                let line = self.steps[self.log.len()].describe(Tense::Past);
                self.log.push(line);
                assert(texts(self.log@) =~= remove_log(self.steps@, self.log.len() as nat)) by {
                    assert forall|i: int| 0 <= i < self.log.len() implies texts(self.log@)[i]
                        == remove_log(self.steps@, self.log.len() as nat)[i] by {
                        if i < self.log.len() - 1 {
                            assert(before[i] == remove_log(
                                self.steps@,
                                (self.log.len() - 1) as nat,
                            )[i]);
                        }
                    }
                }
            },
            Err(e) => {
                self.failed = Some(e);
            },
        }
    }

    /// What the steps that were performed did, one line each.
    pub fn described(&self) -> (text: String)
        requires
            self.wf(),
        ensures
            text@ == joined(remove_log(self.steps(), self.done()), "\n"@),
    {
        join_strings(&self.log, "\n")
    }

    /// What the removal came to: the failure of the step that failed; or,
    /// once all steps are done, what they did, one line each. While a step
    /// is left to perform there is no result.
    pub fn result(self) -> (result: Option<Result<String, RemoveError>>)
        requires
            self.wf(),
        ensures
            match self.failure() {
                Some(e) => result == Some(Err::<String, RemoveError>(e)),
                None => if self.done() == self.steps().len() {
                    result matches Some(Ok(text)) && text@ == joined(
                        remove_log(self.steps(), self.steps().len()),
                        "\n"@,
                    )
                } else {
                    result is None
                },
            },
    {
        if let Some(e) = self.failed {
            return Some(Err(e));
        }
        if self.log.len() == self.steps.len() {
            Some(Ok(join_strings(&self.log, "\n")))
        } else {
            None
        }
    }
}

/// What came of the first `n` steps of a removal that goes on past
/// failures: the descriptions, in the past tense, of those that went well.
pub open spec fn gone_well(
    steps: Seq<RemoveStep>,
    outcomes: Seq<Result<(), RemoveError>>,
    n: int,
) -> Seq<Seq<char>>
    decreases n,
{
    if n <= 0 {
        Seq::empty()
    } else if outcomes[n - 1] is Ok {
        gone_well(steps, outcomes, n - 1).push(steps[n - 1].description(Tense::Past))
    } else {
        gone_well(steps, outcomes, n - 1)
    }
}

/// What came of the first `n` steps of a removal that goes on past
/// failures: for those that failed, what they were doing, in detail, and
/// the failure.
pub open spec fn gone_wrong(
    steps: Seq<RemoveStep>,
    outcomes: Seq<Result<(), RemoveError>>,
    n: int,
) -> Seq<(Seq<char>, RemoveError)>
    decreases n,
{
    if n <= 0 {
        Seq::empty()
    } else {
        match outcomes[n - 1] {
            Ok(_) => gone_wrong(steps, outcomes, n - 1),
            Err(e) => gone_wrong(steps, outcomes, n - 1).push(
                (steps[n - 1].detailed_description(Tense::Active), e),
            ),
        }
    }
}

/// The failures as text and error.
pub open spec fn failure_views(failures: Seq<(String, RemoveError)>) -> Seq<
    (Seq<char>, RemoveError),
> {
    Seq::new(failures.len(), |i: int| (failures[i].0@, failures[i].1))
}

/// A removal under way that goes on past failures.
pub struct BestEffortRemoval {
    steps: Vec<RemoveStep>,
    done: usize,
    succeeded: Vec<String>,
    failures: Vec<(String, RemoveError)>,
    outcomes: Ghost<Seq<Result<(), RemoveError>>>,
}

impl BestEffortRemoval {
    /// Whether the run is in order: what it has noted fits its steps.
    pub closed spec fn wf(&self) -> bool {
        &&& self.done <= self.steps.len()
        &&& self.outcomes@.len() == self.done
        &&& texts(self.succeeded@) == gone_well(self.steps@, self.outcomes@, self.done as int)
        &&& failure_views(self.failures@) == gone_wrong(
            self.steps@,
            self.outcomes@,
            self.done as int,
        )
    }

    /// The steps of the removal, all of them.
    pub closed spec fn steps(&self) -> Seq<RemoveStep> {
        self.steps@
    }

    /// How the steps that were performed went, in order.
    pub closed spec fn outcomes(&self) -> Seq<Result<(), RemoveError>> {
        self.outcomes@
    }

    /// The step to perform next: the first that was not performed yet,
    /// however the ones before it went.
    pub fn next(&self) -> (step: Option<&RemoveStep>)
        requires
            self.wf(),
        ensures
            self.outcomes().len() <= self.steps().len(),
            match step {
                Some(s) => self.outcomes().len() < self.steps().len() && *s
                    == self.steps()[self.outcomes().len() as int],
                None => self.outcomes().len() == self.steps().len(),
            },
    {
        if self.done < self.steps.len() {
            Some(&self.steps[self.done])
        } else {
            None
        }
    }

    /// Takes note of how the step that `next` gave went. Without a step to
    /// perform nothing is noted.
    pub fn performed(&mut self, outcome: Result<(), RemoveError>)
        requires
            old(self).wf(),
        ensures
            final(self).wf(),
            final(self).steps() == old(self).steps(),
            final(self).outcomes() == (if old(self).outcomes().len() < old(self).steps().len() {
                old(self).outcomes().push(outcome)
            } else {
                old(self).outcomes()
            }),
    {
        if self.done >= self.steps.len() {
            return ;
        }
        let ghost before = self.outcomes@;
        let ghost now = before.push(outcome);
        let ghost well = texts(self.succeeded@);
        let ghost wrong = failure_views(self.failures@);
        proof {
            lemma_same_outcomes(self.steps@, before, now, self.done as int);
        }
        match outcome {
            Ok(()) => {
                let line = self.steps[self.done].describe(Tense::Past);
                self.succeeded.push(line);
                assert(texts(self.succeeded@) =~= well.push(line@));
            },
            Err(e) => {
                let task = self.steps[self.done].describe_detailed(Tense::Active);
                self.failures.push((task, e));
                assert(failure_views(self.failures@) =~= wrong.push((task@, e)));
            },
        }
        self.outcomes = Ghost(now);
        self.done = self.done + 1;
    }

    /// What the removal came to, once every step was performed: what the
    /// steps did, one line each, where all went well; else the steps that
    /// failed, each with what it was doing and why it failed. While a step
    /// is left to perform there is no result.
    pub fn result(self) -> (result: Option<Result<String, BestEffortRemoveError>>)
        requires
            self.wf(),
        ensures
            if self.outcomes().len() < self.steps().len() {
                result is None
            } else {
                let n = self.steps().len() as int;
                let wrong = gone_wrong(self.steps(), self.outcomes(), n);
                if wrong.len() == 0 {
                    result matches Some(Ok(text)) && text@ == joined(
                        gone_well(self.steps(), self.outcomes(), n),
                        "\n"@,
                    )
                } else {
                    result matches Some(Err(error)) && failure_views(error.failures@) == wrong
                }
            },
    {
        if self.done < self.steps.len() {
            return None;
        }
        assert(failure_views(self.failures@).len() == self.failures.len());
        if self.failures.len() == 0 {
            Some(Ok(join_strings(&self.succeeded, "\n")))
        } else {
            Some(Err(BestEffortRemoveError { failures: self.failures }))
        }
    }
}

/// What came of the first `n` steps does not depend on how later steps
/// went.
pub proof fn lemma_same_outcomes(
    steps: Seq<RemoveStep>,
    a: Seq<Result<(), RemoveError>>,
    b: Seq<Result<(), RemoveError>>,
    n: int,
)
    requires
        n <= a.len(),
        n <= b.len(),
        forall|i: int| 0 <= i < n ==> a[i] == b[i],
    ensures
        gone_well(steps, a, n) == gone_well(steps, b, n),
        gone_wrong(steps, a, n) == gone_wrong(steps, b, n),
    decreases n,
{
    if n > 0 {
        lemma_same_outcomes(steps, a, b, n - 1);
    }
}

impl RemoveSteps {
    /// Begins the removal. Nothing is performed yet: the caller performs
    /// the step that `next` gives, reports with `performed` how it went, and
    /// goes on until `next` gives none. The first failure ends the removal.
    pub fn remove(self) -> (run: Removal)
        ensures
            run.wf(),
            run.steps() == self.0@,
            run.done() == 0,
            run.failure() is None,
    {
        let run = Removal { steps: self.0, log: Vec::new(), failed: None };
        assert(texts(run.log@) =~= remove_log(run.steps@, 0));
        run
    }

    /// Begins a removal that goes on past failures: every step is
    /// performed, and the failures are reported together at the end.
    pub fn best_effort_remove(self) -> (run: BestEffortRemoval)
        ensures
            run.wf(),
            run.steps() == self.0@,
            run.outcomes() == Seq::<Result<(), RemoveError>>::empty(),
    {
        let run = BestEffortRemoval {
            steps: self.0,
            done: 0,
            succeeded: Vec::new(),
            failures: Vec::new(),
            outcomes: Ghost(Seq::empty()),
        };
        assert(texts(run.succeeded@) =~= gone_well(run.steps@, run.outcomes@, 0));
        assert(failure_views(run.failures@) =~= gone_wrong(run.steps@, run.outcomes@, 0));
        run
    }
}

} // verus!
