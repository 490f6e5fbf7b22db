use vstd::prelude::*;

use crate::contract_failure::ContractFailure;
use crate::contract_failure::FailureView;

verus! {

/// The abstract content of a cleanup history.
pub struct CleanupView {
    /// Cleanup attempts started, including cancelled ones.
    pub attempts: usize,
    /// Whether the latest attempt returned.
    pub completed: bool,
    /// Every observed failure, in observation order.
    pub failures: Seq<FailureView>,
}

/// One change to a cleanup history.
pub enum CleanupStep {
    /// A cleanup attempt starts.
    Start,
    /// The latest attempt returns.
    Finish,
    /// A failure is observed.
    Record(FailureView),
}

/// The cleanup history after one step.
pub open spec fn cleanup_after(history: CleanupView, step: CleanupStep) -> CleanupView {
    match step {
        CleanupStep::Start => CleanupView {
            attempts: if history.attempts == usize::MAX {
                usize::MAX
            } else {
                (history.attempts + 1) as usize
            },
            completed: false,
            failures: history.failures,
        },
        CleanupStep::Finish => CleanupView { completed: true, ..history },
        CleanupStep::Record(failure) => CleanupView { failures: history.failures.push(failure), ..history },
    }
}

/// The cleanup history after a sequence of steps, taken in order.
pub open spec fn cleanup_after_all(history: CleanupView, steps: Seq<CleanupStep>) -> CleanupView
    decreases steps.len(),
{
    if steps.len() == 0 {
        history
    } else {
        cleanup_after(cleanup_after_all(history, steps.drop_last()), steps.last())
    }
}

/// Cleanup failures are only ever appended: across any sequence of
/// started attempts, returned attempts and observed failures, the failures
/// seen before are a prefix of those seen after, and a later attempt,
/// successful or not, never removes an earlier failure.
pub proof fn law_cleanup_failures_only_appended(history: CleanupView, steps: Seq<CleanupStep>)
    ensures
        history.failures.is_prefix_of(cleanup_after_all(history, steps).failures),
    decreases steps.len(),
{
    if steps.len() > 0 {
        law_cleanup_failures_only_appended(history, steps.drop_last());
        let before = cleanup_after_all(history, steps.drop_last()).failures;
        let after = cleanup_after_all(history, steps).failures;
        assert(before.is_prefix_of(after)) by {
            match steps.last() {
                CleanupStep::Record(failure) => {
                    assert(after == before.push(failure));
                    assert(after.subrange(0, before.len() as int) =~= before);
                },
                _ => {
                    assert(after.subrange(0, before.len() as int) =~= before);
                },
            }
        }
        assert(after.subrange(0, history.failures.len() as int) =~= history.failures) by {
            assert(before.subrange(0, history.failures.len() as int) =~= history.failures);
            assert(after.subrange(0, before.len() as int) =~= before);
        }
    }
}

/// Cleanup attempts and their historical failures.
///
/// A later successful teardown does not erase a failed facade deletion.
pub struct CleanupReport {
    attempts: usize,
    completed: bool,
    failures: Vec<ContractFailure>,
}

impl View for CleanupReport {
    type V = CleanupView;

    closed spec fn view(&self) -> CleanupView {
        CleanupView {
            attempts: self.attempts,
            completed: self.completed,
            failures: self.failures@.map_values(|failure: ContractFailure| failure@),
        }
    }
}

impl CleanupReport {
    /// Returns the number of cleanup attempts started, including cancelled
    /// ones.
    pub fn attempts(&self) -> (attempts: usize)
        ensures
            attempts == self@.attempts,
    {
        self.attempts
    }

    /// Returns whether the latest cleanup attempt returned successfully.
    pub fn completed(&self) -> (completed: bool)
        ensures
            completed == self@.completed,
    {
        self.completed
    }

    /// Returns every observed failure, including failures before a retry.
    pub fn failures(&self) -> (failures: &[ContractFailure])
        ensures
            failures@.map_values(|failure: ContractFailure| failure@) == self@.failures,
    {
        self.failures.as_slice()
    }

    /// Creates an empty cleanup history.
    pub fn new() -> (report: CleanupReport)
        ensures
            report@ == (CleanupView { attempts: 0, completed: false, failures: Seq::empty() }),
    {
        let report = CleanupReport { attempts: 0, completed: false, failures: Vec::new() };
        proof {
            assert(report@.failures =~= Seq::empty());
        }
        report
    }

    /// Counts a started attempt, saturating at the largest count, and marks
    /// it as not yet returned.
    pub fn start_attempt(&mut self)
        ensures
            final(self)@ == (CleanupView {
                attempts: if old(self)@.attempts == usize::MAX {
                    usize::MAX
                } else {
                    (old(self)@.attempts + 1) as usize
                },
                completed: false,
                failures: old(self)@.failures,
            }),
            final(self)@ == cleanup_after(old(self)@, CleanupStep::Start),
    {
        self.attempts = self.attempts.saturating_add(1);
        self.completed = false;
    }

    /// Marks the latest attempt as returned.
    pub fn finish_attempt(&mut self)
        ensures
            final(self)@ == (CleanupView { completed: true, ..old(self)@ }),
            final(self)@ == cleanup_after(old(self)@, CleanupStep::Finish),
    {
        self.completed = true;
    }

    /// Appends an observed failure to the history.
    pub fn record_failure(&mut self, failure: ContractFailure)
        ensures
            final(self)@ == (CleanupView { failures: old(self)@.failures.push(failure@), ..old(self)@ }),
            final(self)@ == cleanup_after(old(self)@, CleanupStep::Record(failure@)),
    {
        let ghost added = failure@;
        self.failures.push(failure);
        proof {
            assert(final(self)@.failures =~= old(self)@.failures.push(added));
        }
    }
}

} // verus!
