use vstd::prelude::*;

use crate::check_catalog;
use crate::cleanup_report::CleanupReport;
use crate::cleanup_report::CleanupView;
use crate::contract_check_id::ContractCheckId;
use crate::contract_check_outcome::ContractCheckOutcome;
use crate::contract_check_outcome::OutcomeView;
use crate::contract_failure::ContractFailure;
use crate::contract_failure::FailureView;
use crate::contract_failure::failure_text;
use crate::contract_report::ContractReport;
use crate::contract_report::ReportView;
use crate::text::joined;

verus! {

/// The abstract content of a run.
pub struct RunView {
    /// Registered checks and their evidence.
    pub report: ReportView,
    /// Cleanup attempts and failures.
    pub cleanup: CleanupView,
    /// Execution failures in observation order.
    pub failures: Seq<FailureView>,
    /// Whether the session started.
    pub started: bool,
    /// Whether execution and its cleanup attempt returned.
    pub completed: bool,
}

impl RunView {
    /// Execution returned, nothing failed, and cleanup returned without
    /// failures.
    pub open spec fn execution_satisfied(self) -> bool {
        &&& self.completed
        &&& self.failures.len() == 0
        &&& self.cleanup.completed
        &&& self.cleanup.failures.len() == 0
    }

    /// Execution succeeded and the report satisfies the selection.
    pub open spec fn satisfied_with(self, required: Seq<ContractCheckId>) -> bool {
        self.execution_satisfied() && self.report.satisfied_with(required)
    }

    /// A started session that never returned its result.
    pub open spec fn interrupted(self) -> bool {
        self.started && !self.completed
    }

    /// The message a strict assertion of the run reports, or `None` when
    /// execution, cleanup and the selected evidence all succeeded.
    pub open spec fn incomplete_text(self, required: Seq<ContractCheckId>) -> Option<Seq<char>> {
        if !self.execution_satisfied() {
            Some(execution_message(self))
        } else {
            self.report.incomplete_text(required)
        }
    }

    /// The texts of execution failures followed by cleanup failures.
    pub open spec fn diagnostics(self) -> Seq<Seq<char>> {
        (self.failures + self.cleanup.failures).map_values(|failure: FailureView| failure_text(failure))
    }
}

/// Prints a flag as Rust formats a `bool`.
pub open spec fn flag_text(flag: bool) -> Seq<char> {
    if flag {
        "true"@
    } else {
        "false"@
    }
}

/// The message of a run whose execution or cleanup did not succeed.
pub open spec fn execution_message(run: RunView) -> Seq<char> {
    "[fs-testkit:run] completed="@ + flag_text(run.completed) + " cleanup_completed="@ + flag_text(
        run.cleanup.completed,
    ) + ": "@ + joined(run.diagnostics(), "; "@)
}

/// Retains contract evidence and execution diagnostics for one session.
///
/// A completed run may fail its requirements. Completion means only that
/// execution and its automatic cleanup attempt returned.
pub struct ContractRun {
    report: ContractReport,
    cleanup: CleanupReport,
    failures: Vec<ContractFailure>,
    started: bool,
    completed: bool,
}

impl View for ContractRun {
    type V = RunView;

    closed spec fn view(&self) -> RunView {
        RunView {
            report: self.report@,
            cleanup: self.cleanup@,
            failures: self.failures@.map_values(|failure: ContractFailure| failure@),
            started: self.started,
            completed: self.completed,
        }
    }
}

/// Renders a flag as Rust formats a `bool`.
fn flag(value: bool) -> (text: &'static str)
    ensures
        text@ == flag_text(value),
{
    if value {
        "true"
    } else {
        "false"
    }
}

impl ContractRun {
    /// The content of a fresh run.
    pub open spec fn new_view() -> RunView {
        RunView {
            report: ReportView::empty(),
            cleanup: CleanupView { attempts: 0, completed: false, failures: Seq::empty() },
            failures: Seq::empty(),
            started: false,
            completed: false,
        }
    }

    /// Creates the evidence container before any provider operation runs.
    pub fn new() -> (run: ContractRun)
        ensures
            run@ == Self::new_view(),
    {
        let run = ContractRun {
            report: ContractReport::new(),
            cleanup: CleanupReport::new(),
            failures: Vec::new(),
            started: false,
            completed: false,
        };
        proof {
            assert(run@.failures =~= Seq::empty());
        }
        run
    }

    /// Returns the registered checks and their evidence.
    pub fn report(&self) -> (report: &ContractReport)
        ensures
            report@ == self@.report,
    {
        &self.report
    }

    /// Returns cleanup evidence and the history of all attempts.
    pub fn cleanup(&self) -> (cleanup: &CleanupReport)
        ensures
            cleanup@ == self@.cleanup,
    {
        &self.cleanup
    }

    /// Returns preserved failures in observation order.
    pub fn failures(&self) -> (failures: &[ContractFailure])
        ensures
            failures@.map_values(|failure: ContractFailure| failure@) == self@.failures,
    {
        self.failures.as_slice()
    }

    /// Reports that a started session was dropped before returning its
    /// result.
    pub fn was_interrupted(&self) -> (interrupted: bool)
        ensures
            interrupted == self@.interrupted(),
    {
        self.started && !self.completed
    }

    /// Keeps cleanup and lifecycle requirements identical for every policy.
    fn execution_satisfied(&self) -> (satisfied: bool)
        ensures
            satisfied == self@.execution_satisfied(),
    {
        self.completed && self.failures.len() == 0 && self.cleanup.completed() && self.cleanup.failures().len()
            == 0
    }

    /// Returns whether execution ended and every required check has
    /// evidence.
    pub fn requirements_satisfied(&self) -> (satisfied: bool)
        ensures
            satisfied == self@.satisfied_with(Seq::empty()),
    {
        self.execution_satisfied() && self.report.requirements_satisfied()
    }

    /// Also requires evidence for caller-selected optional probes.
    ///
    /// Missing selections outside this run fail rather than being ignored.
    pub fn requirements_satisfied_with(&self, required: &[ContractCheckId]) -> (satisfied: bool)
        ensures
            satisfied == self@.satisfied_with(required@),
    {
        self.execution_satisfied() && self.report.requirements_satisfied_with(required)
    }

    /// Includes every applicable optional probe in the evidence requirement.
    pub fn all_applicable_checks_verified(&self) -> (verified: bool)
        ensures
            verified == self@.satisfied_with(self@.report.expected),
    {
        self.execution_satisfied() && self.report.all_applicable_checks_verified()
    }

    /// Returns the diagnostic that a strict assertion of the run reports, or
    /// `None` when execution, cleanup and the selected evidence all
    /// succeeded.
    pub fn incomplete_message(&self, required: &[ContractCheckId]) -> (message: Option<String>)
        ensures
            match message {
                Some(text) => self@.incomplete_text(required@) == Some(text@),
                None => self@.incomplete_text(required@) is None,
            },
    {
        if self.execution_satisfied() {
            return self.report.incomplete_message(required);
        }
        let mut texts: Vec<String> = Vec::new();
        let ghost all = self@.failures + self@.cleanup.failures;
        let cleanup_failures = self.cleanup.failures();
        let mut index: usize = 0;
        while index < self.failures.len()
            invariant
                index <= self.failures.len(),
                all == self@.failures + self@.cleanup.failures,
                self@.failures.len() == self.failures.len(),
                crate::text::texts(texts@) == all.take(index as int).map_values(
                    |failure: FailureView| failure_text(failure),
                ),
            decreases self.failures.len() - index,
        {
            let ghost before = texts@;
            let text = self.failures[index].to_display_string();
            proof {
                assert(all[index as int] == self@.failures[index as int]);
            }
            texts.push(text);
            proof {
                crate::contract_report::lemma_texts_push(before, texts@.last());
                assert(texts@ =~= before.push(texts@.last()));
                assert(all.take(index + 1).map_values(|failure: FailureView| failure_text(failure)) =~= all.take(
                    index as int,
                ).map_values(|failure: FailureView| failure_text(failure)).push(failure_text(all[index as int])));
            }
            index = index + 1;
        }
        let mut extra: usize = 0;
        while extra < cleanup_failures.len()
            invariant
                extra <= cleanup_failures.len(),
                all == self@.failures + self@.cleanup.failures,
                self@.failures.len() == self.failures.len(),
                cleanup_failures@.map_values(|failure: ContractFailure| failure@) == self@.cleanup.failures,
                crate::text::texts(texts@) == all.take(self.failures.len() + extra).map_values(
                    |failure: FailureView| failure_text(failure),
                ),
            decreases cleanup_failures.len() - extra,
        {
            let ghost before = texts@;
            let ghost position = self.failures.len() + extra;
            let text = cleanup_failures[extra].to_display_string();
            proof {
                assert(all[position] == self@.cleanup.failures[extra as int]);
            }
            texts.push(text);
            proof {
                crate::contract_report::lemma_texts_push(before, texts@.last());
                assert(texts@ =~= before.push(texts@.last()));
                assert(all.take(position + 1).map_values(|failure: FailureView| failure_text(failure)) =~= all.take(
                    position,
                ).map_values(|failure: FailureView| failure_text(failure)).push(failure_text(all[position])));
            }
            extra = extra + 1;
        }
        proof {
            assert(all.take(all.len() as int) =~= all);
            assert(self@.diagnostics() =~= all.map_values(|failure: FailureView| failure_text(failure)));
        }
        let diagnostics = crate::text::join(&texts, "; ");
        let mut text = String::from_str("[fs-testkit:run] completed=");
        text.append(flag(self.completed));
        text.append(" cleanup_completed=");
        text.append(flag(self.cleanup.completed()));
        text.append(": ");
        text.append(diagnostics.as_str());
        Some(text)
    }

    /// Checks the requirements as a strict assertion does: `Ok` when they
    /// have evidence, and otherwise the diagnostic that lists every issue.
    pub fn assert_satisfied(&self) -> (result: Result<(), String>)
        ensures
            result is Ok <==> self@.satisfied_with(Seq::empty()),
            result matches Err(text) ==> self@.incomplete_text(Seq::empty()) == Some(text@),
    {
        let none: Vec<ContractCheckId> = Vec::new();
        proof {
            assert(none@ =~= Seq::<ContractCheckId>::empty());
        }
        self.assert_satisfied_with(none.as_slice())
    }

    /// Checks the requirements and the selected optional probes as a strict
    /// assertion does: `Ok` when they have evidence, and otherwise the
    /// diagnostic that lists every issue.
    pub fn assert_satisfied_with(&self, required: &[ContractCheckId]) -> (result: Result<(), String>)
        ensures
            result is Ok <==> self@.satisfied_with(required@),
            result matches Err(text) ==> self@.incomplete_text(required@) == Some(text@),
    {
        match self.incomplete_message(required) {
            Some(text) => Err(text),
            None => Ok(()),
        }
    }

    /// Starts the session once. A second start is refused and retained as
    /// an execution failure.
    pub fn begin_session(&mut self) -> (fresh: bool)
        ensures
            fresh == !old(self)@.started,
            fresh ==> final(self)@ == (RunView { started: true, ..old(self)@ }),
            !fresh ==> final(self)@ == (RunView {
                failures: old(self)@.failures.push(
                    FailureView {
                        check: None,
                        message: "session already started; create a fresh fixture for another run"@,
                    },
                ),
                ..old(self)@
            }),
    {
        if self.started {
            let failure = ContractFailure::message_only(
                String::from_str("session already started; create a fresh fixture for another run"),
            );
            self.push_failure(failure);
            return false;
        }
        self.started = true;
        true
    }

    /// Marks execution and its cleanup attempt as returned.
    pub fn mark_completed(&mut self)
        ensures
            final(self)@ == (RunView { completed: true, ..old(self)@ }),
    {
        self.completed = true;
    }

    /// Appends an execution failure without attributing it to a check.
    pub fn push_failure(&mut self, failure: ContractFailure)
        ensures
            final(self)@ == (RunView { failures: old(self)@.failures.push(failure@), ..old(self)@ }),
    {
        let ghost added = failure@;
        self.failures.push(failure);
        proof {
            assert(final(self)@.failures =~= old(self)@.failures.push(added));
        }
    }

    /// Registers a pending catalog check in the report.
    pub fn register_check(&mut self, id: ContractCheckId, capability: Option<crate::capability::FileSystemCapability>)
        ensures
            final(self)@ == (RunView { report: old(self)@.report.after_register(id, capability), ..old(self)@ }),
    {
        self.report.register(id, capability);
    }

    /// Records the outcome of a check in the report.
    pub fn record_check(
        &mut self,
        id: ContractCheckId,
        capability: Option<crate::capability::FileSystemCapability>,
        outcome: ContractCheckOutcome,
    )
        ensures
            final(self)@ == (RunView {
                report: old(self)@.report.after_record(id, capability, outcome@),
                ..old(self)@
            }),
    {
        self.report.record(id, capability, outcome);
    }

    /// Records a failure: an attributed failure completes its check as
    /// failed with the failure's message, and every failure is retained.
    pub fn fail(&mut self, failure: ContractFailure)
        ensures
            final(self)@ == (RunView {
                report: match failure@.check {
                    Some(id) => old(self)@.report.after_record(
                        id,
                        check_catalog::spec_capability(id),
                        OutcomeView::Failed { reason: failure@.message },
                    ),
                    None => old(self)@.report,
                },
                failures: old(self)@.failures.push(failure@),
                ..old(self)@
            }),
    {
        if let Some(id) = failure.check() {
            let reason = String::from_str(failure.message());
            self.record_check(id, check_catalog::specification(id).capability, ContractCheckOutcome::Failed { reason });
        }
        self.push_failure(failure);
    }

    /// Counts a started cleanup attempt.
    pub fn start_cleanup(&mut self)
        ensures
            final(self)@.cleanup.attempts == (if old(self)@.cleanup.attempts == usize::MAX {
                usize::MAX
            } else {
                (old(self)@.cleanup.attempts + 1) as usize
            }),
            final(self)@ == (RunView {
                cleanup: CleanupView {
                    attempts: final(self)@.cleanup.attempts,
                    completed: false,
                    failures: old(self)@.cleanup.failures,
                },
                ..old(self)@
            }),
    {
        self.cleanup.start_attempt();
    }

    /// Marks the latest cleanup attempt as returned.
    pub fn finish_cleanup(&mut self)
        ensures
            final(self)@ == (RunView {
                cleanup: CleanupView { completed: true, ..old(self)@.cleanup },
                ..old(self)@
            }),
    {
        self.cleanup.finish_attempt();
    }

    /// Appends a cleanup failure to the history.
    pub fn record_cleanup_failure(&mut self, failure: ContractFailure)
        ensures
            final(self)@ == (RunView {
                cleanup: CleanupView { failures: old(self)@.cleanup.failures.push(failure@), ..old(self)@.cleanup },
                ..old(self)@
            }),
    {
        self.cleanup.record_failure(failure);
    }
}

} // verus!

verus! {

/// A satisfied run has a satisfied report: run-level success adds
/// execution and cleanup requirements and never relaxes the evidence.
pub proof fn law_run_success_needs_report_success(run: RunView, required: Seq<ContractCheckId>)
    requires
        run.satisfied_with(required),
    ensures
        run.report.satisfied_with(required),
        run.execution_satisfied(),
{
}

/// A session that started and never returned is never satisfied, whatever
/// its evidence.
pub proof fn law_interrupted_run_is_unsatisfied(run: RunView, required: Seq<ContractCheckId>)
    requires
        run.interrupted(),
    ensures
        !run.satisfied_with(required),
        run.incomplete_text(required) is Some,
{
}

/// Any retained execution or cleanup failure makes the run unsatisfied;
/// a later successful attempt does not erase it.
pub proof fn law_retained_failure_blocks_run(run: RunView, required: Seq<ContractCheckId>)
    requires
        run.failures.len() > 0 || run.cleanup.failures.len() > 0,
    ensures
        !run.satisfied_with(required),
{
}

/// The strict message of a run is absent exactly when the run satisfies
/// the selection.
pub proof fn law_run_message_iff_unsatisfied(run: RunView, required: Seq<ContractCheckId>)
    ensures
        run.incomplete_text(required) is None <==> run.satisfied_with(required),
{
}

} // verus!
