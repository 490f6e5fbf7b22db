use vstd::prelude::*;

use crate::contract_check_id::ContractCheckId;
use crate::contract_check_outcome::ContractCheckOutcome;
use crate::contract_check_outcome::OutcomeView;
use crate::contract_failure::ContractFailure;
use crate::contract_failure::FailureView;

verus! {

/// The temporary-resource checks, in the order the phase runs them.
pub open spec fn temp_check_order() -> Seq<ContractCheckId> {
    seq![
        ContractCheckId::TempFile,
        ContractCheckId::TempDirectory,
        ContractCheckId::TempAtomic,
        ContractCheckId::TempRepeatedLifecycle,
    ]
}

/// Returns the temporary-resource checks in the order the phase runs them.
pub fn temp_checks() -> (checks: Vec<ContractCheckId>)
    ensures
        checks@ == temp_check_order(),
{
    let checks = vec![
        ContractCheckId::TempFile,
        ContractCheckId::TempDirectory,
        ContractCheckId::TempAtomic,
        ContractCheckId::TempRepeatedLifecycle,
    ];
    proof {
        assert(checks@ =~= temp_check_order());
    }
    checks
}

/// Whether `id` is a temporary-resource lifecycle check.
pub open spec fn is_temp_check(id: ContractCheckId) -> bool {
    temp_check_order().contains(id)
}

/// Which temporary resource kinds one check exercises.
#[derive(Clone, Copy, Debug, PartialEq, Eq, Structural)]
pub struct TempItemPlan {
    /// Whether the temporary-file scenario runs.
    pub run_file: bool,
    /// Whether the temporary-directory scenario runs.
    pub run_directory: bool,
}

/// The scenarios a temporary-resource check runs: the file and directory
/// checks always run their own scenario, which also probes rejection
/// without the capability; the shared checks run the scenario of each
/// advertised kind.
pub open spec fn plan_of(id: ContractCheckId, file: bool, directory: bool) -> TempItemPlan {
    match id {
        ContractCheckId::TempFile => TempItemPlan { run_file: true, run_directory: false },
        ContractCheckId::TempDirectory => TempItemPlan { run_file: false, run_directory: true },
        _ => TempItemPlan { run_file: file, run_directory: directory },
    }
}

/// The message of a selection that is no temporary-resource check.
pub open spec fn not_temp_text() -> Seq<char> {
    "selected entry is not temporary lifecycle"@
}

/// Plans a temporary-resource check from the advertised file and directory
/// capabilities, or refuses a check of another phase.
pub fn temp_item_plan(id: ContractCheckId, file: bool, directory: bool) -> (plan: Result<TempItemPlan, ContractFailure>)
    ensures
        plan is Ok <==> is_temp_check(id),
        plan matches Ok(value) ==> value == plan_of(id, file, directory),
        plan matches Err(failure) ==> failure@ == (FailureView { check: Some(id), message: not_temp_text() }),
{
    proof {
        assert(temp_check_order()[0] == ContractCheckId::TempFile);
        assert(temp_check_order()[1] == ContractCheckId::TempDirectory);
        assert(temp_check_order()[2] == ContractCheckId::TempAtomic);
        assert(temp_check_order()[3] == ContractCheckId::TempRepeatedLifecycle);
    }
    match id {
        ContractCheckId::TempFile => Ok(TempItemPlan { run_file: true, run_directory: false }),
        ContractCheckId::TempDirectory => Ok(TempItemPlan { run_file: false, run_directory: true }),
        ContractCheckId::TempAtomic | ContractCheckId::TempRepeatedLifecycle => Ok(
            TempItemPlan { run_file: file, run_directory: directory },
        ),
        _ => Err(
            ContractFailure::message_only(String::from_str("selected entry is not temporary lifecycle")).at(id),
        ),
    }
}

/// The outcome a temporary-resource check records once its scenarios ran
/// without failure: the file and directory checks pass with their
/// capability and otherwise record the expected rejection; a shared check
/// without either capability does not apply, the atomic check without
/// atomic publication records the expected rejection, and the rest pass.
pub open spec fn outcome_of(id: ContractCheckId, file: bool, directory: bool, atomic: bool) -> OutcomeView {
    match id {
        ContractCheckId::TempFile => if file {
            OutcomeView::Passed
        } else {
            OutcomeView::RejectedAsExpected
        },
        ContractCheckId::TempDirectory => if directory {
            OutcomeView::Passed
        } else {
            OutcomeView::RejectedAsExpected
        },
        _ => if !file && !directory {
            OutcomeView::NotApplicable { reason: "no temporary resource capability"@ }
        } else if id == ContractCheckId::TempAtomic && !atomic {
            OutcomeView::RejectedAsExpected
        } else {
            OutcomeView::Passed
        },
    }
}

/// Returns the outcome a temporary-resource check records once its
/// scenarios ran without failure.
pub fn temp_item_outcome(id: ContractCheckId, file: bool, directory: bool, atomic: bool) -> (outcome:
    ContractCheckOutcome)
    requires
        is_temp_check(id),
    ensures
        outcome@ == outcome_of(id, file, directory, atomic),
{
    match id {
        ContractCheckId::TempFile => if file {
            ContractCheckOutcome::Passed
        } else {
            ContractCheckOutcome::RejectedAsExpected
        },
        ContractCheckId::TempDirectory => if directory {
            ContractCheckOutcome::Passed
        } else {
            ContractCheckOutcome::RejectedAsExpected
        },
        _ => if !file && !directory {
            ContractCheckOutcome::NotApplicable { reason: String::from_str("no temporary resource capability") }
        } else if id == ContractCheckId::TempAtomic && !atomic {
            ContractCheckOutcome::RejectedAsExpected
        } else {
            ContractCheckOutcome::Passed
        },
    }
}

/// A shared temporary check runs a scenario exactly for each advertised
/// kind, and applies exactly when some kind is advertised.
pub proof fn law_shared_checks_follow_capabilities(id: ContractCheckId, file: bool, directory: bool, atomic: bool)
    requires
        id == ContractCheckId::TempAtomic || id == ContractCheckId::TempRepeatedLifecycle,
    ensures
        plan_of(id, file, directory) == (TempItemPlan { run_file: file, run_directory: directory }),
        outcome_of(id, file, directory, atomic) is NotApplicable <==> !file && !directory,
{
}

/// A temporary check whose capability is advertised passes, and one whose
/// capability is missing records the expected rejection: the file check
/// follows the temp-file capability, the directory check the
/// temp-directory capability, the atomic check atomic publication once
/// some kind is advertised, and the repeated lifecycle passes once some
/// kind is advertised. The file and directory checks always run their own
/// scenario, whatever is advertised, and only that one.
pub proof fn law_temp_outcomes_follow_capabilities(file: bool, directory: bool, atomic: bool)
    ensures
        file ==> outcome_of(ContractCheckId::TempFile, file, directory, atomic) == OutcomeView::Passed,
        !file ==> outcome_of(ContractCheckId::TempFile, file, directory, atomic) == OutcomeView::RejectedAsExpected,
        directory ==> outcome_of(ContractCheckId::TempDirectory, file, directory, atomic) == OutcomeView::Passed,
        !directory ==> outcome_of(ContractCheckId::TempDirectory, file, directory, atomic)
            == OutcomeView::RejectedAsExpected,
        (file || directory) && atomic ==> outcome_of(ContractCheckId::TempAtomic, file, directory, atomic)
            == OutcomeView::Passed,
        (file || directory) && !atomic ==> outcome_of(ContractCheckId::TempAtomic, file, directory, atomic)
            == OutcomeView::RejectedAsExpected,
        file || directory ==> outcome_of(ContractCheckId::TempRepeatedLifecycle, file, directory, atomic)
            == OutcomeView::Passed,
        plan_of(ContractCheckId::TempFile, file, directory).run_file,
        !plan_of(ContractCheckId::TempFile, file, directory).run_directory,
        plan_of(ContractCheckId::TempDirectory, file, directory).run_directory,
        !plan_of(ContractCheckId::TempDirectory, file, directory).run_file,
{
}

/// A temporary check never passes without the capability it exercises:
/// the file and directory checks need their kind, and the atomic check
/// needs atomic publication.
pub proof fn law_temp_checks_pass_only_with_capability(id: ContractCheckId, file: bool, directory: bool, atomic: bool)
    requires
        outcome_of(id, file, directory, atomic) == OutcomeView::Passed,
    ensures
        id == ContractCheckId::TempFile ==> file,
        id == ContractCheckId::TempDirectory ==> directory,
        id == ContractCheckId::TempAtomic ==> atomic && (file || directory),
        file || directory,
{
}

} // verus!
