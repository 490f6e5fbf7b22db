use vstd::prelude::*;

use crate::contract_check_id::ContractCheckId;
use crate::text::blank;
use crate::text::contains_id;
use crate::text::is_blank;

verus! {

/// The observable result of one stable contract check.
#[derive(Clone, Debug, PartialEq, Eq)]
pub enum ContractCheckOutcome {
    /// The provider satisfied the check.
    Passed,
    /// The provider rejected a request that the contract requires it to reject.
    RejectedAsExpected,
    /// The check does not apply to this fixture or provider configuration.
    NotApplicable {
        /// Why this provider or fixture does not expose the scenario.
        reason: String,
    },
    /// The check could not be verified from the fixture's available evidence.
    Unverified {
        /// Why the suite could not produce independent evidence.
        reason: String,
    },
    /// An optional diagnostic probe was unavailable.
    SkippedOptional {
        /// Why an optional diagnostic probe was unavailable.
        reason: String,
    },
    /// The check ran and the provider violated the contract.
    Failed {
        /// What the provider did wrong.
        reason: String,
    },
    /// The check was registered but never executed.
    NotRun {
        /// Why execution did not reach the check.
        reason: String,
    },
}

/// The abstract content of an outcome: its variant and reason text.
pub enum OutcomeView {
    /// The provider satisfied the check.
    Passed,
    /// The provider rejected a request as the contract requires.
    RejectedAsExpected,
    /// The check does not apply, for the given reason.
    NotApplicable { reason: Seq<char> },
    /// The check could not be verified, for the given reason.
    Unverified { reason: Seq<char> },
    /// An optional probe was unavailable, for the given reason.
    SkippedOptional { reason: Seq<char> },
    /// The check failed, for the given reason.
    Failed { reason: Seq<char> },
    /// The check never executed, for the given reason.
    NotRun { reason: Seq<char> },
}

impl View for ContractCheckOutcome {
    type V = OutcomeView;

    open spec fn view(&self) -> OutcomeView {
        match self {
            ContractCheckOutcome::Passed => OutcomeView::Passed,
            ContractCheckOutcome::RejectedAsExpected => OutcomeView::RejectedAsExpected,
            ContractCheckOutcome::NotApplicable { reason } => OutcomeView::NotApplicable { reason: reason@ },
            ContractCheckOutcome::Unverified { reason } => OutcomeView::Unverified { reason: reason@ },
            ContractCheckOutcome::SkippedOptional { reason } => OutcomeView::SkippedOptional { reason: reason@ },
            ContractCheckOutcome::Failed { reason } => OutcomeView::Failed { reason: reason@ },
            ContractCheckOutcome::NotRun { reason } => OutcomeView::NotRun { reason: reason@ },
        }
    }
}

impl OutcomeView {
    /// Whether this outcome is evidence for `id` when the caller requires the
    /// optional probes in `required`.
    ///
    /// Passing and expected rejection count; an inapplicable check counts only
    /// with a stated reason; a skipped optional probe counts only with a
    /// stated reason and only when the caller did not require it; unverified,
    /// failed and unexecuted checks never count.
    pub open spec fn accepted(self, id: ContractCheckId, required: Seq<ContractCheckId>) -> bool {
        match self {
            OutcomeView::Passed => true,
            OutcomeView::RejectedAsExpected => true,
            OutcomeView::NotApplicable { reason } => !is_blank(reason),
            OutcomeView::SkippedOptional { reason } => !is_blank(reason) && !required.contains(id),
            OutcomeView::Unverified { .. } => false,
            OutcomeView::Failed { .. } => false,
            OutcomeView::NotRun { .. } => false,
        }
    }
}

impl ContractCheckOutcome {
    /// Returns whether this outcome is evidence for `id` under the caller's
    /// selection of required optional probes.
    pub fn is_accepted(&self, id: ContractCheckId, required: &[ContractCheckId]) -> (accepted: bool)
        ensures
            accepted == self@.accepted(id, required@),
    {
        match self {
            ContractCheckOutcome::Passed => true,
            ContractCheckOutcome::RejectedAsExpected => true,
            ContractCheckOutcome::NotApplicable { reason } => !blank(reason.as_str()),
            ContractCheckOutcome::SkippedOptional { reason } => {
                !blank(reason.as_str()) && !contains_id(required, id)
            },
            ContractCheckOutcome::Unverified { .. } => false,
            ContractCheckOutcome::Failed { .. } => false,
            ContractCheckOutcome::NotRun { .. } => false,
        }
    }

    /// Returns a copy of this outcome with the same variant and reason.
    pub fn duplicate(&self) -> (copy: ContractCheckOutcome)
        ensures
            copy@ == self@,
    {
        match self {
            ContractCheckOutcome::Passed => ContractCheckOutcome::Passed,
            ContractCheckOutcome::RejectedAsExpected => ContractCheckOutcome::RejectedAsExpected,
            ContractCheckOutcome::NotApplicable { reason } => {
                ContractCheckOutcome::NotApplicable { reason: reason.clone() }
            },
            ContractCheckOutcome::Unverified { reason } => {
                ContractCheckOutcome::Unverified { reason: reason.clone() }
            },
            ContractCheckOutcome::SkippedOptional { reason } => {
                ContractCheckOutcome::SkippedOptional { reason: reason.clone() }
            },
            ContractCheckOutcome::Failed { reason } => ContractCheckOutcome::Failed { reason: reason.clone() },
            ContractCheckOutcome::NotRun { reason } => ContractCheckOutcome::NotRun { reason: reason.clone() },
        }
    }
}

} // verus!
