use vstd::prelude::*;

use crate::capability::FileSystemCapability;
use crate::check_catalog;
use crate::contract_check_id::ContractCheckId;
use crate::contract_check_outcome::ContractCheckOutcome;
use crate::contract_check_outcome::OutcomeView;
use crate::file_system_contract::FileSystemContract;

verus! {

/// The abstract content of one recorded check.
pub struct CheckView {
    /// The check's identity.
    pub id: ContractCheckId,
    /// The capability recorded with the outcome.
    pub capability: Option<FileSystemCapability>,
    /// The recorded outcome.
    pub outcome: OutcomeView,
}

/// One named check in a contract report.
#[derive(Clone, Debug, PartialEq, Eq)]
pub struct ContractCheck {
    id: ContractCheckId,
    capability: Option<FileSystemCapability>,
    outcome: ContractCheckOutcome,
}

impl View for ContractCheck {
    type V = CheckView;

    closed spec fn view(&self) -> CheckView {
        CheckView { id: self.id, capability: self.capability, outcome: self.outcome@ }
    }
}

impl ContractCheck {
    /// Creates a check entry from its identity, capability and outcome.
    pub(crate) fn new(
        id: ContractCheckId,
        capability: Option<FileSystemCapability>,
        outcome: ContractCheckOutcome,
    ) -> (check: ContractCheck)
        ensures
            check@ == (CheckView { id, capability, outcome: outcome@ }),
    {
        ContractCheck { id, capability, outcome }
    }

    /// Returns the contract phase that produced this check.
    pub fn phase(&self) -> (phase: FileSystemContract)
        ensures
            phase == check_catalog::spec_contract(self@.id),
    {
        self.id.contract()
    }

    /// Returns the stable check identifier.
    pub fn id(&self) -> (name: &'static str)
        ensures
            name@ == self@.id.stable_name(),
    {
        self.id.as_str()
    }

    /// Returns the typed check identity.
    pub fn check_id(&self) -> (id: ContractCheckId)
        ensures
            id == self@.id,
    {
        self.id
    }

    /// Returns the capability associated with this check, when one exists.
    pub fn capability(&self) -> (capability: Option<FileSystemCapability>)
        ensures
            capability == self@.capability,
    {
        self.capability
    }

    /// Returns whether this check is required for a complete report, which
    /// holds for every check that is not an optional diagnostic probe.
    pub fn is_required(&self) -> (required: bool)
        ensures
            required == !check_catalog::spec_optional(self@.id),
    {
        !self.id.is_optional()
    }

    /// Returns the recorded check outcome.
    pub fn outcome(&self) -> (outcome: &ContractCheckOutcome)
        ensures
            outcome@ == self@.outcome,
    {
        &self.outcome
    }
}

} // verus!
