//! Laws of contract reports: what every operation keeps and what no
//! sequence of operations can make acceptable.
use vstd::prelude::*;

use crate::capability::FileSystemCapability;
use crate::check_catalog;
use crate::contract_check::CheckView;
use crate::contract_check_id::ContractCheckId;
use crate::contract_check_outcome::OutcomeView;
use crate::contract_report::ReportView;
use crate::contract_report::completed;
use crate::contract_report::first_check_position;
use crate::contract_report::first_position;
use crate::contract_report::has_check;

verus! {

/// No identity occurs twice in `ids`.
pub open spec fn distinct_ids(ids: Seq<ContractCheckId>) -> bool {
    forall|i: int, j: int| 0 <= i < j < ids.len() ==> ids[i] != ids[j]
}

impl ReportView {
    /// The report invariant kept by registration and recording: registered
    /// identities are distinct, pending identities are distinct registered
    /// ones, and every recorded check belongs to a distinct registered
    /// identity.
    pub open spec fn well_formed(self) -> bool {
        &&& distinct_ids(self.expected)
        &&& distinct_ids(self.pending)
        &&& forall|k: int| 0 <= k < self.pending.len() ==> self.expected.contains(#[trigger] self.pending[k])
        &&& forall|i: int, j: int|
            0 <= i < j < self.checks.len() ==> (#[trigger] self.checks[i]).id != (#[trigger] self.checks[j]).id
        &&& forall|k: int| 0 <= k < self.checks.len() ==> self.expected.contains(#[trigger] self.checks[k].id)
    }
}

/// An empty report is well formed.
pub proof fn law_empty_report_is_well_formed()
    ensures
        ReportView::empty().well_formed(),
{
}

/// Registering an identity keeps a report well formed.
pub proof fn law_expect_keeps_well_formed(report: ReportView, id: ContractCheckId)
    requires
        report.well_formed(),
    ensures
        report.after_expect(id).well_formed(),
{
    let after = report.after_expect(id);
    if !report.expected.contains(id) {
        assert forall|k: int| 0 <= k < after.pending.len() implies after.expected.contains(#[trigger] after.pending[k]) by {
            if k < report.pending.len() {
                let w = choose|w: int| 0 <= w < report.expected.len() && report.expected[w] == report.pending[k];
                assert(after.expected[w] == after.pending[k]);
            } else {
                assert(after.expected[report.expected.len() as int] == id);
            }
        }
        assert forall|k: int| 0 <= k < after.checks.len() implies after.expected.contains(#[trigger] after.checks[k].id) by {
            let w = choose|w: int| 0 <= w < report.expected.len() && report.expected[w] == report.checks[k].id;
            assert(after.expected[w] == after.checks[k].id);
        }
        assert forall|i: int, j: int| 0 <= i < j < after.pending.len() implies after.pending[i] != after.pending[j] by {
            if j == report.pending.len() {
                if after.pending[i] == id {
                    let w = choose|w: int| 0 <= w < report.expected.len() && report.expected[w] == report.pending[i];
                    assert(report.expected[w] == id);
                }
            }
        }
    }
}

/// Registering a pending check keeps a report well formed.
pub proof fn law_register_keeps_well_formed(
    report: ReportView,
    id: ContractCheckId,
    capability: Option<FileSystemCapability>,
)
    requires
        report.well_formed(),
    ensures
        report.after_register(id, capability).well_formed(),
{
    if !report.expected.contains(id) {
        law_expect_keeps_well_formed(report, id);
        let after = report.after_register(id, capability);
        let mid = report.after_expect(id);
        assert forall|k: int| 0 <= k < after.checks.len() implies after.expected.contains(#[trigger] after.checks[k].id) by {
            if k < report.checks.len() {
                assert(after.checks[k] == mid.checks[k]);
            } else {
                assert(after.expected[report.expected.len() as int] == id);
            }
        }
        assert forall|i: int, j: int|
            0 <= i < j < after.checks.len() implies (#[trigger] after.checks[i]).id != (#[trigger] after.checks[j]).id by {
            if j == report.checks.len() {
                let w = choose|w: int| 0 <= w < report.expected.len() && report.expected[w] == report.checks[i].id;
                assert(report.checks[i].id != id);
            }
        }
    }
}

/// Recording keeps a report well formed.
pub proof fn law_record_keeps_well_formed(
    report: ReportView,
    id: ContractCheckId,
    capability: Option<FileSystemCapability>,
    outcome: OutcomeView,
)
    requires
        report.well_formed(),
    ensures
        report.after_record(id, capability, outcome).well_formed(),
{
    let noted = if outcome is SkippedOptional && !check_catalog::spec_optional(id) {
        ReportView {
            violations: report.violations.push(crate::text::labelled(id, "core check cannot be skipped as optional"@)),
            ..report
        }
    } else {
        report
    };
    assert(noted.well_formed());
    let after = completed(noted, id, capability, outcome);
    assert(after == report.after_record(id, capability, outcome));
    if noted.pending.contains(id) {
        let p = first_position(noted.pending, id);
        let w = choose|w: int| 0 <= w < noted.pending.len() && noted.pending[w] == id;
        assert(0 <= p < noted.pending.len() && noted.pending[p] == id);
        assert forall|k: int| 0 <= k < after.pending.len() implies after.expected.contains(#[trigger] after.pending[k]) by {
            if k < p {
                assert(after.pending[k] == noted.pending[k]);
            } else {
                assert(after.pending[k] == noted.pending[k + 1]);
            }
        }
        assert forall|i: int, j: int| 0 <= i < j < after.pending.len() implies after.pending[i] != after.pending[j] by {
            let ii = if i < p { i } else { i + 1 };
            let jj = if j < p { j } else { j + 1 };
            assert(after.pending[i] == noted.pending[ii]);
            assert(after.pending[j] == noted.pending[jj]);
        }
        let pending_w = choose|v: int| 0 <= v < noted.expected.len() && noted.expected[v] == id;
        if has_check(noted.checks, id) {
            let c = first_check_position(noted.checks, id);
            let cw = choose|i: int| 0 <= i < noted.checks.len() && (#[trigger] noted.checks[i]).id == id;
            assert(0 <= c < noted.checks.len() && noted.checks[c].id == id);
            assert forall|k: int| 0 <= k < after.checks.len() implies after.expected.contains(#[trigger] after.checks[k].id) by {
                if k == c {
                    assert(after.expected[pending_w] == id);
                } else {
                    assert(after.checks[k] == noted.checks[k]);
                }
            }
            assert forall|i: int, j: int|
                0 <= i < j < after.checks.len() implies (#[trigger] after.checks[i]).id != (#[trigger] after.checks[j]).id by {
                if i != c && j != c {
                    assert(after.checks[i] == noted.checks[i]);
                    assert(after.checks[j] == noted.checks[j]);
                } else if i == c {
                    assert(after.checks[j] == noted.checks[j]);
                    assert(noted.checks[c].id != noted.checks[j].id);
                } else {
                    assert(after.checks[i] == noted.checks[i]);
                    assert(noted.checks[i].id != noted.checks[c].id);
                }
            }
        } else {
            assert forall|k: int| 0 <= k < after.checks.len() implies after.expected.contains(#[trigger] after.checks[k].id) by {
                if k == noted.checks.len() {
                    assert(after.expected[pending_w] == id);
                } else {
                    assert(after.checks[k] == noted.checks[k]);
                }
            }
            assert forall|i: int, j: int|
                0 <= i < j < after.checks.len() implies (#[trigger] after.checks[i]).id != (#[trigger] after.checks[j]).id by {
                if j == noted.checks.len() {
                    assert(after.checks[i] == noted.checks[i]);
                    if noted.checks[i].id == id {
                        assert(has_check(noted.checks, id));
                    }
                } else {
                    assert(after.checks[i] == noted.checks[i]);
                    assert(after.checks[j] == noted.checks[j]);
                }
            }
        }
    }
}

/// Demanding more optional probes never makes a report easier to satisfy:
/// evidence for a selection is evidence for every part of it, and in
/// particular a report whose every applicable check is verified satisfies
/// its registered requirements.
pub proof fn law_smaller_selection_is_weaker(
    report: ReportView,
    smaller: Seq<ContractCheckId>,
    larger: Seq<ContractCheckId>,
)
    requires
        forall|k: int| 0 <= k < smaller.len() ==> larger.contains(#[trigger] smaller[k]),
        report.satisfied_with(larger),
    ensures
        report.satisfied_with(smaller),
{
    assert forall|k: int| 0 <= k < report.checks.len() implies (#[trigger] report.checks[k]).outcome.accepted(
        report.checks[k].id,
        smaller,
    ) by {
        assert(report.checks[k].outcome.accepted(report.checks[k].id, larger));
        if smaller.contains(report.checks[k].id) {
            let w = choose|w: int| 0 <= w < smaller.len() && smaller[w] == report.checks[k].id;
            assert(larger.contains(smaller[w]));
        }
    }
    assert forall|k: int| 0 <= k < smaller.len() implies report.expected.contains(#[trigger] smaller[k]) by {
        let w = choose|w: int| 0 <= w < larger.len() && larger[w] == smaller[k];
        assert(report.expected.contains(larger[w]));
    }
}

/// A report whose every applicable check is verified satisfies its
/// registered requirements.
pub proof fn law_all_verified_implies_requirements(report: ReportView)
    requires
        report.satisfied_with(report.expected),
    ensures
        report.satisfied_with(Seq::empty()),
{
    law_smaller_selection_is_weaker(report, Seq::empty(), report.expected);
}

/// No operation erases a retained violation: the violations before an
/// operation are a prefix of the violations after it.
pub proof fn law_violations_are_never_erased(
    report: ReportView,
    id: ContractCheckId,
    capability: Option<FileSystemCapability>,
    outcome: OutcomeView,
)
    ensures
        report.violations.is_prefix_of(report.after_expect(id).violations),
        report.violations.is_prefix_of(report.after_register(id, capability).violations),
        report.violations.is_prefix_of(report.after_record(id, capability, outcome).violations),
{
    let a = report.after_record(id, capability, outcome).violations;
    assert(report.violations.len() <= a.len());
    assert forall|k: int| 0 <= k < report.violations.len() implies report.violations[k] == a[k] by {}
}

/// A report that retained any violation satisfies no selection.
pub proof fn law_violation_blocks_satisfaction(report: ReportView, required: Seq<ContractCheckId>)
    requires
        report.violations.len() > 0,
    ensures
        !report.satisfied_with(required),
{
}

/// A check that is unverified, failed or never executed is never evidence,
/// whatever the caller selects.
pub proof fn law_rejected_outcome_blocks_satisfaction(report: ReportView, required: Seq<ContractCheckId>, k: int)
    requires
        0 <= k < report.checks.len(),
        report.checks[k].outcome is Unverified || report.checks[k].outcome is Failed
            || report.checks[k].outcome is NotRun,
    ensures
        !report.satisfied_with(required),
{
    assert(!report.checks[k].outcome.accepted(report.checks[k].id, required));
}

/// A skipped optional probe the caller requires is not evidence.
pub proof fn law_required_skip_blocks_satisfaction(report: ReportView, required: Seq<ContractCheckId>, k: int)
    requires
        0 <= k < report.checks.len(),
        report.checks[k].outcome is SkippedOptional,
        required.contains(report.checks[k].id),
    ensures
        !report.satisfied_with(required),
{
    assert(!report.checks[k].outcome.accepted(report.checks[k].id, required));
}

/// Requesting a probe that this run never registered fails the request.
pub proof fn law_outside_request_blocks_satisfaction(report: ReportView, required: Seq<ContractCheckId>, k: int)
    requires
        0 <= k < required.len(),
        !report.expected.contains(required[k]),
    ensures
        !report.satisfied_with(required),
{
}

/// Completing a check that is not pending (a duplicate or an unregistered
/// completion) invalidates the report for good.
pub proof fn law_completion_outside_pending_invalidates(
    report: ReportView,
    id: ContractCheckId,
    capability: Option<FileSystemCapability>,
    outcome: OutcomeView,
    required: Seq<ContractCheckId>,
)
    requires
        !report.pending.contains(id),
    ensures
        report.after_record(id, capability, outcome).violations.len() > report.violations.len(),
        !report.after_record(id, capability, outcome).satisfied_with(required),
{
}

/// A core check cannot downgrade itself to a skipped optional probe.
pub proof fn law_core_check_cannot_be_skipped(
    report: ReportView,
    id: ContractCheckId,
    capability: Option<FileSystemCapability>,
    reason: Seq<char>,
    required: Seq<ContractCheckId>,
)
    requires
        !check_catalog::spec_optional(id),
    ensures
        !report.after_record(id, capability, OutcomeView::SkippedOptional { reason }).satisfied_with(required),
{
}

/// A freshly registered check keeps the report incomplete until recorded.
pub proof fn law_registration_awaits_completion(
    report: ReportView,
    id: ContractCheckId,
    capability: Option<FileSystemCapability>,
    required: Seq<ContractCheckId>,
)
    ensures
        !report.after_register(id, capability).satisfied_with(required),
{
    let after = report.after_register(id, capability);
    if report.expected.contains(id) {
        assert(after.violations.len() > 0);
    } else {
        assert(after.pending.len() > 0);
    }
}

/// Recording an outcome for a pending check of a well-formed report
/// completes it: the identity is no longer pending and its recorded check
/// carries exactly the recorded capability and outcome.
pub proof fn law_record_completes_pending_check(
    report: ReportView,
    id: ContractCheckId,
    capability: Option<FileSystemCapability>,
    outcome: OutcomeView,
)
    requires
        report.well_formed(),
        report.pending.contains(id),
    ensures
        !report.after_record(id, capability, outcome).pending.contains(id),
        exists|k: int|
            0 <= k < report.after_record(id, capability, outcome).checks.len()
                && (#[trigger] report.after_record(id, capability, outcome).checks[k]) == (CheckView {
                id,
                capability,
                outcome,
            }),
{
    let after = report.after_record(id, capability, outcome);
    let p = first_position(report.pending, id);
    let w = choose|w: int| 0 <= w < report.pending.len() && report.pending[w] == id;
    assert(0 <= p < report.pending.len() && report.pending[p] == id);
    if after.pending.contains(id) {
        let q = choose|q: int| 0 <= q < after.pending.len() && after.pending[q] == id;
        let qq = if q < p { q } else { q + 1 };
        assert(after.pending[q] == report.pending[qq]);
        assert(report.pending[qq] == report.pending[p]);
    }
    if has_check(report.checks, id) {
        let c = first_check_position(report.checks, id);
        let cw = choose|i: int| 0 <= i < report.checks.len() && (#[trigger] report.checks[i]).id == id;
        assert(0 <= c < report.checks.len() && report.checks[c].id == id);
        assert(after.checks[c] == CheckView { id, capability, outcome });
    } else {
        assert(after.checks[report.checks.len() as int] == CheckView { id, capability, outcome });
    }
}

} // verus!
