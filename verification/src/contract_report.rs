use vstd::prelude::*;

use crate::capability::FileSystemCapability;
use crate::check_catalog;
use crate::contract_check::CheckView;
use crate::contract_check::ContractCheck;
use crate::contract_check_id::ContractCheckId;
use crate::contract_check_outcome::ContractCheckOutcome;
use crate::contract_check_outcome::OutcomeView;
use crate::text::blank;
use crate::text::contains_id;
use crate::text::is_blank;
use crate::text::join;
use crate::text::joined;
use crate::text::label;
use crate::text::labelled;
use crate::text::texts;

verus! {

/// The abstract content of a contract report.
pub struct ReportView {
    /// Recorded checks in execution order.
    pub checks: Seq<CheckView>,
    /// Identities registered by the phase catalog.
    pub expected: Seq<ContractCheckId>,
    /// Registered identities that have not been completed yet.
    pub pending: Seq<ContractCheckId>,
    /// Retained invalid transitions, in observation order.
    pub violations: Seq<Seq<char>>,
}

/// Whether some recorded check carries `id`.
pub open spec fn has_check(checks: Seq<CheckView>, id: ContractCheckId) -> bool {
    exists|i: int| 0 <= i < checks.len() && (#[trigger] checks[i]).id == id
}

/// The first position at which `id` occurs.
pub open spec fn first_position(ids: Seq<ContractCheckId>, id: ContractCheckId) -> int {
    choose|i: int|
        0 <= i < ids.len() && ids[i] == id && forall|j: int| 0 <= j < i ==> (#[trigger] ids[j]) != id
}

/// The first position of a recorded check carrying `id`.
pub open spec fn first_check_position(checks: Seq<CheckView>, id: ContractCheckId) -> int {
    choose|i: int|
        0 <= i < checks.len() && checks[i].id == id && forall|j: int|
            0 <= j < i ==> (#[trigger] checks[j]).id != id
}

/// The first position of an identity is the one preceded by no occurrence.
pub proof fn lemma_first_position(ids: Seq<ContractCheckId>, id: ContractCheckId, i: int)
    requires
        0 <= i < ids.len(),
        ids[i] == id,
        forall|j: int| 0 <= j < i ==> (#[trigger] ids[j]) != id,
    ensures
        first_position(ids, id) == i,
{
    let k = first_position(ids, id);
    assert(0 <= k < ids.len() && ids[k] == id && forall|j: int| 0 <= j < k ==> (#[trigger] ids[j]) != id);
    if k < i {
        assert(ids[k] != id);
    } else if k > i {
        assert(ids[i] != id);
    }
}

/// The first position of a recorded check is the one preceded by no check
/// carrying the same identity.
pub proof fn lemma_first_check_position(checks: Seq<CheckView>, id: ContractCheckId, i: int)
    requires
        0 <= i < checks.len(),
        checks[i].id == id,
        forall|j: int| 0 <= j < i ==> (#[trigger] checks[j]).id != id,
    ensures
        first_check_position(checks, id) == i,
{
    let k = first_check_position(checks, id);
    assert(0 <= k < checks.len() && checks[k].id == id && forall|j: int|
        0 <= j < k ==> (#[trigger] checks[j]).id != id);
    if k < i {
        assert(checks[k].id != id);
    } else if k > i {
        assert(checks[i].id != id);
    }
}

/// Notes for registered identities that have no recorded check.
pub open spec fn missing_notes(expected: Seq<ContractCheckId>, checks: Seq<CheckView>) -> Seq<Seq<char>>
    decreases expected.len(),
{
    if expected.len() == 0 {
        Seq::empty()
    } else {
        let rest = missing_notes(expected.drop_last(), checks);
        if has_check(checks, expected.last()) {
            rest
        } else {
            rest.push(labelled(expected.last(), "check was not recorded"@))
        }
    }
}

/// The diagnostic note for one recorded check, when its outcome is not evidence.
pub open spec fn outcome_note(check: CheckView, required: Seq<ContractCheckId>) -> Option<Seq<char>> {
    match check.outcome {
        OutcomeView::Unverified { reason } => Some(labelled(check.id, reason)),
        OutcomeView::Failed { reason } => Some(labelled(check.id, reason)),
        OutcomeView::NotRun { reason } => Some(labelled(check.id, reason)),
        OutcomeView::SkippedOptional { reason } => {
            if required.contains(check.id) {
                Some(labelled(check.id, "required optional probe: "@ + reason))
            } else if is_blank(reason) {
                Some(labelled(check.id, "missing applicability reason"@))
            } else {
                None
            }
        },
        OutcomeView::NotApplicable { reason } => {
            if is_blank(reason) {
                Some(labelled(check.id, "missing applicability reason"@))
            } else {
                None
            }
        },
        OutcomeView::Passed => None,
        OutcomeView::RejectedAsExpected => None,
    }
}

/// Notes for every recorded check whose outcome is not evidence.
pub open spec fn outcome_notes(checks: Seq<CheckView>, required: Seq<ContractCheckId>) -> Seq<Seq<char>>
    decreases checks.len(),
{
    if checks.len() == 0 {
        Seq::empty()
    } else {
        let rest = outcome_notes(checks.drop_last(), required);
        match outcome_note(checks.last(), required) {
            Some(note) => rest.push(note),
            None => rest,
        }
    }
}

/// Notes for requested probes that this run never registered.
pub open spec fn outside_notes(required: Seq<ContractCheckId>, expected: Seq<ContractCheckId>) -> Seq<Seq<char>>
    decreases required.len(),
{
    if required.len() == 0 {
        Seq::empty()
    } else {
        let rest = outside_notes(required.drop_last(), expected);
        if expected.contains(required.last()) {
            rest
        } else {
            rest.push(labelled(required.last(), "requested probe is outside this run"@))
        }
    }
}

/// The prefix of the message of an incomplete report.
pub open spec fn incomplete_prefix() -> Seq<char> {
    "[fs-testkit:report/incomplete] unverified checks: "@
}

/// The completion step of recording: a pending identity is completed once,
/// anything else is retained as a violation.
pub open spec fn completed(
    report: ReportView,
    id: ContractCheckId,
    capability: Option<FileSystemCapability>,
    outcome: OutcomeView,
) -> ReportView {
    if !report.pending.contains(id) {
        let note = if report.expected.contains(id) {
            "duplicate completion"@
        } else {
            "unregistered check"@
        };
        ReportView {
            checks: report.checks,
            expected: report.expected,
            pending: report.pending,
            violations: report.violations.push(labelled(id, note)),
        }
    } else {
        let entry = CheckView { id, capability, outcome };
        ReportView {
            checks: if has_check(report.checks, id) {
                report.checks.update(first_check_position(report.checks, id), entry)
            } else {
                report.checks.push(entry)
            },
            expected: report.expected,
            pending: report.pending.remove(first_position(report.pending, id)),
            violations: report.violations,
        }
    }
}

impl ReportView {
    /// A report with nothing registered.
    pub open spec fn empty() -> ReportView {
        ReportView {
            checks: Seq::empty(),
            expected: Seq::empty(),
            pending: Seq::empty(),
            violations: Seq::empty(),
        }
    }

    /// Whether the registered requirements have evidence, with the optional
    /// probes in `required` also demanded.
    pub open spec fn satisfied_with(self, required: Seq<ContractCheckId>) -> bool {
        &&& self.expected.len() > 0
        &&& self.pending.len() == 0
        &&& self.violations.len() == 0
        &&& forall|k: int| 0 <= k < self.expected.len() ==> has_check(self.checks, #[trigger] self.expected[k])
        &&& forall|k: int|
            0 <= k < self.checks.len() ==> (#[trigger] self.checks[k]).outcome.accepted(
                self.checks[k].id,
                required,
            )
        &&& forall|k: int| 0 <= k < required.len() ==> self.expected.contains(#[trigger] required[k])
    }

    /// Registers a catalog entry once.
    pub open spec fn after_expect(self, id: ContractCheckId) -> ReportView {
        if self.expected.contains(id) {
            self
        } else {
            ReportView {
                checks: self.checks,
                expected: self.expected.push(id),
                pending: self.pending.push(id),
                violations: self.violations,
            }
        }
    }

    /// Registers a pending check, or retains a duplicate registration.
    pub open spec fn after_register(self, id: ContractCheckId, capability: Option<FileSystemCapability>) -> ReportView {
        if self.expected.contains(id) {
            ReportView {
                checks: self.checks,
                expected: self.expected,
                pending: self.pending,
                violations: self.violations.push(labelled(id, "duplicate registration"@)),
            }
        } else {
            ReportView {
                checks: self.checks.push(
                    CheckView {
                        id,
                        capability,
                        outcome: OutcomeView::NotRun { reason: "check not yet executed"@ },
                    },
                ),
                expected: self.expected.push(id),
                pending: self.pending.push(id),
                violations: self.violations,
            }
        }
    }

    /// Completes a pending check once, retaining every invalid transition.
    pub open spec fn after_record(
        self,
        id: ContractCheckId,
        capability: Option<FileSystemCapability>,
        outcome: OutcomeView,
    ) -> ReportView {
        let noted = if outcome is SkippedOptional && !check_catalog::spec_optional(id) {
            ReportView {
                violations: self.violations.push(labelled(id, "core check cannot be skipped as optional"@)),
                ..self
            }
        } else {
            self
        };
        completed(noted, id, capability, outcome)
    }

    /// The message a strict assertion reports, or `None` when the
    /// requirements and the selected probes have evidence.
    pub open spec fn incomplete_text(self, required: Seq<ContractCheckId>) -> Option<Seq<char>> {
        if self.satisfied_with(required) {
            None
        } else {
            Some(incomplete_prefix() + joined(self.issues(required), ", "@))
        }
    }

    /// Every diagnostic an incomplete report lists, in the order it lists them.
    pub open spec fn issues(self, required: Seq<ContractCheckId>) -> Seq<Seq<char>> {
        self.violations + (if self.expected.len() == 0 {
            seq!["report has no registered phase"@]
        } else {
            Seq::empty()
        }) + missing_notes(self.expected, self.checks) + outcome_notes(self.checks, required)
            + outside_notes(required, self.expected)
    }
}

/// A report containing stable check identities and their outcomes.
#[derive(Clone, Debug, PartialEq, Eq)]
pub struct ContractReport {
    checks: Vec<ContractCheck>,
    expected: Vec<ContractCheckId>,
    pending: Vec<ContractCheckId>,
    violations: Vec<String>,
}

impl View for ContractReport {
    type V = ReportView;

    closed spec fn view(&self) -> ReportView {
        ReportView {
            checks: self.checks@.map_values(|check: ContractCheck| check@),
            expected: self.expected@,
            pending: self.pending@,
            violations: texts(self.violations@),
        }
    }
}


/// Viewing a pushed sequence of strings pushes the view of the new string.
pub proof fn lemma_texts_push(strings: Seq<String>, last: String)
    ensures
        texts(strings.push(last)) == texts(strings).push(last@),
{
    assert(texts(strings.push(last)) =~= texts(strings).push(last@));
}

/// Relates a sequence of strings to its state before at most one push.
proof fn settle_push(before: Seq<String>, after: Seq<String>)
    requires
        after == before || (after.len() == before.len() + 1 && after.drop_last() =~= before),
    ensures
        after == before || texts(after) == texts(before).push(after.last()@),
{
    if after != before {
        lemma_texts_push(before, after.last());
        assert(after =~= before.push(after.last()));
    }
}

impl ContractReport {
    /// Creates an empty report for a suite run.
    pub fn new() -> (report: ContractReport)
        ensures
            report@ == ReportView::empty(),
    {
        let report = ContractReport {
            checks: Vec::new(),
            expected: Vec::new(),
            pending: Vec::new(),
            violations: Vec::new(),
        };
        proof {
            assert(report@.checks =~= Seq::empty());
            assert(report@.violations =~= Seq::empty());
        }
        report
    }

    /// Returns checks in execution order.
    pub fn checks(&self) -> (checks: &[ContractCheck])
        ensures
            checks@.map_values(|check: ContractCheck| check@) == self@.checks,
    {
        self.checks.as_slice()
    }

    /// Returns the position of the recorded check carrying `id`, when any.
    fn find_check(&self, id: ContractCheckId) -> (position: Option<usize>)
        ensures
            match position {
                Some(i) => {
                    &&& i < self@.checks.len()
                    &&& self@.checks[i as int].id == id
                    &&& forall|j: int| 0 <= j < i ==> (#[trigger] self@.checks[j]).id != id
                },
                None => !has_check(self@.checks, id),
            },
    {
        let mut index: usize = 0;
        while index < self.checks.len()
            invariant
                index <= self.checks.len(),
                self@.checks.len() == self.checks.len(),
                forall|j: int| 0 <= j < index ==> (#[trigger] self@.checks[j]).id != id,
            decreases self.checks.len() - index,
        {
            if self.checks[index].check_id() == id {
                return Some(index);
            }
            index = index + 1;
        }
        None
    }

    /// Returns the first position of `id` among the pending identities.
    fn find_pending(&self, id: ContractCheckId) -> (position: Option<usize>)
        ensures
            match position {
                Some(i) => {
                    &&& i < self@.pending.len()
                    &&& self@.pending[i as int] == id
                    &&& forall|j: int| 0 <= j < i ==> (#[trigger] self@.pending[j]) != id
                },
                None => !self@.pending.contains(id),
            },
    {
        let mut index: usize = 0;
        while index < self.pending.len()
            invariant
                index <= self.pending.len(),
                self@.pending == self.pending@,
                forall|j: int| 0 <= j < index ==> (#[trigger] self@.pending[j]) != id,
            decreases self.pending.len() - index,
        {
            if self.pending[index] == id {
                return Some(index);
            }
            index = index + 1;
        }
        None
    }

    /// Appends a retained invalid transition.
    fn add_violation(&mut self, id: ContractCheckId, note: &str)
        ensures
            final(self)@ == (ReportView {
                violations: old(self)@.violations.push(labelled(id, note@)),
                ..old(self)@
            }),
    {
        let text = label(id, note);
        self.violations.push(text);
        proof {
            assert(final(self)@.violations =~= old(self)@.violations.push(labelled(id, note@)));
        }
    }

    /// Registers a catalog entry before a phase starts running.
    pub fn expect(&mut self, id: ContractCheckId)
        ensures
            final(self)@ == old(self)@.after_expect(id),
    {
        if !contains_id(self.expected.as_slice(), id) {
            self.expected.push(id);
            self.pending.push(id);
        }
    }

    /// Appends one check produced by a suite phase.
    fn push(
        &mut self,
        id: ContractCheckId,
        capability: Option<FileSystemCapability>,
        outcome: ContractCheckOutcome,
    )
        ensures
            final(self)@ == (ReportView {
                checks: old(self)@.checks.push(CheckView { id, capability, outcome: outcome@ }),
                ..old(self)@
            }),
    {
        let check = ContractCheck::new(id, capability, outcome);
        self.checks.push(check);
        proof {
            assert(final(self)@.checks =~= old(self)@.checks.push(CheckView { id, capability, outcome: outcome@ }));
        }
    }

    /// Registers a pending catalog check without completing it.
    ///
    /// A second registration of the same identity is retained as a violation.
    pub fn register(&mut self, id: ContractCheckId, capability: Option<FileSystemCapability>)
        ensures
            final(self)@ == old(self)@.after_register(id, capability),
    {
        if contains_id(self.expected.as_slice(), id) {
            self.add_violation(id, "duplicate registration");
            return;
        }
        self.expect(id);
        let reason = String::from_str("check not yet executed");
        self.push(id, capability, ContractCheckOutcome::NotRun { reason });
    }

    /// Completes a pending check, or retains the invalid completion.
    fn complete(
        &mut self,
        id: ContractCheckId,
        capability: Option<FileSystemCapability>,
        outcome: ContractCheckOutcome,
    )
        ensures
            final(self)@ == completed(old(self)@, id, capability, outcome@),
    {
        let ghost before = self@;
        match self.find_pending(id) {
            None => {
                if contains_id(self.expected.as_slice(), id) {
                    self.add_violation(id, "duplicate completion");
                } else {
                    self.add_violation(id, "unregistered check");
                }
            },
            Some(index) => {
                proof {
                    lemma_first_position(before.pending, id, index as int);
                }
                let _ = self.pending.remove(index);
                let ghost entry_view = CheckView { id, capability, outcome: outcome@ };
                let entry = ContractCheck::new(id, capability, outcome);
                match self.find_check(id) {
                    Some(position) => {
                        proof {
                            lemma_first_check_position(before.checks, id, position as int);
                        }
                        self.checks.set(position, entry);
                        proof {
                            assert(self@.checks =~= before.checks.update(
                                first_check_position(before.checks, id),
                                entry_view,
                            ));
                        }
                    },
                    None => {
                        self.checks.push(entry);
                        proof {
                            assert(self@.checks =~= before.checks.push(entry_view));
                        }
                    },
                }
                proof {
                    assert(self@.pending =~= before.pending.remove(first_position(before.pending, id)));
                }
            },
        }
    }

    /// Completes a registered check exactly once, retaining invalid
    /// transitions.
    pub fn record(
        &mut self,
        id: ContractCheckId,
        capability: Option<FileSystemCapability>,
        outcome: ContractCheckOutcome,
    )
        ensures
            final(self)@ == old(self)@.after_record(id, capability, outcome@),
    {
        let skipped = match &outcome {
            ContractCheckOutcome::SkippedOptional { .. } => true,
            _ => false,
        };
        if skipped && !id.is_optional() {
            self.add_violation(id, "core check cannot be skipped as optional");
        }
        self.complete(id, capability, outcome);
    }

    /// Returns whether the registered contract requirements have evidence.
    ///
    /// An unavailable optional probe is acceptable. A probe that ran and failed
    /// is always a failure, even when it was optional.
    pub fn requirements_satisfied(&self) -> (satisfied: bool)
        ensures
            satisfied == self@.satisfied_with(Seq::empty()),
    {
        let none: Vec<ContractCheckId> = Vec::new();
        let satisfied = self.requirements_satisfied_with(none.as_slice());
        proof {
            assert(none@ =~= Seq::<ContractCheckId>::empty());
        }
        satisfied
    }

    /// Also requires evidence for the caller-selected optional checks.
    ///
    /// A requested identity absent from this run cannot satisfy the request.
    pub fn requirements_satisfied_with(&self, required: &[ContractCheckId]) -> (satisfied: bool)
        ensures
            satisfied == self@.satisfied_with(required@),
    {
        if self.expected.len() == 0 || self.pending.len() != 0 || self.violations.len() != 0 {
            return false;
        }
        let mut k: usize = 0;
        while k < self.expected.len()
            invariant
                k <= self.expected.len(),
                self@.expected == self.expected@,
                forall|j: int| 0 <= j < k ==> has_check(self@.checks, #[trigger] self@.expected[j]),
            decreases self.expected.len() - k,
        {
            if self.find_check(self.expected[k]).is_none() {
                proof {
                    assert(!has_check(self@.checks, self@.expected[k as int]));
                }
                return false;
            }
            k = k + 1;
        }
        let mut c: usize = 0;
        while c < self.checks.len()
            invariant
                c <= self.checks.len(),
                self@.checks.len() == self.checks.len(),
                forall|j: int|
                    0 <= j < c ==> (#[trigger] self@.checks[j]).outcome.accepted(self@.checks[j].id, required@),
            decreases self.checks.len() - c,
        {
            let check = &self.checks[c];
            if !check.outcome().is_accepted(check.check_id(), required) {
                proof {
                    assert(!self@.checks[c as int].outcome.accepted(self@.checks[c as int].id, required@));
                }
                return false;
            }
            c = c + 1;
        }
        let mut r: usize = 0;
        while r < required.len()
            invariant
                r <= required.len(),
                self@.expected == self.expected@,
                forall|j: int| 0 <= j < r ==> self@.expected.contains(#[trigger] required@[j]),
            decreases required.len() - r,
        {
            if !contains_id(self.expected.as_slice(), required[r]) {
                return false;
            }
            r = r + 1;
        }
        true
    }

    /// Returns whether every applicable check, including optional probes, was
    /// verified.
    pub fn all_applicable_checks_verified(&self) -> (verified: bool)
        ensures
            verified == self@.satisfied_with(self@.expected),
    {
        self.requirements_satisfied_with(self.expected.as_slice())
    }

    /// Lists every unverified, failed, missing or invalidly completed check,
    /// including selected optional probes that lack evidence.
    pub fn issues(&self, required: &[ContractCheckId]) -> (issues: Vec<String>)
        ensures
            texts(issues@) == self@.issues(required@),
    {
        let mut issues: Vec<String> = Vec::new();
        let mut v: usize = 0;
        while v < self.violations.len()
            invariant
                v <= self.violations.len(),
                texts(issues@) == texts(self.violations@).take(v as int),
            decreases self.violations.len() - v,
        {
            let ghost before = issues@;
            issues.push(self.violations[v].clone());
            proof {
                lemma_texts_push(before, issues@.last());
                assert(issues@ =~= before.push(issues@.last()));
                assert(texts(issues@) =~= texts(self.violations@).take(v + 1));
            }
            v = v + 1;
        }
        proof {
            assert(texts(self.violations@).take(self.violations.len() as int) =~= self@.violations);
        }
        if self.expected.len() == 0 {
            issues.push(String::from_str("report has no registered phase"));
        }
        let ghost head = texts(issues@);
        proof {
            assert(head =~= self@.violations + (if self@.expected.len() == 0 {
                seq!["report has no registered phase"@]
            } else {
                Seq::empty()
            }));
        }
        let mut k: usize = 0;
        while k < self.expected.len()
            invariant
                k <= self.expected.len(),
                self@.expected == self.expected@,
                texts(issues@) == head + missing_notes(self@.expected.take(k as int), self@.checks),
            decreases self.expected.len() - k,
        {
            let id = self.expected[k];
            proof {
                assert(self@.expected.take(k + 1).drop_last() =~= self@.expected.take(k as int));
            }
            let ghost before = issues@;
            if self.find_check(id).is_none() {
                issues.push(label(id, "check was not recorded"));
            }
            proof {
                settle_push(before, issues@);
                assert(texts(issues@) =~= head + missing_notes(self@.expected.take(k + 1), self@.checks));
            }
            k = k + 1;
        }
        proof {
            assert(self@.expected.take(self.expected.len() as int) =~= self@.expected);
        }
        let ghost middle = texts(issues@);
        let mut c: usize = 0;
        while c < self.checks.len()
            invariant
                c <= self.checks.len(),
                self@.checks.len() == self.checks.len(),
                texts(issues@) == middle + outcome_notes(self@.checks.take(c as int), required@),
            decreases self.checks.len() - c,
        {
            proof {
                assert(self@.checks.take(c + 1).drop_last() =~= self@.checks.take(c as int));
            }
            let ghost before = issues@;
            let check = &self.checks[c];
            let id = check.check_id();
            match check.outcome() {
                ContractCheckOutcome::Unverified { reason } => issues.push(label(id, reason.as_str())),
                ContractCheckOutcome::Failed { reason } => issues.push(label(id, reason.as_str())),
                ContractCheckOutcome::NotRun { reason } => issues.push(label(id, reason.as_str())),
                ContractCheckOutcome::SkippedOptional { reason } => {
                    if contains_id(required, id) {
                        let mut note = String::from_str("required optional probe: ");
                        note.append(reason.as_str());
                        issues.push(label(id, note.as_str()));
                    } else if blank(reason.as_str()) {
                        issues.push(label(id, "missing applicability reason"));
                    }
                },
                ContractCheckOutcome::NotApplicable { reason } => {
                    if blank(reason.as_str()) {
                        issues.push(label(id, "missing applicability reason"));
                    }
                },
                ContractCheckOutcome::Passed => {},
                ContractCheckOutcome::RejectedAsExpected => {},
            }
            proof {
                settle_push(before, issues@);
                assert(self@.checks.take(c + 1).last() == self@.checks[c as int]);
                assert(texts(issues@) =~= middle + outcome_notes(self@.checks.take(c + 1), required@));
            }
            c = c + 1;
        }
        proof {
            assert(self@.checks.take(self.checks.len() as int) =~= self@.checks);
        }
        let ghost tail = texts(issues@);
        let mut r: usize = 0;
        while r < required.len()
            invariant
                r <= required.len(),
                self@.expected == self.expected@,
                texts(issues@) == tail + outside_notes(required@.take(r as int), self@.expected),
            decreases required.len() - r,
        {
            proof {
                assert(required@.take(r + 1).drop_last() =~= required@.take(r as int));
            }
            let id = required[r];
            let ghost before = issues@;
            if !contains_id(self.expected.as_slice(), id) {
                issues.push(label(id, "requested probe is outside this run"));
            }
            proof {
                settle_push(before, issues@);
                assert(texts(issues@) =~= tail + outside_notes(required@.take(r + 1), self@.expected));
            }
            r = r + 1;
        }
        proof {
            assert(required@.take(required.len() as int) =~= required@);
            assert(texts(issues@) =~= self@.issues(required@));
        }
        issues
    }

    /// Returns the diagnostic that a strict assertion reports, or `None` when
    /// the registered requirements and the selected optional probes have
    /// evidence.
    pub fn incomplete_message(&self, required: &[ContractCheckId]) -> (message: Option<String>)
        ensures
            match message {
                Some(text) => self@.incomplete_text(required@) == Some(text@),
                None => self@.incomplete_text(required@) is None,
            },
    {
        if self.requirements_satisfied_with(required) {
            return None;
        }
        let issues = self.issues(required);
        let mut text = String::from_str("[fs-testkit:report/incomplete] unverified checks: ");
        let body = join(&issues, ", ");
        text.append(body.as_str());
        Some(text)
    }

    /// Checks the requirements as a strict assertion does: `Ok` when they
    /// have evidence, and otherwise the diagnostic that lists every issue.
    pub fn assert_satisfied(&self) -> (result: Result<(), String>)
        ensures
            result is Ok <==> self@.satisfied_with(Seq::empty()),
            result matches Err(text) ==> self@.incomplete_text(Seq::empty()) == Some(text@),
    {
        let none: Vec<ContractCheckId> = Vec::new();
        proof {
            assert(none@ =~= Seq::<ContractCheckId>::empty());
        }
        self.assert_satisfied_with(none.as_slice())
    }

    /// Checks the requirements and the selected optional probes as a strict
    /// assertion does: `Ok` when they have evidence, and otherwise the
    /// diagnostic that lists every issue.
    pub fn assert_satisfied_with(&self, required: &[ContractCheckId]) -> (result: Result<(), String>)
        ensures
            result is Ok <==> self@.satisfied_with(required@),
            result matches Err(text) ==> self@.incomplete_text(required@) == Some(text@),
    {
        match self.incomplete_message(required) {
            Some(text) => Err(text),
            None => Ok(()),
        }
    }
}

} // verus!
