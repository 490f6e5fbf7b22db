use qubit_fs_testkit::ContractCheckId;
use qubit_fs_testkit::ContractCheckOutcome;
use qubit_fs_testkit::ContractReport;
use qubit_fs_testkit::FileSystemCapability;

#[test]
fn missing_catalog_entry_is_incomplete() {
    let mut report = ContractReport::new();
    report.expect(ContractCheckId::ReadBasic);
    report.record(ContractCheckId::WriteBasic, None, ContractCheckOutcome::Passed);
    assert!(!report.requirements_satisfied());
}

#[test]
fn unverified_catalog_entry_is_incomplete_until_recorded() {
    let mut report = ContractReport::new();
    report.expect(ContractCheckId::ReadBasic);
    report.record(
        ContractCheckId::ReadBasic,
        None,
        ContractCheckOutcome::Unverified {
            reason: "check not yet executed".to_owned(),
        },
    );

    assert!(!report.requirements_satisfied());
    let result = report.assert_satisfied();
    assert!(result.is_err(), "an unexecuted check must fail strict mode");
}

#[test]
fn skipped_optional_does_not_make_report_incomplete() {
    let mut report = ContractReport::new();
    report.expect(ContractCheckId::AsyncCopyCancelReader);
    report.record(
        ContractCheckId::AsyncCopyCancelReader,
        None,
        ContractCheckOutcome::SkippedOptional {
            reason: "probe unavailable".to_owned(),
        },
    );
    assert!(report.requirements_satisfied());
}

#[test]
fn optional_evidence_can_be_required_by_the_caller() {
    let mut report = ContractReport::new();
    let id = ContractCheckId::AsyncCopyCancelReader;
    report.expect(id);
    report.record(
        id,
        None,
        ContractCheckOutcome::SkippedOptional {
            reason: "no suspension gate".to_owned(),
        },
    );
    assert!(report.requirements_satisfied());
    assert!(!report.all_applicable_checks_verified());
    assert!(!report.requirements_satisfied_with(&[id]));
}

#[test]
fn failed_optional_probe_is_never_accepted() {
    let mut report = ContractReport::new();
    report.expect(ContractCheckId::AsyncCopyCancelReader);
    report.record(
        ContractCheckId::AsyncCopyCancelReader,
        None,
        ContractCheckOutcome::Failed {
            reason: "recovery writer was lost".to_owned(),
        },
    );
    assert!(!report.requirements_satisfied());
    assert!(!report.all_applicable_checks_verified());
}

#[test]
fn not_run_is_not_evidence() {
    let mut report = ContractReport::new();
    report.expect(ContractCheckId::ReadBasic);
    report.record(
        ContractCheckId::ReadBasic,
        None,
        ContractCheckOutcome::NotRun {
            reason: "earlier provider panic".to_owned(),
        },
    );
    assert!(!report.requirements_satisfied());
    assert!(!report.all_applicable_checks_verified());
}

#[test]
fn required_probe_must_belong_to_the_report() {
    let mut report = ContractReport::new();
    report.expect(ContractCheckId::ReadBasic);
    report.record(ContractCheckId::ReadBasic, None, ContractCheckOutcome::Passed);
    assert!(report.requirements_satisfied());
    assert!(!report.requirements_satisfied_with(&[ContractCheckId::WriteCancelOpen]));
}

#[test]
fn duplicate_completion_invalidates_report() {
    let mut report = ContractReport::new();
    report.expect(ContractCheckId::ReadBasic);
    report.record(ContractCheckId::ReadBasic, None, ContractCheckOutcome::Passed);
    report.record(ContractCheckId::ReadBasic, None, ContractCheckOutcome::Passed);
    assert!(!report.requirements_satisfied());
}

#[test]
fn unregistered_completion_invalidates_report() {
    let mut report = ContractReport::new();
    report.expect(ContractCheckId::ReadBasic);
    report.record(ContractCheckId::ReadBasic, None, ContractCheckOutcome::Passed);
    report.record(ContractCheckId::WriteBasic, None, ContractCheckOutcome::Passed);
    assert!(!report.requirements_satisfied());
}

#[test]
fn unverified_completion_cannot_be_overwritten_by_success() {
    let mut report = ContractReport::new();
    report.expect(ContractCheckId::ReadBasic);
    report.record(
        ContractCheckId::ReadBasic,
        None,
        ContractCheckOutcome::Unverified {
            reason: "independent read unavailable".to_owned(),
        },
    );
    report.record(ContractCheckId::ReadBasic, None, ContractCheckOutcome::Passed);
    assert!(!report.requirements_satisfied());
}

#[test]
fn core_check_cannot_downgrade_itself_to_optional() {
    let mut report = ContractReport::new();
    report.expect(ContractCheckId::WriteBasic);
    report.record(
        ContractCheckId::WriteBasic,
        None,
        ContractCheckOutcome::SkippedOptional {
            reason: "fixture elected to skip writing".to_owned(),
        },
    );
    assert!(!report.requirements_satisfied());
}

#[test]
fn empty_report_has_no_registered_phase() {
    let report = ContractReport::new();
    assert!(!report.requirements_satisfied());
    assert_eq!(
        report.incomplete_message(&[]).unwrap(),
        "[fs-testkit:report/incomplete] unverified checks: report has no registered phase"
    );
}

#[test]
fn registered_check_waits_for_completion() {
    let mut report = ContractReport::new();
    report.register(ContractCheckId::StatBasic, Some(FileSystemCapability::Read));
    assert!(!report.requirements_satisfied());
    assert_eq!(report.checks().len(), 1);
    assert_eq!(
        report.checks()[0].outcome(),
        &ContractCheckOutcome::NotRun {
            reason: "check not yet executed".to_owned()
        }
    );
    assert_eq!(
        report.issues(&[]),
        vec!["stat/basic (check not yet executed)".to_owned()]
    );
    report.record(
        ContractCheckId::StatBasic,
        Some(FileSystemCapability::Read),
        ContractCheckOutcome::RejectedAsExpected,
    );
    assert!(report.requirements_satisfied());
    assert_eq!(report.checks().len(), 1);
    assert_eq!(report.checks()[0].outcome(), &ContractCheckOutcome::RejectedAsExpected);
    assert_eq!(report.checks()[0].id(), "stat/basic");
    assert!(report.incomplete_message(&[]).is_none());
}

#[test]
fn duplicate_registration_is_a_violation() {
    let mut report = ContractReport::new();
    report.register(ContractCheckId::ListBasic, None);
    report.register(ContractCheckId::ListBasic, None);
    report.record(ContractCheckId::ListBasic, None, ContractCheckOutcome::Passed);
    assert!(!report.requirements_satisfied());
    assert_eq!(report.issues(&[]), vec!["list/basic (duplicate registration)".to_owned()]);
}

#[test]
fn not_applicable_needs_a_reason() {
    let mut report = ContractReport::new();
    report.expect(ContractCheckId::RenameBasic);
    report.record(
        ContractCheckId::RenameBasic,
        None,
        ContractCheckOutcome::NotApplicable { reason: " \t ".to_owned() },
    );
    assert!(!report.requirements_satisfied());
    assert_eq!(
        report.incomplete_message(&[]).unwrap(),
        "[fs-testkit:report/incomplete] unverified checks: rename/basic (missing applicability reason)"
    );
    let mut unicode = ContractReport::new();
    unicode.expect(ContractCheckId::RenameBasic);
    unicode.record(
        ContractCheckId::RenameBasic,
        None,
        ContractCheckOutcome::NotApplicable { reason: "\u{3000}\u{2003}\u{85}".to_owned() },
    );
    assert!(!unicode.requirements_satisfied());
    let mut worded = ContractReport::new();
    worded.expect(ContractCheckId::RenameBasic);
    worded.record(
        ContractCheckId::RenameBasic,
        None,
        ContractCheckOutcome::NotApplicable { reason: "\u{3000}flat\u{2003}".to_owned() },
    );
    assert!(worded.requirements_satisfied());
}

#[test]
fn diagnostics_list_every_problem_in_order() {
    let mut report = ContractReport::new();
    report.expect(ContractCheckId::ReadBasic);
    report.expect(ContractCheckId::AsyncCopyCancelWriter);
    report.record(ContractCheckId::WriteBasic, None, ContractCheckOutcome::Passed);
    report.record(
        ContractCheckId::AsyncCopyCancelWriter,
        None,
        ContractCheckOutcome::SkippedOptional { reason: "no gate".to_owned() },
    );
    assert_eq!(
        report.issues(&[ContractCheckId::AsyncCopyCancelWriter, ContractCheckId::TempFile]),
        vec![
            "write/basic (unregistered check)".to_owned(),
            "read/basic (check was not recorded)".to_owned(),
            "async-copy/cancel-writer (required optional probe: no gate)".to_owned(),
            "temp/file (requested probe is outside this run)".to_owned(),
        ]
    );
    assert_eq!(
        report.incomplete_message(&[ContractCheckId::AsyncCopyCancelWriter]).unwrap(),
        "[fs-testkit:report/incomplete] unverified checks: write/basic (unregistered check), \
         read/basic (check was not recorded), async-copy/cancel-writer (required optional probe: no gate)"
    );
}

#[test]
fn core_skip_and_duplicate_are_both_retained() {
    let mut report = ContractReport::new();
    report.expect(ContractCheckId::WriteBasic);
    report.record(ContractCheckId::WriteBasic, None, ContractCheckOutcome::Passed);
    report.record(
        ContractCheckId::WriteBasic,
        None,
        ContractCheckOutcome::SkippedOptional { reason: "later".to_owned() },
    );
    assert_eq!(
        report.issues(&[]),
        vec![
            "write/basic (core check cannot be skipped as optional)".to_owned(),
            "write/basic (duplicate completion)".to_owned(),
        ]
    );
}

#[test]
fn strict_assertion_lists_every_issue() {
    let mut report = ContractReport::new();
    report.expect(ContractCheckId::ReadBasic);
    report.record(
        ContractCheckId::ReadBasic,
        None,
        ContractCheckOutcome::Failed {
            reason: "bytes differ".to_owned(),
        },
    );
    assert_eq!(
        report.assert_satisfied(),
        Err("[fs-testkit:report/incomplete] unverified checks: read/basic (bytes differ)".to_owned())
    );
    let mut passed = ContractReport::new();
    passed.expect(ContractCheckId::ReadBasic);
    passed.record(ContractCheckId::ReadBasic, None, ContractCheckOutcome::Passed);
    assert_eq!(passed.assert_satisfied(), Ok(()));
    assert_eq!(
        passed.assert_satisfied_with(&[ContractCheckId::WriteBasic]),
        Err("[fs-testkit:report/incomplete] unverified checks: write/basic (requested probe is outside this run)"
            .to_owned())
    );
}
