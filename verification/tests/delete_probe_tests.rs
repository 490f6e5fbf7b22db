use qubit_fs_testkit::ContractCheckId;
use qubit_fs_testkit::ContractCheckOutcome;
use qubit_fs_testkit::ContractContext;
use qubit_fs_testkit::FileSystemCapability;
use qubit_fs_testkit::FileSystemContract;
use qubit_fs_testkit::delete_probe::DeleteEvent;
use qubit_fs_testkit::delete_probe::DeleteFacts;
use qubit_fs_testkit::delete_probe::DeletePreparation;
use qubit_fs_testkit::delete_probe::DeleteProbe;
use qubit_fs_testkit::delete_probe::DeleteRequest;
use qubit_fs_testkit::delete_probe::VersionAnswer;
use qubit_fs_testkit::fs_facts::Contents;
use qubit_fs_testkit::fs_facts::ErrorFacts;
use qubit_fs_testkit::fs_facts::ErrorKind;
use qubit_fs_testkit::fs_facts::OperationKind;
use qubit_fs_testkit::fs_facts::Presence;

fn deletion_phase() -> ContractContext {
    let mut ctx = ContractContext::new(true, true);
    ctx.prepare_phase(FileSystemContract::Delete, true);
    ctx
}

fn advance(probe: &mut DeleteProbe, ctx: &mut ContractContext, event: DeleteEvent) -> DeleteRequest {
    assert!(probe.expects(&event));
    probe.advance(ctx, event)
}

fn recorded(ctx: &ContractContext, id: ContractCheckId) -> Option<ContractCheckOutcome> {
    ctx.report()
        .checks()
        .iter()
        .find(|check| check.check_id() == id)
        .map(|check| check.outcome().clone())
}

fn evidence() -> Contents {
    Contents::Bytes(b"delete evidence".to_vec())
}

fn removed() -> DeleteFacts {
    DeleteFacts {
        already_missing: false,
        deleted_entries: Some(1),
    }
}

fn refusal(kind: ErrorKind, capability: Option<FileSystemCapability>) -> ErrorFacts {
    ErrorFacts {
        kind,
        operation: OperationKind::Delete,
        path: Some("/d".into()),
        target: None,
        provider: Some("memory".into()),
        required_capability: capability,
    }
}

#[test]
fn basic_delete_removes_the_prepared_file() {
    let mut ctx = deletion_phase();
    let (mut probe, first) = DeleteProbe::new(&mut ctx, ContractCheckId::DeleteBasic, true, false, "memory".into());
    assert_eq!(
        first,
        DeleteRequest::PrepareDelete {
            name: "delete-basic-1-delete-target".into(),
            contents: "delete evidence"
        }
    );
    assert_eq!(
        advance(&mut probe, &mut ctx, DeleteEvent::Prepared(DeletePreparation::Ready("/d".into()))),
        DeleteRequest::Read { path: "/d".into() }
    );
    assert_eq!(
        advance(&mut probe, &mut ctx, DeleteEvent::Read(evidence())),
        DeleteRequest::DeleteFile {
            path: "/d".into(),
            missing_ok: false,
            if_match: None
        }
    );
    assert_eq!(
        advance(&mut probe, &mut ctx, DeleteEvent::Deleted(Ok(removed()))),
        DeleteRequest::Observe { path: "/d".into() }
    );
    assert_eq!(
        advance(&mut probe, &mut ctx, DeleteEvent::Observed(Presence::Present(false))),
        DeleteRequest::Finish
    );
    assert_eq!(recorded(&ctx, ContractCheckId::DeleteBasic), Some(ContractCheckOutcome::Passed));
    assert_eq!(ctx.resource_count(), 1);
}

#[test]
fn conditional_delete_refuses_a_stale_version_first() {
    let mut ctx = deletion_phase();
    let (mut probe, _) = DeleteProbe::new(&mut ctx, ContractCheckId::DeleteIfMatch, true, true, "memory".into());
    advance(&mut probe, &mut ctx, DeleteEvent::Prepared(DeletePreparation::Ready("/d".into())));
    assert_eq!(
        advance(&mut probe, &mut ctx, DeleteEvent::Read(evidence())),
        DeleteRequest::ObserveVersions { path: "/d".into() }
    );
    let versions = VersionAnswer::Observed {
        current: "v2".into(),
        stale: "v1".into(),
    };
    assert_eq!(
        advance(&mut probe, &mut ctx, DeleteEvent::Versions(versions)),
        DeleteRequest::DeleteFile {
            path: "/d".into(),
            missing_ok: false,
            if_match: Some("v1".into())
        }
    );
    assert_eq!(
        advance(
            &mut probe,
            &mut ctx,
            DeleteEvent::Deleted(Err(refusal(ErrorKind::PreconditionFailed, None)))
        ),
        DeleteRequest::Read { path: "/d".into() }
    );
    assert_eq!(
        advance(&mut probe, &mut ctx, DeleteEvent::Read(evidence())),
        DeleteRequest::DeleteFile {
            path: "/d".into(),
            missing_ok: false,
            if_match: Some("v2".into())
        }
    );
    advance(&mut probe, &mut ctx, DeleteEvent::Deleted(Ok(removed())));
    advance(&mut probe, &mut ctx, DeleteEvent::Observed(Presence::Present(false)));
    assert_eq!(recorded(&ctx, ContractCheckId::DeleteIfMatch), Some(ContractCheckOutcome::Passed));
}

#[test]
fn stale_conditional_delete_that_succeeds_fails() {
    let mut ctx = deletion_phase();
    let (mut probe, _) = DeleteProbe::new(&mut ctx, ContractCheckId::DeleteIfMatch, true, true, "memory".into());
    advance(&mut probe, &mut ctx, DeleteEvent::Prepared(DeletePreparation::Ready("/d".into())));
    advance(&mut probe, &mut ctx, DeleteEvent::Read(evidence()));
    let same = VersionAnswer::Observed {
        current: "v".into(),
        stale: "v".into(),
    };
    assert_eq!(
        advance(&mut probe, &mut ctx, DeleteEvent::Versions(same)),
        DeleteRequest::Fail {
            message: "stale delete version equals the current version",
            with_error: false
        }
    );
    let (mut again, _) = DeleteProbe::new(&mut ctx, ContractCheckId::DeleteIfMatch, true, true, "memory".into());
    advance(&mut again, &mut ctx, DeleteEvent::Prepared(DeletePreparation::Ready("/d".into())));
    advance(&mut again, &mut ctx, DeleteEvent::Read(evidence()));
    let versions = VersionAnswer::Observed {
        current: "v2".into(),
        stale: "v1".into(),
    };
    advance(&mut again, &mut ctx, DeleteEvent::Versions(versions));
    assert_eq!(
        advance(&mut again, &mut ctx, DeleteEvent::Deleted(Ok(removed()))),
        DeleteRequest::Fail {
            message: "delete/if-match: stale version was accepted",
            with_error: false
        }
    );
}

#[test]
fn missing_ok_delete_reports_absence_and_creates_nothing() {
    let mut ctx = deletion_phase();
    let (mut probe, first) =
        DeleteProbe::new(&mut ctx, ContractCheckId::DeleteMissingOk, true, false, "memory".into());
    assert_eq!(
        first,
        DeleteRequest::ResolvePath {
            name: "delete-missing-ok-1-delete-target".into()
        }
    );
    assert_eq!(
        advance(&mut probe, &mut ctx, DeleteEvent::Resolved(Some("/d".into()))),
        DeleteRequest::Observe { path: "/d".into() }
    );
    assert_eq!(
        advance(&mut probe, &mut ctx, DeleteEvent::Observed(Presence::Present(false))),
        DeleteRequest::DeleteFile {
            path: "/d".into(),
            missing_ok: true,
            if_match: None
        }
    );
    let absent = DeleteFacts {
        already_missing: true,
        deleted_entries: None,
    };
    assert_eq!(
        advance(&mut probe, &mut ctx, DeleteEvent::Deleted(Ok(absent))),
        DeleteRequest::Observe { path: "/d".into() }
    );
    assert_eq!(
        advance(&mut probe, &mut ctx, DeleteEvent::Observed(Presence::Present(true))),
        DeleteRequest::Fail {
            message: "missing-ok deletion created a resource",
            with_error: false
        }
    );
}

#[test]
fn unavailable_deletions_are_rejected_or_inapplicable() {
    let mut ctx = deletion_phase();
    let (mut probe, first) = DeleteProbe::new(&mut ctx, ContractCheckId::DeleteBasic, false, false, "memory".into());
    assert_eq!(
        first,
        DeleteRequest::ResolvePath {
            name: "delete-basic-1-delete-target".into()
        }
    );
    advance(&mut probe, &mut ctx, DeleteEvent::Resolved(Some("/d".into())));
    let rejected = refusal(ErrorKind::UnsupportedCapability, Some(FileSystemCapability::Delete));
    assert_eq!(
        advance(&mut probe, &mut ctx, DeleteEvent::Deleted(Err(rejected))),
        DeleteRequest::Finish
    );
    assert_eq!(
        recorded(&ctx, ContractCheckId::DeleteBasic),
        Some(ContractCheckOutcome::RejectedAsExpected)
    );
    let (_, request) = DeleteProbe::new(&mut ctx, ContractCheckId::DeleteMissingOk, false, false, "memory".into());
    assert_eq!(request, DeleteRequest::Finish);
    assert_eq!(
        recorded(&ctx, ContractCheckId::DeleteMissingOk),
        Some(ContractCheckOutcome::NotApplicable {
            reason: "Delete capability is unavailable".into()
        })
    );
    let (mut conditional, _) =
        DeleteProbe::new(&mut ctx, ContractCheckId::DeleteIfMatch, true, false, "memory".into());
    assert_eq!(
        advance(&mut conditional, &mut ctx, DeleteEvent::Resolved(Some("/d".into()))),
        DeleteRequest::DeleteFile {
            path: "/d".into(),
            missing_ok: false,
            if_match: Some("contract-version".into())
        }
    );
    let wrong = refusal(ErrorKind::UnsupportedCapability, Some(FileSystemCapability::ConditionalDelete));
    assert_eq!(
        advance(&mut conditional, &mut ctx, DeleteEvent::Deleted(Err(wrong))),
        DeleteRequest::Fail {
            message: "delete error context differs",
            with_error: true
        }
    );
}
