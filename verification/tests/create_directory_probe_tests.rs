use qubit_fs_testkit::ContractCheckId;
use qubit_fs_testkit::ContractCheckOutcome;
use qubit_fs_testkit::ContractContext;
use qubit_fs_testkit::FileSystemContract;
use qubit_fs_testkit::create_directory_probe::CreateDirectoryProbe;
use qubit_fs_testkit::create_directory_probe::CreatedFacts;
use qubit_fs_testkit::create_directory_probe::DirectoryEvent;
use qubit_fs_testkit::create_directory_probe::DirectoryRequest;
use qubit_fs_testkit::fs_facts::ErrorFacts;
use qubit_fs_testkit::fs_facts::ErrorKind;
use qubit_fs_testkit::fs_facts::OperationKind;

fn directory_context() -> ContractContext {
    let mut ctx = ContractContext::new(true, true);
    ctx.prepare_phase(FileSystemContract::CreateDirectory, true);
    ctx
}

fn recorded(ctx: &ContractContext, id: ContractCheckId) -> Option<ContractCheckOutcome> {
    ctx.report()
        .checks()
        .iter()
        .find(|check| check.check_id() == id)
        .map(|check| check.outcome().clone())
}

fn created(already_existed: bool, created_ancestors: Option<u64>) -> DirectoryEvent {
    DirectoryEvent::Created(Ok(CreatedFacts {
        already_existed,
        created_ancestors,
    }))
}

#[test]
fn advertised_creation_walks_every_step() {
    let mut ctx = directory_context();
    let (mut probe, request) = CreateDirectoryProbe::new(&mut ctx, true, "memory".to_owned());
    let DirectoryRequest::ResolvePath { name } = request else {
        panic!("the directory's path is resolved first");
    };
    assert!(name.ends_with("-async-created-directory"), "{name}");
    let request = probe.advance(&mut ctx, DirectoryEvent::Resolved(Some("/d".to_owned())));
    assert_eq!(
        request,
        DirectoryRequest::CreateDirectory {
            path: "/d".to_owned(),
            exists_ok: false,
            recursive: false
        }
    );
    assert_eq!(probe.advance(&mut ctx, created(false, None)), DirectoryRequest::Stat { path: "/d".to_owned() });
    assert_eq!(
        probe.advance(&mut ctx, DirectoryEvent::Stat(Ok(true))),
        DirectoryRequest::CreateDirectory {
            path: "/d".to_owned(),
            exists_ok: true,
            recursive: false
        }
    );
    let DirectoryRequest::ResolvePath { name } = probe.advance(&mut ctx, created(true, None)) else {
        panic!("the recursive parent is resolved next");
    };
    assert!(name.ends_with("-async-created-recursive-parent"), "{name}");
    probe.advance(&mut ctx, DirectoryEvent::Resolved(Some("/p".to_owned())));
    assert_eq!(
        probe.advance(&mut ctx, DirectoryEvent::Resolved(Some("/p/child".to_owned()))),
        DirectoryRequest::CreateDirectory {
            path: "/p/child".to_owned(),
            exists_ok: false,
            recursive: true
        }
    );
    assert_eq!(probe.advance(&mut ctx, created(false, Some(1))), DirectoryRequest::Finish);
    assert_eq!(recorded(&ctx, ContractCheckId::DirectoryCreate), Some(ContractCheckOutcome::Passed));
    assert_eq!(recorded(&ctx, ContractCheckId::DirectoryRecursive), Some(ContractCheckOutcome::Passed));
    assert_eq!(ctx.resource_count(), 3);
}

#[test]
fn missing_existence_report_fails() {
    let mut ctx = directory_context();
    let (mut probe, _) = CreateDirectoryProbe::new(&mut ctx, true, "memory".to_owned());
    probe.advance(&mut ctx, DirectoryEvent::Resolved(Some("/d".to_owned())));
    probe.advance(&mut ctx, created(false, None));
    probe.advance(&mut ctx, DirectoryEvent::Stat(Ok(true)));
    assert_eq!(
        probe.advance(&mut ctx, created(false, None)),
        DirectoryRequest::Fail {
            message: "create-directory contract: existing directory outcome was not reported",
            with_error: false
        }
    );
}

#[test]
fn unadvertised_creation_must_be_refused_exactly() {
    let mut ctx = directory_context();
    let (mut probe, _) = CreateDirectoryProbe::new(&mut ctx, false, "memory".to_owned());
    probe.advance(&mut ctx, DirectoryEvent::Resolved(Some("/d".to_owned())));
    let refused = ErrorFacts {
        kind: ErrorKind::UnsupportedCapability,
        operation: OperationKind::CreateDir,
        path: Some("/d".into()),
        target: None,
        provider: Some("memory".into()),
        required_capability: None,
    };
    assert_eq!(probe.advance(&mut ctx, DirectoryEvent::Created(Err(refused))), DirectoryRequest::Finish);
    assert_eq!(
        recorded(&ctx, ContractCheckId::DirectoryRecursive),
        Some(ContractCheckOutcome::RejectedAsExpected)
    );
    assert_eq!(ctx.resource_count(), 0);
}
