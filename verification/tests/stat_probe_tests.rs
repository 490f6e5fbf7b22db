use qubit_fs_testkit::ContractCheckId;
use qubit_fs_testkit::ContractCheckOutcome;
use qubit_fs_testkit::ContractContext;
use qubit_fs_testkit::FileSystemContract;
use qubit_fs_testkit::fs_facts::ErrorFacts;
use qubit_fs_testkit::fs_facts::ErrorKind;
use qubit_fs_testkit::fs_facts::OperationKind;
use qubit_fs_testkit::fs_facts::SeedOutcome;
use qubit_fs_testkit::stat_probe::StatEvent;
use qubit_fs_testkit::stat_probe::StatFacts;
use qubit_fs_testkit::stat_probe::StatProbe;
use qubit_fs_testkit::stat_probe::StatRequest;

fn stat_context() -> ContractContext {
    let mut ctx = ContractContext::new(true, true);
    ctx.prepare_phase(FileSystemContract::Stat, true);
    ctx
}

fn recorded(ctx: &ContractContext, id: ContractCheckId) -> Option<ContractCheckOutcome> {
    ctx.report()
        .checks()
        .iter()
        .find(|check| check.check_id() == id)
        .map(|check| check.outcome().clone())
}

fn missing(path: &str) -> ErrorFacts {
    ErrorFacts {
        kind: ErrorKind::NotFound,
        operation: OperationKind::Stat,
        path: Some(path.into()),
        target: None,
        provider: Some("memory".into()),
        required_capability: None,
    }
}

#[test]
fn missing_path_is_rejected_with_exact_context() {
    let mut ctx = stat_context();
    let (mut probe, request) = StatProbe::new(&mut ctx, ContractCheckId::StatBasic, "memory".to_owned());
    let StatRequest::ResolvePath { name } = request else {
        panic!("the missing path is resolved first");
    };
    assert!(name.ends_with("-stat-missing"), "{name}");
    let request = probe.advance(&mut ctx, StatEvent::Resolved(Some("/run/missing".to_owned())));
    assert_eq!(request, StatRequest::Stat { path: "/run/missing".to_owned() });
    assert_eq!(probe.advance(&mut ctx, StatEvent::Stat(Err(missing("/run/missing")))), StatRequest::Finish);
    assert_eq!(recorded(&ctx, ContractCheckId::StatBasic), Some(ContractCheckOutcome::RejectedAsExpected));

    let mut ctx = stat_context();
    let (mut probe, _) = StatProbe::new(&mut ctx, ContractCheckId::StatBasic, "memory".to_owned());
    probe.advance(&mut ctx, StatEvent::Resolved(Some("/run/missing".to_owned())));
    assert_eq!(
        probe.advance(&mut ctx, StatEvent::Stat(Err(missing("/run/other")))),
        StatRequest::Fail { message: "stat error context differs", with_error: true }
    );
    let mut ctx = stat_context();
    let (mut probe, _) = StatProbe::new(&mut ctx, ContractCheckId::StatBasic, "memory".to_owned());
    probe.advance(&mut ctx, StatEvent::Resolved(Some("/run/missing".to_owned())));
    assert_eq!(
        probe.advance(&mut ctx, StatEvent::Stat(Ok(StatFacts { file_like: true, len: None }))),
        StatRequest::Fail { message: "stat missing path succeeded", with_error: false }
    );
}

#[test]
fn seeded_file_reports_its_kind_and_length() {
    let mut ctx = stat_context();
    let (mut probe, request) = StatProbe::new(&mut ctx, ContractCheckId::StatFileKind, "memory".to_owned());
    let StatRequest::Seed { name, bytes } = request else {
        panic!("the file is seeded first");
    };
    assert!(name.ends_with("-stat-file"), "{name}");
    assert_eq!(bytes, b"stateful stat");
    let request = probe.advance(&mut ctx, StatEvent::Seeded(SeedOutcome::Supported("/run/file".to_owned())));
    assert_eq!(request, StatRequest::Stat { path: "/run/file".to_owned() });
    assert_eq!(
        probe.advance(&mut ctx, StatEvent::Stat(Ok(StatFacts { file_like: true, len: Some(13) }))),
        StatRequest::Finish
    );
    assert_eq!(recorded(&ctx, ContractCheckId::StatFileKind), Some(ContractCheckOutcome::Passed));

    let mut ctx = stat_context();
    let (mut probe, _) = StatProbe::new(&mut ctx, ContractCheckId::StatFileKind, "memory".to_owned());
    probe.advance(&mut ctx, StatEvent::Seeded(SeedOutcome::Supported("/run/file".to_owned())));
    assert_eq!(
        probe.advance(&mut ctx, StatEvent::Stat(Ok(StatFacts { file_like: true, len: Some(12) }))),
        StatRequest::Fail { message: "stat file length mismatch", with_error: false }
    );
    let mut ctx = stat_context();
    let (mut probe, _) = StatProbe::new(&mut ctx, ContractCheckId::StatFileKind, "memory".to_owned());
    assert_eq!(
        probe.advance(&mut ctx, StatEvent::Seeded(SeedOutcome::Unsupported)),
        StatRequest::Finish
    );
    assert_eq!(
        recorded(&ctx, ContractCheckId::StatFileKind),
        Some(ContractCheckOutcome::Unverified { reason: "fixture cannot seed a stat resource".to_owned() })
    );
}

#[test]
fn other_checks_are_refused() {
    let mut ctx = stat_context();
    let (_, request) = StatProbe::new(&mut ctx, ContractCheckId::ReadBasic, "memory".to_owned());
    assert_eq!(
        request,
        StatRequest::Fail { message: "selected entry is not a metadata check", with_error: false }
    );
}
