use qubit_fs_testkit::ContractCheckId;
use qubit_fs_testkit::ContractCheckOutcome;
use qubit_fs_testkit::ContractContext;
use qubit_fs_testkit::FileSystemCapability;
use qubit_fs_testkit::FileSystemContract;
use qubit_fs_testkit::fs_facts::ErrorFacts;
use qubit_fs_testkit::fs_facts::ErrorKind;
use qubit_fs_testkit::fs_facts::OperationKind;
use qubit_fs_testkit::read_basic_probe::ReadBasicProbe;
use qubit_fs_testkit::read_basic_probe::ReadEvent;
use qubit_fs_testkit::read_basic_probe::ReadRequest;
use qubit_fs_testkit::fs_facts::SeedOutcome;

fn read_context() -> ContractContext {
    let mut ctx = ContractContext::new(true, true);
    ctx.prepare_phase(FileSystemContract::Read, true);
    ctx
}

fn step(probe: &mut ReadBasicProbe, ctx: &mut ContractContext, event: ReadEvent) -> ReadRequest {
    assert!(probe.expects(&event));
    probe.advance(ctx, event)
}

fn recorded(ctx: &ContractContext, id: ContractCheckId) -> Option<ContractCheckOutcome> {
    ctx.report()
        .checks()
        .iter()
        .find(|check| check.check_id() == id)
        .map(|check| check.outcome().clone())
}

fn error(kind: ErrorKind, operation: OperationKind, path: &str, capability: Option<FileSystemCapability>) -> ErrorFacts {
    ErrorFacts {
        kind,
        operation,
        path: Some(path.into()),
        target: None,
        provider: Some("memory".into()),
        required_capability: capability,
    }
}

#[test]
fn seeded_read_passes_and_hands_the_file_on() {
    let mut ctx = read_context();
    let (mut probe, request) = ReadBasicProbe::new(&mut ctx, true, "memory".to_owned());
    assert_eq!(
        request,
        ReadRequest::Seed {
            name: "async-read",
            bytes: b"async bytes"
        }
    );
    let request = step(&mut probe, &mut ctx, ReadEvent::Seeded(SeedOutcome::Supported("/run/read".to_owned())));
    assert_eq!(
        request,
        ReadRequest::ReadAll {
            path: "/run/read".to_owned(),
            limit: 64
        }
    );
    assert_eq!(ctx.resource_count(), 1);
    let request = step(&mut probe, &mut ctx, ReadEvent::ReadAll(Ok(b"async bytes".to_vec())));
    assert_eq!(
        request,
        ReadRequest::ReadAll {
            path: "/run/read".to_owned(),
            limit: 4
        }
    );
    let refused = error(ErrorKind::ResourceLimitExceeded, OperationKind::Read, "/run/read", None);
    let request = step(&mut probe, &mut ctx, ReadEvent::ReadAll(Err(refused)));
    assert_eq!(
        request,
        ReadRequest::ReadOptions {
            path: "/run/read".to_owned()
        }
    );
    assert_eq!(recorded(&ctx, ContractCheckId::ReadBasic), Some(ContractCheckOutcome::Passed));
}

#[test]
fn ignored_read_limit_and_wrong_bytes_fail() {
    let mut ctx = read_context();
    let (mut probe, _) = ReadBasicProbe::new(&mut ctx, true, "memory".to_owned());
    step(&mut probe, &mut ctx, ReadEvent::Seeded(SeedOutcome::Supported("/run/read".to_owned())));
    step(&mut probe, &mut ctx, ReadEvent::ReadAll(Ok(b"async bytes".to_vec())));
    let request = step(&mut probe, &mut ctx, ReadEvent::ReadAll(Ok(b"asyn".to_vec())));
    assert_eq!(
        request,
        ReadRequest::Fail {
            message: "read contract: caller byte limit was ignored",
            with_error: false
        }
    );
    let mut ctx = read_context();
    let (mut probe, _) = ReadBasicProbe::new(&mut ctx, true, "memory".to_owned());
    step(&mut probe, &mut ctx, ReadEvent::Seeded(SeedOutcome::Supported("/run/read".to_owned())));
    let request = step(&mut probe, &mut ctx, ReadEvent::ReadAll(Ok(b"other bytes".to_vec())));
    assert_eq!(
        request,
        ReadRequest::Fail {
            message: "read/basic: seeded bytes mismatch",
            with_error: false
        }
    );
    let mut ctx = read_context();
    let (mut probe, _) = ReadBasicProbe::new(&mut ctx, true, "memory".to_owned());
    let request = step(&mut probe, &mut ctx, ReadEvent::Seeded(SeedOutcome::Unsupported));
    assert_eq!(
        request,
        ReadRequest::Fail {
            message: "read contract: advertised capability requires fixture.seed_file support",
            with_error: false
        }
    );
}

#[test]
fn unavailable_read_is_refused_and_reader_checks_do_not_apply() {
    let mut ctx = read_context();
    let (mut probe, request) = ReadBasicProbe::new(&mut ctx, false, "memory".to_owned());
    let ReadRequest::ResolvePath { name } = request else {
        panic!("the rejected path is resolved first");
    };
    assert!(name.ends_with("-async-read-unavailable"), "{name}");
    let request = step(&mut probe, &mut ctx, ReadEvent::Resolved(Some("/run/none".to_owned())));
    assert_eq!(
        request,
        ReadRequest::OpenRejectedReader {
            path: "/run/none".to_owned()
        }
    );
    let refused = error(
        ErrorKind::UnsupportedCapability,
        OperationKind::OpenReader,
        "/run/none",
        Some(FileSystemCapability::Read),
    );
    assert_eq!(step(&mut probe, &mut ctx, ReadEvent::Opened(Some(refused))), ReadRequest::Finish);
    assert_eq!(
        recorded(&ctx, ContractCheckId::ReadBasic),
        Some(ContractCheckOutcome::RejectedAsExpected)
    );
    assert_eq!(
        recorded(&ctx, ContractCheckId::ReadChecksumCorruption),
        Some(ContractCheckOutcome::NotApplicable {
            reason: "Read capability is unavailable".to_owned()
        })
    );
    assert!(ctx.report().requirements_satisfied());

    let mut ctx = read_context();
    let (mut probe, _) = ReadBasicProbe::new(&mut ctx, false, "memory".to_owned());
    step(&mut probe, &mut ctx, ReadEvent::Resolved(Some("/run/none".to_owned())));
    let vague = error(ErrorKind::UnsupportedCapability, OperationKind::OpenReader, "/run/none", None);
    assert_eq!(
        step(&mut probe, &mut ctx, ReadEvent::Opened(Some(vague))),
        ReadRequest::Fail {
            message: "read contract: missing required-capability context",
            with_error: true
        }
    );
}
