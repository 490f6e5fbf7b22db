use qubit_fs_testkit::ContractCheckId;
use qubit_fs_testkit::ContractCheckOutcome;
use qubit_fs_testkit::ContractContext;
use qubit_fs_testkit::FileSystemCapability;
use qubit_fs_testkit::FileSystemContract;
use qubit_fs_testkit::fs_facts::ErrorFacts;
use qubit_fs_testkit::fs_facts::ErrorKind;
use qubit_fs_testkit::fs_facts::OperationKind;
use qubit_fs_testkit::fs_facts::SeedOutcome;
use qubit_fs_testkit::read_options_probe::ConditionalSupport;
use qubit_fs_testkit::read_options_probe::ReadEvent;
use qubit_fs_testkit::read_options_probe::ReadOptionsProbe;
use qubit_fs_testkit::read_options_probe::ReadRequest;
use qubit_fs_testkit::read_options_probe::ReadRequestOptions;
use qubit_fs_testkit::read_options_probe::StaleAnswer;

fn read_phase() -> ContractContext {
    let mut ctx = ContractContext::new(true, true);
    ctx.prepare_phase(FileSystemContract::Read, true);
    ctx.begin("read");
    ctx
}

fn step(probe: &mut ReadOptionsProbe, ctx: &mut ContractContext, event: ReadEvent) -> ReadRequest {
    assert!(probe.expects(&event));
    probe.advance(ctx, event)
}

fn recorded(ctx: &ContractContext, id: ContractCheckId) -> Option<ContractCheckOutcome> {
    ctx.report()
        .checks()
        .iter()
        .find(|check| check.check_id() == id)
        .map(|check| check.outcome().clone())
}

fn options(offset: Option<u64>, length: Option<u64>) -> ReadRequestOptions {
    ReadRequestOptions {
        offset,
        length,
        if_match: None,
        if_none_match: None,
        checksum: false,
    }
}

fn refusal(kind: ErrorKind, path: &str, capability: Option<FileSystemCapability>) -> ErrorFacts {
    ErrorFacts {
        kind,
        operation: OperationKind::OpenReader,
        path: Some(path.into()),
        target: None,
        provider: Some("memory".into()),
        required_capability: capability,
    }
}

#[test]
fn advertised_options_walk_every_read_check() {
    let mut ctx = read_phase();
    let (mut probe, first) =
        ReadOptionsProbe::new("/r".into(), true, Some(8), 100, true, true, "memory".into());
    assert_eq!(
        first,
        ReadRequest::ReadAll {
            path: "/r".into(),
            options: options(Some(0), Some(5))
        }
    );
    assert_eq!(
        step(&mut probe, &mut ctx, ReadEvent::ReadAll(Ok(b"async".to_vec()))),
        ReadRequest::OpenReader {
            path: "/r".into(),
            options: options(None, Some(8))
        }
    );
    assert_eq!(
        step(&mut probe, &mut ctx, ReadEvent::Opened(Ok(()))),
        ReadRequest::OpenReader {
            path: "/r".into(),
            options: options(None, Some(9))
        }
    );
    assert_eq!(
        step(
            &mut probe,
            &mut ctx,
            ReadEvent::Opened(Err(refusal(ErrorKind::ResourceLimitExceeded, "/r", None)))
        ),
        ReadRequest::ConditionalSupport { path: "/r".into() }
    );
    let support = ConditionalSupport::Known {
        if_match: true,
        if_none_match: true,
        version: Some("v2".into()),
    };
    assert_eq!(
        step(&mut probe, &mut ctx, ReadEvent::Support(support)),
        ReadRequest::ReadAll {
            path: "/r".into(),
            options: ReadRequestOptions {
                if_match: Some("v2".into()),
                ..options(None, None)
            }
        }
    );
    assert_eq!(
        step(&mut probe, &mut ctx, ReadEvent::ReadAll(Ok(b"async bytes".to_vec()))),
        ReadRequest::StaleVersion { path: "/r".into() }
    );
    assert_eq!(
        step(&mut probe, &mut ctx, ReadEvent::Stale(StaleAnswer::Observed("v1".into()))),
        ReadRequest::OpenReader {
            path: "/r".into(),
            options: ReadRequestOptions {
                if_match: Some("v1".into()),
                ..options(None, None)
            }
        }
    );
    assert_eq!(
        step(
            &mut probe,
            &mut ctx,
            ReadEvent::Opened(Err(refusal(ErrorKind::PreconditionFailed, "/r", None)))
        ),
        ReadRequest::OpenReader {
            path: "/r".into(),
            options: ReadRequestOptions {
                if_none_match: Some("v2".into()),
                ..options(None, None)
            }
        }
    );
    assert_eq!(
        step(
            &mut probe,
            &mut ctx,
            ReadEvent::Opened(Err(refusal(ErrorKind::PreconditionFailed, "/r", None)))
        ),
        ReadRequest::StaleVersion { path: "/r".into() }
    );
    assert_eq!(
        step(&mut probe, &mut ctx, ReadEvent::Stale(StaleAnswer::Observed("v1".into()))),
        ReadRequest::ReadAll {
            path: "/r".into(),
            options: ReadRequestOptions {
                if_none_match: Some("v1".into()),
                ..options(None, None)
            }
        }
    );
    assert_eq!(
        step(&mut probe, &mut ctx, ReadEvent::ReadAll(Ok(b"async bytes".to_vec()))),
        ReadRequest::ReadAll {
            path: "/r".into(),
            options: ReadRequestOptions {
                checksum: true,
                ..options(None, None)
            }
        }
    );
    assert_eq!(
        step(&mut probe, &mut ctx, ReadEvent::ReadAll(Ok(b"async bytes".to_vec()))),
        ReadRequest::ChecksumFailureCase {
            name: "read-1-async-checksum-failure".into()
        }
    );
    assert_eq!(
        step(&mut probe, &mut ctx, ReadEvent::FailureCase(SeedOutcome::Supported("/bad".into()))),
        ReadRequest::ReadAll {
            path: "/bad".into(),
            options: ReadRequestOptions {
                checksum: true,
                ..options(None, None)
            }
        }
    );
    assert_eq!(
        step(
            &mut probe,
            &mut ctx,
            ReadEvent::ReadAll(Err(refusal(ErrorKind::DataCorruption, "/bad", None)))
        ),
        ReadRequest::Finish
    );
    for id in [
        ContractCheckId::ReadRange,
        ContractCheckId::ReadRangeLimit,
        ContractCheckId::ReadIfMatchCurrent,
        ContractCheckId::ReadIfNoneMatchStale,
        ContractCheckId::ReadChecksum,
        ContractCheckId::ReadChecksumCorruption,
    ] {
        assert_eq!(recorded(&ctx, id), Some(ContractCheckOutcome::Passed));
    }
    assert_eq!(
        recorded(&ctx, ContractCheckId::ReadIfMatchStale),
        Some(ContractCheckOutcome::RejectedAsExpected)
    );
}

#[test]
fn unadvertised_options_must_be_refused_as_unmet_requirements() {
    let mut ctx = read_phase();
    let (mut probe, first) = ReadOptionsProbe::new("/r".into(), false, None, 100, false, false, "memory".into());
    assert_eq!(
        first,
        ReadRequest::OpenReader {
            path: "/r".into(),
            options: options(Some(0), Some(5))
        }
    );
    let range = refusal(ErrorKind::RequirementNotMet, "/r", Some(FileSystemCapability::RangeRead));
    assert_eq!(
        step(&mut probe, &mut ctx, ReadEvent::Opened(Err(range))),
        ReadRequest::OpenReader {
            path: "/r".into(),
            options: ReadRequestOptions {
                if_match: Some("contract-version".into()),
                ..options(None, None)
            }
        }
    );
    let conditional = refusal(ErrorKind::RequirementNotMet, "/r", Some(FileSystemCapability::ConditionalRead));
    assert_eq!(
        step(&mut probe, &mut ctx, ReadEvent::Opened(Err(conditional))),
        ReadRequest::OpenReader {
            path: "/r".into(),
            options: ReadRequestOptions {
                checksum: true,
                ..options(None, None)
            }
        }
    );
    assert_eq!(
        step(&mut probe, &mut ctx, ReadEvent::Opened(Ok(()))),
        ReadRequest::Fail {
            message: "read contract: unadvertised checksum validation succeeded",
            with_error: false
        }
    );
    assert_eq!(
        recorded(&ctx, ContractCheckId::ReadRangeLimit),
        Some(ContractCheckOutcome::NotApplicable {
            reason: "RangeRead capability is unavailable".into()
        })
    );
    assert_eq!(
        recorded(&ctx, ContractCheckId::ReadIfNoneMatchStale),
        Some(ContractCheckOutcome::RejectedAsExpected)
    );
}

#[test]
fn range_read_of_other_bytes_fails() {
    let mut ctx = read_phase();
    let (mut probe, _) = ReadOptionsProbe::new("/r".into(), true, Some(3), 100, false, false, "memory".into());
    assert_eq!(
        step(&mut probe, &mut ctx, ReadEvent::ReadAll(Ok(b"asy".to_vec()))),
        ReadRequest::OpenReader {
            path: "/r".into(),
            options: options(None, Some(3))
        }
    );
    let (mut wrong, _) = ReadOptionsProbe::new("/r".into(), true, None, 100, false, false, "memory".into());
    assert_eq!(
        step(&mut wrong, &mut ctx, ReadEvent::ReadAll(Ok(b"other".to_vec()))),
        ReadRequest::Fail {
            message: "read contract: range mismatch",
            with_error: false
        }
    );
}
