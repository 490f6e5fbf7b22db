use qubit_fs_testkit::ContractCheckId;
use qubit_fs_testkit::ContractCheckOutcome;
use qubit_fs_testkit::ContractContext;
use qubit_fs_testkit::FileSystemCapability;
use qubit_fs_testkit::FileSystemContract;
use qubit_fs_testkit::fs_facts::Contents;
use qubit_fs_testkit::fs_facts::ErrorFacts;
use qubit_fs_testkit::fs_facts::ErrorKind;
use qubit_fs_testkit::fs_facts::OpenRejection;
use qubit_fs_testkit::fs_facts::OpenStage;
use qubit_fs_testkit::fs_facts::OperationKind;
use qubit_fs_testkit::write_basic_probe::WriteAnswer;
use qubit_fs_testkit::write_basic_probe::WriteBasicProbe;
use qubit_fs_testkit::write_basic_probe::WriteEvent;
use qubit_fs_testkit::write_basic_probe::WritePreparation;
use qubit_fs_testkit::write_basic_probe::WriteRequest;
use qubit_fs_testkit::write_basic_probe::bounded_payload;

fn write_phase() -> ContractContext {
    let mut ctx = ContractContext::new(true, true);
    ctx.prepare_phase(FileSystemContract::Write, true);
    ctx
}

fn answer(probe: &mut WriteBasicProbe, ctx: &mut ContractContext, event: WriteEvent) -> WriteRequest {
    assert!(probe.expects(&event));
    probe.advance(ctx, event)
}

fn write_outcome(ctx: &ContractContext) -> Option<ContractCheckOutcome> {
    ctx.report()
        .checks()
        .iter()
        .find(|check| check.check_id() == ContractCheckId::WriteBasic)
        .map(|check| check.outcome().clone())
}

#[test]
fn payload_fits_the_declared_limit() {
    assert_eq!(bounded_payload(None, b"async written", b'a'), b"async written".to_vec());
    assert_eq!(bounded_payload(Some(100), b"async written", b'a'), b"async written".to_vec());
    assert_eq!(bounded_payload(Some(13), b"async written", b'a'), b"async written".to_vec());
    assert_eq!(bounded_payload(Some(4), b"async written", b'a'), b"aaaa".to_vec());
    assert_eq!(bounded_payload(Some(0), b"async written", b'a'), Vec::<u8>::new());
}

#[test]
fn basic_write_publishes_the_payload() {
    let mut ctx = write_phase();
    let (mut probe, first) = WriteBasicProbe::new(&mut ctx, true, None, "memory".into());
    assert_eq!(
        first,
        WriteRequest::PrepareWrite {
            name: "write-basic-1-write-create".into(),
            bytes: b"async written".to_vec()
        }
    );
    let ready = WritePreparation::Ready {
        path: "/w".into(),
        bytes: b"async written".to_vec(),
        creates: true,
    };
    assert_eq!(
        answer(&mut probe, &mut ctx, WriteEvent::Prepared(ready)),
        WriteRequest::WriteFile {
            path: "/w".into(),
            bytes: b"async written".to_vec()
        }
    );
    assert_eq!(
        answer(&mut probe, &mut ctx, WriteEvent::Written(WriteAnswer::Committed(Some(13)))),
        WriteRequest::Read { path: "/w".into() }
    );
    assert_eq!(
        answer(&mut probe, &mut ctx, WriteEvent::Read(Contents::Bytes(b"async written".to_vec()))),
        WriteRequest::Finish
    );
    assert_eq!(write_outcome(&ctx), Some(ContractCheckOutcome::Passed));
    assert_eq!(ctx.resource_count(), 1);
}

#[test]
fn basic_write_under_a_small_limit_sends_filler() {
    let mut ctx = write_phase();
    let (mut probe, first) = WriteBasicProbe::new(&mut ctx, true, Some(3), "memory".into());
    assert_eq!(
        first,
        WriteRequest::PrepareWrite {
            name: "write-basic-1-write-create".into(),
            bytes: b"aaa".to_vec()
        }
    );
    let changed = WritePreparation::Ready {
        path: "/w".into(),
        bytes: b"async written".to_vec(),
        creates: true,
    };
    assert_eq!(
        answer(&mut probe, &mut ctx, WriteEvent::Prepared(changed)),
        WriteRequest::Fail {
            message: "write/basic: fixture changed the requested creation semantics",
            with_error: false
        }
    );
}

#[test]
fn basic_write_failures_carry_their_diagnostics() {
    let mut ctx = write_phase();
    let (mut probe, _) = WriteBasicProbe::new(&mut ctx, true, None, "memory".into());
    let ready = WritePreparation::Ready {
        path: "/w".into(),
        bytes: b"async written".to_vec(),
        creates: true,
    };
    answer(&mut probe, &mut ctx, WriteEvent::Prepared(ready));
    assert_eq!(
        answer(&mut probe, &mut ctx, WriteEvent::Written(WriteAnswer::Committed(Some(12)))),
        WriteRequest::Fail {
            message: "write/basic: published byte count mismatch",
            with_error: false
        }
    );
    let (mut unpublished, _) = WriteBasicProbe::new(&mut ctx, true, None, "memory".into());
    let ready = WritePreparation::Ready {
        path: "/w".into(),
        bytes: b"async written".to_vec(),
        creates: true,
    };
    answer(&mut unpublished, &mut ctx, WriteEvent::Prepared(ready));
    answer(&mut unpublished, &mut ctx, WriteEvent::Written(WriteAnswer::Committed(None)));
    assert_eq!(
        answer(&mut unpublished, &mut ctx, WriteEvent::Read(Contents::Unsupported)),
        WriteRequest::Fail {
            message: "write/basic: fixture.read_file support is required",
            with_error: false
        }
    );
    let (mut skipped, _) = WriteBasicProbe::new(&mut ctx, true, None, "memory".into());
    assert_eq!(
        answer(
            &mut skipped,
            &mut ctx,
            WriteEvent::Prepared(WritePreparation::Unavailable("no seed".into()))
        ),
        WriteRequest::Finish
    );
    assert_eq!(
        write_outcome(&ctx),
        Some(ContractCheckOutcome::Unverified {
            reason: "declared Write requires a positive scenario: no seed".into()
        })
    );
}

#[test]
fn unavailable_write_expects_a_preflight_refusal() {
    let mut ctx = write_phase();
    let (mut probe, first) = WriteBasicProbe::new(&mut ctx, false, None, "memory".into());
    assert_eq!(
        first,
        WriteRequest::ResolvePath {
            name: "write-basic-1-write-unavailable".into()
        }
    );
    assert_eq!(
        answer(&mut probe, &mut ctx, WriteEvent::Resolved(Some("/w".into()))),
        WriteRequest::OpenRejectedWriter { path: "/w".into() }
    );
    let rejection = OpenRejection {
        error: ErrorFacts {
            kind: ErrorKind::UnsupportedCapability,
            operation: OperationKind::OpenWriter,
            path: Some("/w".into()),
            target: None,
            provider: Some("memory".into()),
            required_capability: Some(FileSystemCapability::Write),
        },
        stage: OpenStage::Preflight,
        recovery: false,
    };
    assert_eq!(
        answer(&mut probe, &mut ctx, WriteEvent::OpenRejected(Some(rejection))),
        WriteRequest::Finish
    );
    assert_eq!(write_outcome(&ctx), Some(ContractCheckOutcome::RejectedAsExpected));
    let (mut opened, _) = WriteBasicProbe::new(&mut ctx, false, None, "memory".into());
    answer(&mut opened, &mut ctx, WriteEvent::Resolved(Some("/w".into())));
    assert_eq!(
        answer(&mut opened, &mut ctx, WriteEvent::OpenRejected(None)),
        WriteRequest::Fail {
            message: "write/basic: unavailable writer opened",
            with_error: false
        }
    );
}

use qubit_fs_testkit::write_if_match_probe::IfMatchEvent;
use qubit_fs_testkit::write_if_match_probe::IfMatchPreparation;
use qubit_fs_testkit::write_if_match_probe::IfMatchRequest;
use qubit_fs_testkit::write_if_match_probe::PublishedVersions;
use qubit_fs_testkit::write_if_match_probe::VersionObservation;
use qubit_fs_testkit::write_if_match_probe::WriteIfMatchProbe;

fn if_match(probe: &mut WriteIfMatchProbe, ctx: &mut ContractContext, event: IfMatchEvent) -> IfMatchRequest {
    assert!(probe.expects(&event));
    probe.advance(ctx, event)
}

fn if_match_outcome(ctx: &ContractContext) -> Option<ContractCheckOutcome> {
    ctx.report()
        .checks()
        .iter()
        .find(|check| check.check_id() == ContractCheckId::WriteIfMatch)
        .map(|check| check.outcome().clone())
}

fn precondition_failed() -> ErrorFacts {
    ErrorFacts {
        kind: ErrorKind::PreconditionFailed,
        operation: OperationKind::CommitWriter,
        path: Some("/m".into()),
        target: None,
        provider: Some("memory".into()),
        required_capability: None,
    }
}

#[test]
fn if_match_write_keeps_bytes_against_a_stale_version() {
    let mut ctx = write_phase();
    let (mut probe, first) = WriteIfMatchProbe::new(&mut ctx, true, true, None, "memory".into());
    assert_eq!(
        first,
        IfMatchRequest::PrepareWrite {
            name: "write-if-match-1-write-if-match".into(),
            bytes: b"conditional".to_vec()
        }
    );
    let ready = IfMatchPreparation::Ready {
        path: "/m".into(),
        bytes: b"conditional".to_vec(),
        if_match: Some("v1".into()),
        replaces: true,
    };
    assert_eq!(
        if_match(&mut probe, &mut ctx, IfMatchEvent::Prepared(ready)),
        IfMatchRequest::CurrentVersion { path: "/m".into() }
    );
    assert_eq!(
        if_match(&mut probe, &mut ctx, IfMatchEvent::Current(VersionObservation::Observed("v1".into()))),
        IfMatchRequest::WriteFile {
            path: "/m".into(),
            bytes: b"conditional".to_vec(),
            if_match: "v1".into()
        }
    );
    assert_eq!(
        if_match(&mut probe, &mut ctx, IfMatchEvent::Written(Ok(()))),
        IfMatchRequest::Read { path: "/m".into() }
    );
    assert_eq!(
        if_match(&mut probe, &mut ctx, IfMatchEvent::Read(Contents::Bytes(b"conditional".to_vec()))),
        IfMatchRequest::PublishedVersions { path: "/m".into() }
    );
    let versions = PublishedVersions::Observed {
        stale: "v1".into(),
        published: "v2".into(),
    };
    assert_eq!(
        if_match(&mut probe, &mut ctx, IfMatchEvent::Published(versions)),
        IfMatchRequest::WriteFile {
            path: "/m".into(),
            bytes: b"unexpected".to_vec(),
            if_match: "v1".into()
        }
    );
    assert_eq!(
        if_match(&mut probe, &mut ctx, IfMatchEvent::Written(Err(precondition_failed()))),
        IfMatchRequest::Read { path: "/m".into() }
    );
    assert_eq!(
        if_match(&mut probe, &mut ctx, IfMatchEvent::Read(Contents::Bytes(b"conditional".to_vec()))),
        IfMatchRequest::Finish
    );
    assert_eq!(if_match_outcome(&ctx), Some(ContractCheckOutcome::Passed));
}

#[test]
fn if_match_write_detects_changed_semantics_and_accepted_stale_writes() {
    let mut ctx = write_phase();
    let (mut probe, _) = WriteIfMatchProbe::new(&mut ctx, true, true, None, "memory".into());
    let ready = IfMatchPreparation::Ready {
        path: "/m".into(),
        bytes: b"conditional".to_vec(),
        if_match: Some("v0".into()),
        replaces: true,
    };
    if_match(&mut probe, &mut ctx, IfMatchEvent::Prepared(ready));
    assert_eq!(
        if_match(&mut probe, &mut ctx, IfMatchEvent::Current(VersionObservation::Observed("v1".into()))),
        IfMatchRequest::Fail {
            message: "fixture changed If-Match request semantics",
            with_error: false
        }
    );
    let (mut accepted, _) = WriteIfMatchProbe::new(&mut ctx, true, true, None, "memory".into());
    let ready = IfMatchPreparation::Ready {
        path: "/m".into(),
        bytes: b"conditional".to_vec(),
        if_match: Some("v1".into()),
        replaces: true,
    };
    if_match(&mut accepted, &mut ctx, IfMatchEvent::Prepared(ready));
    if_match(&mut accepted, &mut ctx, IfMatchEvent::Current(VersionObservation::Observed("v1".into())));
    if_match(&mut accepted, &mut ctx, IfMatchEvent::Written(Ok(())));
    if_match(&mut accepted, &mut ctx, IfMatchEvent::Read(Contents::Bytes(b"conditional".to_vec())));
    let versions = PublishedVersions::Observed {
        stale: "v1".into(),
        published: "v2".into(),
    };
    if_match(&mut accepted, &mut ctx, IfMatchEvent::Published(versions));
    assert_eq!(
        if_match(&mut accepted, &mut ctx, IfMatchEvent::Written(Ok(()))),
        IfMatchRequest::Fail {
            message: "write/if-match: stale If-Match succeeded",
            with_error: false
        }
    );
}

#[test]
fn if_match_without_capabilities_is_inapplicable_or_rejected() {
    let mut ctx = write_phase();
    let (_, request) = WriteIfMatchProbe::new(&mut ctx, false, true, None, "memory".into());
    assert_eq!(request, IfMatchRequest::Finish);
    assert_eq!(
        if_match_outcome(&ctx),
        Some(ContractCheckOutcome::NotApplicable {
            reason: "Write capability is unavailable".into()
        })
    );
    let mut ctx = write_phase();
    let (mut probe, _) = WriteIfMatchProbe::new(&mut ctx, true, false, Some(4), "memory".into());
    assert_eq!(
        if_match(&mut probe, &mut ctx, IfMatchEvent::Resolved(Some("/m".into()))),
        IfMatchRequest::OpenRejectedWriter {
            path: "/m".into(),
            if_match: "missing-capability".into()
        }
    );
    let refusal = ErrorFacts {
        kind: ErrorKind::RequirementNotMet,
        operation: OperationKind::OpenWriter,
        path: Some("/m".into()),
        target: None,
        provider: Some("memory".into()),
        required_capability: Some(FileSystemCapability::ConditionalWrite),
    };
    assert_eq!(
        if_match(&mut probe, &mut ctx, IfMatchEvent::OpenRejected(Some(refusal))),
        IfMatchRequest::Finish
    );
    assert_eq!(if_match_outcome(&ctx), Some(ContractCheckOutcome::RejectedAsExpected));
}

use qubit_fs_testkit::owning_write_probe::OwningEvent;
use qubit_fs_testkit::owning_write_probe::OwningPreparation;
use qubit_fs_testkit::owning_write_probe::OwningRequest;
use qubit_fs_testkit::owning_write_probe::OwningWriteProbe;
use qubit_fs_testkit::owning_write_probe::RepeatedWrite;
use qubit_fs_testkit::owning_write_probe::UnpolledWrite;
use qubit_fs_testkit::owning_write_probe::WriteAllFacts;

fn owning(probe: &mut OwningWriteProbe, ctx: &mut ContractContext, event: OwningEvent) -> OwningRequest {
    assert!(probe.expects(&event));
    probe.advance(ctx, event)
}

fn owning_outcome(ctx: &ContractContext, id: ContractCheckId) -> Option<ContractCheckOutcome> {
    ctx.report()
        .checks()
        .iter()
        .find(|check| check.check_id() == id)
        .map(|check| check.outcome().clone())
}

fn owning_through_publication(probe: &mut OwningWriteProbe, ctx: &mut ContractContext) -> OwningRequest {
    let ready = OwningPreparation::Ready {
        path: "/o".into(),
        bytes: b"owning write".to_vec(),
        creates: true,
    };
    assert_eq!(
        owning(probe, ctx, OwningEvent::Prepared(ready)),
        OwningRequest::BeginWriteAll {
            path: "/o".into(),
            bytes: b"owning write".to_vec()
        }
    );
    let unpolled = UnpolledWrite {
        ready: true,
        recovery: false,
    };
    assert_eq!(owning(probe, ctx, OwningEvent::Admitted(Some(unpolled))), OwningRequest::Execute);
    let facts = WriteAllFacts {
        completed: true,
        written: 12,
    };
    assert_eq!(
        owning(probe, ctx, OwningEvent::Executed(Some(facts))),
        OwningRequest::Read { path: "/o".into() }
    );
    owning(probe, ctx, OwningEvent::Read(Contents::Bytes(b"owning write".to_vec())))
}

#[test]
fn owning_write_publishes_after_an_unpolled_drop() {
    let mut ctx = write_phase();
    let (mut probe, first) = OwningWriteProbe::new(&mut ctx, ContractCheckId::WriteOwningOperation, true, None);
    assert_eq!(
        first,
        OwningRequest::PrepareWrite {
            name: "write-owning-operation-1-owning-write".into(),
            bytes: b"owning write".to_vec()
        }
    );
    assert_eq!(owning_through_publication(&mut probe, &mut ctx), OwningRequest::Finish);
    assert_eq!(
        owning_outcome(&ctx, ContractCheckId::WriteOwningOperation),
        Some(ContractCheckOutcome::Passed)
    );
}

#[test]
fn repeated_owning_write_keeps_its_published_facts() {
    let mut ctx = write_phase();
    let (mut probe, first) = OwningWriteProbe::new(&mut ctx, ContractCheckId::WriteRepeatedExecute, true, None);
    assert_eq!(
        first,
        OwningRequest::PrepareWrite {
            name: "write-repeated-execute-1-owning-repeat".into(),
            bytes: b"owning write".to_vec()
        }
    );
    assert_eq!(owning_through_publication(&mut probe, &mut ctx), OwningRequest::ExecuteAgain);
    let repeat = RepeatedWrite {
        kind: ErrorKind::InvalidState,
        published: true,
        written: 12,
        completed: true,
    };
    assert_eq!(
        owning(&mut probe, &mut ctx, OwningEvent::Repeated(Some(repeat))),
        OwningRequest::Read { path: "/o".into() }
    );
    assert_eq!(
        owning(&mut probe, &mut ctx, OwningEvent::Read(Contents::Bytes(b"owning write".to_vec()))),
        OwningRequest::Finish
    );
    assert_eq!(
        owning_outcome(&ctx, ContractCheckId::WriteRepeatedExecute),
        Some(ContractCheckOutcome::Passed)
    );
    let mut other = write_phase();
    let (mut twice, _) = OwningWriteProbe::new(&mut other, ContractCheckId::WriteRepeatedExecute, true, None);
    owning_through_publication(&mut twice, &mut other);
    assert_eq!(
        owning(&mut twice, &mut other, OwningEvent::Repeated(None)),
        OwningRequest::Fail {
            message: "owning write executed twice",
            with_error: false
        }
    );
}

#[test]
fn owning_write_without_write_is_rejected_or_inapplicable() {
    let mut ctx = write_phase();
    let (mut probe, first) = OwningWriteProbe::new(&mut ctx, ContractCheckId::WriteOwningOperation, false, Some(2));
    assert_eq!(
        first,
        OwningRequest::ResolvePath {
            name: "write-owning-operation-1-owning-write".into()
        }
    );
    assert_eq!(
        owning(&mut probe, &mut ctx, OwningEvent::Resolved(Some("/o".into()))),
        OwningRequest::RejectedWrite {
            path: "/o".into(),
            bytes: b"oo".to_vec()
        }
    );
    assert_eq!(
        owning(&mut probe, &mut ctx, OwningEvent::Rejected(Some(ErrorKind::UnsupportedCapability))),
        OwningRequest::Finish
    );
    assert_eq!(
        owning_outcome(&ctx, ContractCheckId::WriteOwningOperation),
        Some(ContractCheckOutcome::RejectedAsExpected)
    );
    let (_, request) = OwningWriteProbe::new(&mut ctx, ContractCheckId::WriteRepeatedExecute, false, None);
    assert_eq!(request, OwningRequest::Finish);
    assert_eq!(
        owning_outcome(&ctx, ContractCheckId::WriteRepeatedExecute),
        Some(ContractCheckOutcome::NotApplicable {
            reason: "Write capability is unavailable".into()
        })
    );
}
