use qubit_fs_testkit::ContractCheckId;
use qubit_fs_testkit::ContractCheckOutcome;
use qubit_fs_testkit::ContractContext;
use qubit_fs_testkit::FileSystemCapability;
use qubit_fs_testkit::FileSystemContract;
use qubit_fs_testkit::basic_copy_probe::BasicCopyProbe;
use qubit_fs_testkit::basic_copy_probe::CopyEvent;
use qubit_fs_testkit::basic_copy_probe::CopyOutcomeFacts;
use qubit_fs_testkit::basic_copy_probe::CopyPreparation;
use qubit_fs_testkit::basic_copy_probe::CopyRejection;
use qubit_fs_testkit::basic_copy_probe::CopyRequest;
use qubit_fs_testkit::basic_copy_probe::RepeatFacts;
use qubit_fs_testkit::basic_copy_probe::UnpolledFacts;
use qubit_fs_testkit::fs_facts::Contents;
use qubit_fs_testkit::fs_facts::ErrorFacts;
use qubit_fs_testkit::fs_facts::ErrorKind;
use qubit_fs_testkit::fs_facts::OperationKind;

fn prepared() -> ContractContext {
    let mut ctx = ContractContext::new(true, true);
    ctx.prepare_phase(FileSystemContract::Copy, true);
    ctx
}

fn step(probe: &mut BasicCopyProbe, ctx: &mut ContractContext, event: CopyEvent) -> CopyRequest {
    assert!(probe.expects(&event));
    probe.advance(ctx, event)
}

fn outcome_of(ctx: &ContractContext, id: ContractCheckId) -> Option<ContractCheckOutcome> {
    ctx.report()
        .checks()
        .iter()
        .find(|check| check.check_id() == id)
        .map(|check| check.outcome().clone())
}

fn copied() -> Contents {
    Contents::Bytes(b"copy bytes".to_vec())
}

fn good_outcome() -> CopyOutcomeFacts {
    CopyOutcomeFacts {
        bytes: 10,
        files: 1,
        objects: 0,
        used_fallback: true,
        streamed: true,
        completed: true,
    }
}

fn ready_copy(probe: &mut BasicCopyProbe, ctx: &mut ContractContext) {
    assert_eq!(
        step(probe, ctx, CopyEvent::Resolved(Some("/t".into()))),
        CopyRequest::PrepareCopy {
            source: "copy-basic-1-copy-source".into(),
            target: "copy-basic-1-copy-target".into(),
            contents: "copy bytes",
        }
    );
    let ready = CopyPreparation::Ready {
        source: "/s".into(),
        target: "/t".into(),
        file_options: true,
    };
    assert_eq!(step(probe, ctx, CopyEvent::Prepared(ready)), CopyRequest::Read { path: "/s".into() });
    assert_eq!(
        step(probe, ctx, CopyEvent::Read(copied())),
        CopyRequest::BeginCopy {
            source: "/s".into(),
            target: "/t".into()
        }
    );
    let unpolled = UnpolledFacts {
        ready: true,
        recovery: false,
    };
    assert_eq!(step(probe, ctx, CopyEvent::Admitted(Some(unpolled))), CopyRequest::Execute);
}

#[test]
fn basic_copy_moves_prepared_bytes_and_passes() {
    let mut ctx = prepared();
    let (mut probe, first) =
        BasicCopyProbe::new(&mut ctx, ContractCheckId::CopyBasic, true, true, true, false, "memory".into());
    assert_eq!(ctx.current_contract(), "copy/basic");
    assert_eq!(
        first,
        CopyRequest::ResolvePath {
            name: "copy-basic-1-copy-target".into()
        }
    );
    ready_copy(&mut probe, &mut ctx);
    assert_eq!(
        step(&mut probe, &mut ctx, CopyEvent::Executed(Some(good_outcome()))),
        CopyRequest::Read { path: "/s".into() }
    );
    assert_eq!(step(&mut probe, &mut ctx, CopyEvent::Read(copied())), CopyRequest::Read { path: "/t".into() });
    assert_eq!(step(&mut probe, &mut ctx, CopyEvent::Read(copied())), CopyRequest::Finish);
    assert_eq!(outcome_of(&ctx, ContractCheckId::CopyBasic), Some(ContractCheckOutcome::Passed));
    assert_eq!(ctx.resource_count(), 2);
}

#[test]
fn repeated_copy_keeps_its_completed_facts() {
    let mut ctx = prepared();
    let (mut probe, _) =
        BasicCopyProbe::new(&mut ctx, ContractCheckId::CopyRepeatedExecute, true, true, true, false, "memory".into());
    assert_eq!(
        step(&mut probe, &mut ctx, CopyEvent::Resolved(Some("/t".into()))),
        CopyRequest::PrepareCopy {
            source: "copy-repeated-execute-1-copy-source".into(),
            target: "copy-repeated-execute-1-copy-target".into(),
            contents: "copy bytes",
        }
    );
    let ready = CopyPreparation::Ready {
        source: "/s".into(),
        target: "/t".into(),
        file_options: true,
    };
    step(&mut probe, &mut ctx, CopyEvent::Prepared(ready));
    step(&mut probe, &mut ctx, CopyEvent::Read(copied()));
    let unpolled = UnpolledFacts {
        ready: true,
        recovery: false,
    };
    step(&mut probe, &mut ctx, CopyEvent::Admitted(Some(unpolled)));
    assert_eq!(
        step(&mut probe, &mut ctx, CopyEvent::Executed(Some(good_outcome()))),
        CopyRequest::Read { path: "/s".into() }
    );
    assert_eq!(step(&mut probe, &mut ctx, CopyEvent::Read(copied())), CopyRequest::Read { path: "/t".into() });
    assert_eq!(step(&mut probe, &mut ctx, CopyEvent::Read(copied())), CopyRequest::ExecuteAgain);
    let repeat = RepeatFacts {
        kind: ErrorKind::InvalidState,
        published: true,
        same_stats: true,
        completed: true,
    };
    assert_eq!(
        step(&mut probe, &mut ctx, CopyEvent::Repeated(Some(repeat))),
        CopyRequest::Read { path: "/s".into() }
    );
    step(&mut probe, &mut ctx, CopyEvent::Read(copied()));
    assert_eq!(step(&mut probe, &mut ctx, CopyEvent::Read(copied())), CopyRequest::Finish);
    assert_eq!(
        outcome_of(&ctx, ContractCheckId::CopyRepeatedExecute),
        Some(ContractCheckOutcome::Passed)
    );
}

#[test]
fn repeated_copy_that_succeeds_twice_fails() {
    let mut ctx = prepared();
    let (mut probe, _) =
        BasicCopyProbe::new(&mut ctx, ContractCheckId::CopyRepeatedExecute, true, true, true, false, "memory".into());
    step(&mut probe, &mut ctx, CopyEvent::Resolved(Some("/t".into())));
    let ready = CopyPreparation::Ready {
        source: "/s".into(),
        target: "/t".into(),
        file_options: true,
    };
    step(&mut probe, &mut ctx, CopyEvent::Prepared(ready));
    step(&mut probe, &mut ctx, CopyEvent::Read(copied()));
    let unpolled = UnpolledFacts {
        ready: true,
        recovery: false,
    };
    step(&mut probe, &mut ctx, CopyEvent::Admitted(Some(unpolled)));
    step(&mut probe, &mut ctx, CopyEvent::Executed(Some(good_outcome())));
    step(&mut probe, &mut ctx, CopyEvent::Read(copied()));
    step(&mut probe, &mut ctx, CopyEvent::Read(copied()));
    assert_eq!(
        step(&mut probe, &mut ctx, CopyEvent::Repeated(None)),
        CopyRequest::Fail {
            message: "copy executed twice",
            with_error: false
        }
    );
}

#[test]
fn copy_evidence_flaws_fail_with_their_diagnostics() {
    let cases = [
        (
            CopyOutcomeFacts {
                bytes: 9,
                ..good_outcome()
            },
            false,
            "copy statistics differ",
        ),
        (
            CopyOutcomeFacts {
                files: 1,
                objects: 1,
                ..good_outcome()
            },
            false,
            "copy statistics differ",
        ),
        (
            CopyOutcomeFacts {
                used_fallback: false,
                ..good_outcome()
            },
            false,
            "copy method and fallback evidence disagree",
        ),
        (
            CopyOutcomeFacts {
                used_fallback: false,
                streamed: false,
                ..good_outcome()
            },
            true,
            "fallback-only copy reported a native method",
        ),
        (
            CopyOutcomeFacts {
                completed: false,
                ..good_outcome()
            },
            false,
            "successful copy did not complete the operation",
        ),
    ];
    for (outcome, fallback_only, message) in cases {
        let mut ctx = prepared();
        let (mut probe, _) = BasicCopyProbe::new(
            &mut ctx,
            ContractCheckId::CopyBasic,
            true,
            true,
            true,
            fallback_only,
            "memory".into(),
        );
        ready_copy(&mut probe, &mut ctx);
        assert_eq!(
            step(&mut probe, &mut ctx, CopyEvent::Executed(Some(outcome))),
            CopyRequest::Fail {
                message,
                with_error: false
            }
        );
    }
}

#[test]
fn copy_without_write_expects_an_exact_rejection() {
    let mut ctx = prepared();
    let (mut probe, _) =
        BasicCopyProbe::new(&mut ctx, ContractCheckId::CopyBasic, true, false, true, false, "memory".into());
    assert_eq!(
        step(&mut probe, &mut ctx, CopyEvent::Resolved(Some("/t".into()))),
        CopyRequest::ResolvePath {
            name: "copy-basic-1-copy-source".into()
        }
    );
    assert_eq!(
        step(&mut probe, &mut ctx, CopyEvent::Resolved(Some("/s".into()))),
        CopyRequest::BeginRejectedCopy {
            source: "/s".into(),
            target: "/t".into()
        }
    );
    let rejection = CopyRejection {
        error: ErrorFacts {
            kind: ErrorKind::UnsupportedCapability,
            operation: OperationKind::Copy,
            path: Some("/t".into()),
            target: Some("/t".into()),
            provider: Some("memory".into()),
            required_capability: Some(FileSystemCapability::Write),
        },
        unchanged: true,
    };
    assert_eq!(step(&mut probe, &mut ctx, CopyEvent::Rejected(Some(rejection))), CopyRequest::Finish);
    assert_eq!(
        outcome_of(&ctx, ContractCheckId::CopyBasic),
        Some(ContractCheckOutcome::RejectedAsExpected)
    );
}

#[test]
fn copy_rejection_on_the_wrong_path_fails() {
    let mut ctx = prepared();
    let (mut probe, _) =
        BasicCopyProbe::new(&mut ctx, ContractCheckId::CopyBasic, false, true, true, false, "memory".into());
    step(&mut probe, &mut ctx, CopyEvent::Resolved(Some("/t".into())));
    step(&mut probe, &mut ctx, CopyEvent::Resolved(Some("/s".into())));
    let rejection = CopyRejection {
        error: ErrorFacts {
            kind: ErrorKind::UnsupportedCapability,
            operation: OperationKind::Copy,
            path: Some("/t".into()),
            target: Some("/t".into()),
            provider: Some("memory".into()),
            required_capability: Some(FileSystemCapability::Read),
        },
        unchanged: true,
    };
    assert_eq!(
        step(&mut probe, &mut ctx, CopyEvent::Rejected(Some(rejection))),
        CopyRequest::Fail {
            message: "copy rejection context differs",
            with_error: true
        }
    );
    let (mut again, _) =
        BasicCopyProbe::new(&mut ctx, ContractCheckId::CopyBasic, false, true, true, false, "memory".into());
    step(&mut again, &mut ctx, CopyEvent::Resolved(Some("/t".into())));
    step(&mut again, &mut ctx, CopyEvent::Resolved(Some("/s".into())));
    assert_eq!(
        step(&mut again, &mut ctx, CopyEvent::Rejected(None)),
        CopyRequest::Fail {
            message: "unsupported copy succeeded",
            with_error: false
        }
    );
}

#[test]
fn repeated_copy_without_prerequisites_does_not_apply() {
    let mut ctx = prepared();
    let (mut probe, _) =
        BasicCopyProbe::new(&mut ctx, ContractCheckId::CopyRepeatedExecute, true, true, false, false, "memory".into());
    assert_eq!(step(&mut probe, &mut ctx, CopyEvent::Resolved(Some("/t".into()))), CopyRequest::Finish);
    assert_eq!(
        outcome_of(&ctx, ContractCheckId::CopyRepeatedExecute),
        Some(ContractCheckOutcome::NotApplicable {
            reason: "copy prerequisites are unavailable".into()
        })
    );
}

#[test]
fn copy_preparation_answers_decide_the_record() {
    let mut ctx = prepared();
    let (mut probe, _) =
        BasicCopyProbe::new(&mut ctx, ContractCheckId::CopyBasic, true, true, true, false, "memory".into());
    step(&mut probe, &mut ctx, CopyEvent::Resolved(Some("/t".into())));
    assert_eq!(
        step(
            &mut probe,
            &mut ctx,
            CopyEvent::Prepared(CopyPreparation::Unavailable("copy source seed unavailable".into()))
        ),
        CopyRequest::Finish
    );
    assert_eq!(
        outcome_of(&ctx, ContractCheckId::CopyBasic),
        Some(ContractCheckOutcome::Unverified {
            reason: "copy source seed unavailable".into()
        })
    );
    let mut other = prepared();
    let (mut aliased, _) =
        BasicCopyProbe::new(&mut other, ContractCheckId::CopyBasic, true, true, true, false, "memory".into());
    step(&mut aliased, &mut other, CopyEvent::Resolved(Some("/t".into())));
    let same = CopyPreparation::Ready {
        source: "/t".into(),
        target: "/t".into(),
        file_options: true,
    };
    assert_eq!(
        step(&mut aliased, &mut other, CopyEvent::Prepared(same)),
        CopyRequest::Fail {
            message: "copy source and target alias",
            with_error: false
        }
    );
    let (mut unpolled, _) =
        BasicCopyProbe::new(&mut other, ContractCheckId::CopyBasic, true, true, true, false, "memory".into());
    step(&mut unpolled, &mut other, CopyEvent::Resolved(Some("/t2".into())));
    let ready = CopyPreparation::Ready {
        source: "/s2".into(),
        target: "/t2".into(),
        file_options: true,
    };
    step(&mut unpolled, &mut other, CopyEvent::Prepared(ready));
    step(&mut unpolled, &mut other, CopyEvent::Read(copied()));
    let moved = UnpolledFacts {
        ready: false,
        recovery: false,
    };
    assert_eq!(
        step(&mut unpolled, &mut other, CopyEvent::Admitted(Some(moved))),
        CopyRequest::Fail {
            message: "unpolled copy changed operation state",
            with_error: false
        }
    );
}

#[test]
fn copy_of_another_check_is_refused() {
    let mut ctx = prepared();
    let (_, first) =
        BasicCopyProbe::new(&mut ctx, ContractCheckId::CopyServerSide, true, true, true, false, "memory".into());
    assert_eq!(
        first,
        CopyRequest::Fail {
            message: "selected entry is not a basic copy check",
            with_error: false
        }
    );
}

use qubit_fs_testkit::strong_copy_probe::InitialObservation;
use qubit_fs_testkit::strong_copy_probe::StrongCopyEvent;
use qubit_fs_testkit::strong_copy_probe::StrongCopyFacts;
use qubit_fs_testkit::strong_copy_probe::StrongCopyProbe;
use qubit_fs_testkit::strong_copy_probe::StrongCopyRefusal;
use qubit_fs_testkit::strong_copy_probe::StrongCopyRequest;
use qubit_fs_testkit::strong_copy_probe::StrongPreparation;

fn strong(probe: &mut StrongCopyProbe, ctx: &mut ContractContext, event: StrongCopyEvent) -> StrongCopyRequest {
    assert!(probe.expects(&event));
    probe.advance(ctx, event)
}

fn strong_contents() -> Contents {
    Contents::Bytes(b"strong copy contents".to_vec())
}

#[test]
fn atomic_copy_publishes_into_an_absent_target() {
    let mut ctx = prepared();
    let (mut probe, first) =
        StrongCopyProbe::new(&mut ctx, ContractCheckId::CopyAtomicFile, true, true, "memory".into());
    assert_eq!(
        first,
        StrongCopyRequest::PrepareCopy {
            source: "copy-atomic-file-1-strong-copy-source".into(),
            target: "copy-atomic-file-1-strong-copy-target".into(),
            contents: "strong copy contents",
            atomic: true
        }
    );
    let ready = StrongPreparation::Ready {
        source: "/s".into(),
        target: "/t".into(),
        options_exact: true,
    };
    assert_eq!(
        strong(&mut probe, &mut ctx, StrongCopyEvent::Prepared(ready)),
        StrongCopyRequest::ObserveInitial {
            source: "/s".into(),
            target: "/t".into()
        }
    );
    let initial = InitialObservation::Observed {
        source: b"strong copy contents".to_vec(),
        exists: false,
    };
    assert_eq!(
        strong(&mut probe, &mut ctx, StrongCopyEvent::Initial(initial)),
        StrongCopyRequest::Copy {
            source: "/s".into(),
            target: "/t".into(),
            atomic: true
        }
    );
    let facts = StrongCopyFacts {
        atomic: true,
        durable: false,
        bytes: 20,
        files: 1,
        objects: 0,
    };
    assert_eq!(
        strong(&mut probe, &mut ctx, StrongCopyEvent::Copied(Ok(facts))),
        StrongCopyRequest::Read { path: "/s".into() }
    );
    assert_eq!(
        strong(&mut probe, &mut ctx, StrongCopyEvent::Read(strong_contents())),
        StrongCopyRequest::Read { path: "/t".into() }
    );
    assert_eq!(
        strong(&mut probe, &mut ctx, StrongCopyEvent::Read(strong_contents())),
        StrongCopyRequest::Finish
    );
    assert_eq!(outcome_of(&ctx, ContractCheckId::CopyAtomicFile), Some(ContractCheckOutcome::Passed));
}

#[test]
fn durable_copy_that_is_not_durable_fails() {
    let mut ctx = prepared();
    let (mut probe, _) = StrongCopyProbe::new(&mut ctx, ContractCheckId::CopyDurableFile, true, true, "memory".into());
    let ready = StrongPreparation::Ready {
        source: "/s".into(),
        target: "/t".into(),
        options_exact: true,
    };
    strong(&mut probe, &mut ctx, StrongCopyEvent::Prepared(ready));
    let initial = InitialObservation::Observed {
        source: b"strong copy contents".to_vec(),
        exists: false,
    };
    strong(&mut probe, &mut ctx, StrongCopyEvent::Initial(initial));
    let facts = StrongCopyFacts {
        atomic: true,
        durable: false,
        bytes: 20,
        files: 1,
        objects: 0,
    };
    assert_eq!(
        strong(&mut probe, &mut ctx, StrongCopyEvent::Copied(Ok(facts))),
        StrongCopyRequest::Fail {
            message: "copy did not achieve its required publication guarantee",
            with_error: false
        }
    );
}

#[test]
fn unadvertised_copy_guarantee_is_refused_without_effect() {
    let mut ctx = prepared();
    let (mut probe, first) =
        StrongCopyProbe::new(&mut ctx, ContractCheckId::CopyDurableFile, true, false, "memory".into());
    assert_eq!(
        first,
        StrongCopyRequest::ResolvePath {
            name: "copy-durable-file-1-strong-copy-source".into()
        }
    );
    assert_eq!(
        strong(&mut probe, &mut ctx, StrongCopyEvent::Resolved(Some("/s".into()))),
        StrongCopyRequest::ResolvePath {
            name: "copy-durable-file-1-strong-copy-target".into()
        }
    );
    assert_eq!(
        strong(&mut probe, &mut ctx, StrongCopyEvent::Resolved(Some("/t".into()))),
        StrongCopyRequest::Copy {
            source: "/s".into(),
            target: "/t".into(),
            atomic: false
        }
    );
    let refusal = StrongCopyRefusal {
        error: ErrorFacts {
            kind: ErrorKind::RequirementNotMet,
            operation: OperationKind::Copy,
            path: Some("/s".into()),
            target: Some("/t".into()),
            provider: Some("memory".into()),
            required_capability: Some(FileSystemCapability::DurableFileCopy),
        },
        unchanged: true,
    };
    assert_eq!(
        strong(&mut probe, &mut ctx, StrongCopyEvent::Copied(Err(refusal))),
        StrongCopyRequest::Finish
    );
    assert_eq!(
        outcome_of(&ctx, ContractCheckId::CopyDurableFile),
        Some(ContractCheckOutcome::RejectedAsExpected)
    );
    let (_, request) = StrongCopyProbe::new(&mut ctx, ContractCheckId::CopyAtomicFile, false, true, "memory".into());
    assert_eq!(request, StrongCopyRequest::Finish);
    assert_eq!(
        outcome_of(&ctx, ContractCheckId::CopyAtomicFile),
        Some(ContractCheckOutcome::NotApplicable {
            reason: "Copy capability is unavailable".into()
        })
    );
}

use qubit_fs_testkit::AsyncCopyCancellationStage;
use qubit_fs_testkit::copy_cancel_probe::AbortEffect;
use qubit_fs_testkit::copy_cancel_probe::CancelEvent;
use qubit_fs_testkit::copy_cancel_probe::CancelPreparation;
use qubit_fs_testkit::copy_cancel_probe::CancelRequest;
use qubit_fs_testkit::copy_cancel_probe::CopyCancelProbe;
use qubit_fs_testkit::copy_cancel_probe::FileObservation;
use qubit_fs_testkit::copy_cancel_probe::RecoveryAnswer;
use qubit_fs_testkit::copy_cancel_probe::RepeatedCopy;
use qubit_fs_testkit::copy_cancel_probe::RunEnd;
use qubit_fs_testkit::copy_cancel_probe::RunFacts;
use qubit_fs_testkit::copy_cancel_probe::UnpolledCopy;
use qubit_fs_testkit::copy_cancel_probe::WriterEnd;

fn cancel(probe: &mut CopyCancelProbe, ctx: &mut ContractContext, event: CancelEvent) -> CancelRequest {
    assert!(probe.expects(&event));
    probe.advance(ctx, event)
}

fn cancelled_until_repeat(probe: &mut CopyCancelProbe, ctx: &mut ContractContext, writer: bool) -> CancelRequest {
    let ready = CancelPreparation::Ready {
        source: "/s".into(),
        target: "/t".into(),
    };
    assert_eq!(
        cancel(probe, ctx, CancelEvent::Prepared(ready)),
        CancelRequest::ObserveFile { path: "/s".into() }
    );
    assert_eq!(
        cancel(probe, ctx, CancelEvent::Observed(FileObservation::Bytes(b"source".to_vec()))),
        CancelRequest::ObserveFile { path: "/t".into() }
    );
    assert_eq!(
        cancel(probe, ctx, CancelEvent::Observed(FileObservation::Absent)),
        CancelRequest::BeginCopy
    );
    let unpolled = UnpolledCopy {
        ready: true,
        recovery: false,
    };
    assert_eq!(cancel(probe, ctx, CancelEvent::Admitted(Some(unpolled))), CancelRequest::RunUntilStage);
    let run = RunFacts {
        end: RunEnd::Reached,
        disarmed: true,
        indeterminate: true,
        recovery: writer,
    };
    assert_eq!(cancel(probe, ctx, CancelEvent::Ran(run)), CancelRequest::ExecuteAgain);
    let first = RepeatedCopy {
        kind: ErrorKind::InvalidState,
        indeterminate: true,
        progress: 3,
        same_as_previous: false,
        still_indeterminate: true,
        recovery: writer,
    };
    assert_eq!(cancel(probe, ctx, CancelEvent::Repeated(Some(first))), CancelRequest::ExecuteThird);
    let second = RepeatedCopy {
        same_as_previous: true,
        ..first
    };
    cancel(probe, ctx, CancelEvent::Repeated(Some(second)))
}

#[test]
fn reader_cancellation_keeps_the_source() {
    let mut ctx = prepared();
    let (mut probe, first) = CopyCancelProbe::new(&mut ctx, ContractCheckId::AsyncCopyCancelReader, true);
    assert_eq!(
        first,
        CancelRequest::PrepareCancellation {
            stage: AsyncCopyCancellationStage::Reader,
            name: "async-copy-cancel-reader-1-async-copy-cancel-Reader".into()
        }
    );
    assert_eq!(
        cancelled_until_repeat(&mut probe, &mut ctx, false),
        CancelRequest::ObserveFile { path: "/s".into() }
    );
    assert_eq!(
        cancel(&mut probe, &mut ctx, CancelEvent::Observed(FileObservation::Bytes(b"source".to_vec()))),
        CancelRequest::Finish
    );
    assert_eq!(
        outcome_of(&ctx, ContractCheckId::AsyncCopyCancelReader),
        Some(ContractCheckOutcome::Passed)
    );
}

#[test]
fn writer_cancellation_aborts_its_recovery_writer() {
    let mut ctx = prepared();
    let (mut probe, _) = CopyCancelProbe::new(&mut ctx, ContractCheckId::AsyncCopyCancelWriter, true);
    assert_eq!(cancelled_until_repeat(&mut probe, &mut ctx, true), CancelRequest::AbortRecovery);
    assert_eq!(
        cancel(
            &mut probe,
            &mut ctx,
            CancelEvent::Recovered(RecoveryAnswer::Aborted(AbortEffect::NotPublished, WriterEnd::Aborted))
        ),
        CancelRequest::ObserveFile { path: "/t".into() }
    );
    assert_eq!(
        cancel(&mut probe, &mut ctx, CancelEvent::Observed(FileObservation::Bytes(b"partial".to_vec()))),
        CancelRequest::Fail {
            message: "NotPublished copy recovery changed target",
            with_error: false
        }
    );
}

#[test]
fn cancellation_without_a_stage_probe_is_skipped() {
    let mut ctx = prepared();
    let (mut probe, _) = CopyCancelProbe::new(&mut ctx, ContractCheckId::AsyncCopyCancelCommit, true);
    assert_eq!(
        cancel(&mut probe, &mut ctx, CancelEvent::Prepared(CancelPreparation::Unsupported)),
        CancelRequest::Finish
    );
    assert_eq!(
        outcome_of(&ctx, ContractCheckId::AsyncCopyCancelCommit),
        Some(ContractCheckOutcome::SkippedOptional {
            reason: "fixture has no stage acknowledgement probe".into()
        })
    );
    let (mut early, _) = CopyCancelProbe::new(&mut ctx, ContractCheckId::AsyncCopyCancelNativeAttempt, true);
    let ready = CancelPreparation::Ready {
        source: "/s".into(),
        target: "/t".into(),
    };
    cancel(&mut early, &mut ctx, CancelEvent::Prepared(ready));
    cancel(&mut early, &mut ctx, CancelEvent::Observed(FileObservation::Bytes(b"source".to_vec())));
    cancel(&mut early, &mut ctx, CancelEvent::Observed(FileObservation::Absent));
    let unpolled = UnpolledCopy {
        ready: true,
        recovery: false,
    };
    cancel(&mut early, &mut ctx, CancelEvent::Admitted(Some(unpolled)));
    let run = RunFacts {
        end: RunEnd::Completed,
        disarmed: true,
        indeterminate: false,
        recovery: false,
    };
    assert_eq!(
        cancel(&mut early, &mut ctx, CancelEvent::Ran(run)),
        CancelRequest::Fail {
            message: "copy completed before requested stage acknowledgement",
            with_error: false
        }
    );
}
