use qubit_fs_testkit::AsyncWriteCancellationStage;
use qubit_fs_testkit::ContractCheckId;
use qubit_fs_testkit::ContractCheckOutcome;
use qubit_fs_testkit::ContractContext;
use qubit_fs_testkit::FileSystemContract;
use qubit_fs_testkit::copy_cancel_probe::AbortEffect;
use qubit_fs_testkit::copy_cancel_probe::WriterEnd;
use qubit_fs_testkit::fs_facts::ErrorKind;
use qubit_fs_testkit::write_cancel_probe::RecoveredWrite;
use qubit_fs_testkit::write_cancel_probe::RecoveryAbort;
use qubit_fs_testkit::write_cancel_probe::RepeatedWriteFacts;
use qubit_fs_testkit::write_cancel_probe::WriteCancelEvent;
use qubit_fs_testkit::write_cancel_probe::WriteCancelPreparation;
use qubit_fs_testkit::write_cancel_probe::WriteCancelProbe;
use qubit_fs_testkit::write_cancel_probe::WriteCancelRequest;
use qubit_fs_testkit::write_cancel_probe::WriteRunEnd;

fn write_context() -> ContractContext {
    let mut ctx = ContractContext::new(true, true);
    ctx.prepare_phase(FileSystemContract::Write, true);
    ctx.begin("write");
    ctx
}

fn recorded(ctx: &ContractContext, id: ContractCheckId) -> Option<ContractCheckOutcome> {
    ctx.report()
        .checks()
        .iter()
        .find(|check| check.check_id() == id)
        .map(|check| check.outcome().clone())
}

fn running(ctx: &mut ContractContext, id: ContractCheckId) -> WriteCancelProbe {
    let (mut probe, request) = WriteCancelProbe::new(ctx, id, true);
    assert!(matches!(request, WriteCancelRequest::Prepare { .. }));
    let ready = WriteCancelPreparation::Ready { path: "/w".to_owned(), len: 10 };
    assert_eq!(probe.advance(ctx, WriteCancelEvent::Prepared(ready)), WriteCancelRequest::RunUntilStage);
    probe
}

#[test]
fn cancelled_write_keeps_its_facts_through_recovery() {
    let mut ctx = write_context();
    let mut probe = running(&mut ctx, ContractCheckId::WriteCancelFlush);
    let reached = WriteRunEnd::Reached { indeterminate: true, confirmed: 10, recovery: true };
    assert_eq!(probe.advance(&mut ctx, WriteCancelEvent::Ran(reached)), WriteCancelRequest::ExecuteAgain);
    let repeat = RepeatedWriteFacts { kind: ErrorKind::InvalidState, indeterminate: true, written: 10 };
    assert_eq!(probe.advance(&mut ctx, WriteCancelEvent::Repeated(Some(repeat))), WriteCancelRequest::Disarm);
    assert_eq!(probe.advance(&mut ctx, WriteCancelEvent::Disarmed(true)), WriteCancelRequest::Recover);
    let recovered = RecoveredWrite {
        abort: RecoveryAbort::Aborted(AbortEffect::NotPublished, WriterEnd::Aborted),
        written: 10,
        indeterminate: true,
    };
    assert_eq!(probe.advance(&mut ctx, WriteCancelEvent::Recovered(recovered)), WriteCancelRequest::Finish);
    assert_eq!(recorded(&ctx, ContractCheckId::WriteCancelFlush), Some(ContractCheckOutcome::Passed));
    assert_eq!(ctx.resource_count(), 1);
}

#[test]
fn stage_facts_and_repeats_are_checked() {
    let mut ctx = write_context();
    let mut probe = running(&mut ctx, ContractCheckId::WriteCancelOpen);
    let reached = WriteRunEnd::Reached { indeterminate: true, confirmed: 3, recovery: false };
    assert_eq!(
        probe.advance(&mut ctx, WriteCancelEvent::Ran(reached)),
        WriteCancelRequest::Fail {
            message: "write cancellation: confirmed bytes or recovery writer differ from the stage",
            with_error: false
        }
    );
    let mut ctx = write_context();
    let mut probe = running(&mut ctx, ContractCheckId::WriteCancelWrite);
    let reached = WriteRunEnd::Reached { indeterminate: true, confirmed: 4, recovery: true };
    probe.advance(&mut ctx, WriteCancelEvent::Ran(reached));
    assert_eq!(
        probe.advance(&mut ctx, WriteCancelEvent::Repeated(None)),
        WriteCancelRequest::Fail { message: "write cancellation: repeated execution accepted", with_error: false }
    );
    let mut ctx = write_context();
    let mut probe = running(&mut ctx, ContractCheckId::WriteCancelCommit);
    let reached = WriteRunEnd::Reached { indeterminate: true, confirmed: 10, recovery: true };
    probe.advance(&mut ctx, WriteCancelEvent::Ran(reached));
    let repeat = RepeatedWriteFacts { kind: ErrorKind::InvalidState, indeterminate: true, written: 10 };
    probe.advance(&mut ctx, WriteCancelEvent::Repeated(Some(repeat)));
    probe.advance(&mut ctx, WriteCancelEvent::Disarmed(true));
    let recovered = RecoveredWrite {
        abort: RecoveryAbort::Aborted(AbortEffect::Published, WriterEnd::Aborted),
        written: 10,
        indeterminate: true,
    };
    assert_eq!(
        probe.advance(&mut ctx, WriteCancelEvent::Recovered(recovered)),
        WriteCancelRequest::Fail {
            message: "write cancellation: writer state differs from abort outcome",
            with_error: false
        }
    );
}

#[test]
fn unavailable_write_or_hold_shapes_the_outcome() {
    let mut ctx = write_context();
    let (_, request) = WriteCancelProbe::new(&mut ctx, ContractCheckId::WriteCancelOpen, false);
    assert_eq!(request, WriteCancelRequest::Finish);
    assert_eq!(
        recorded(&ctx, ContractCheckId::WriteCancelOpen),
        Some(ContractCheckOutcome::NotApplicable { reason: "write capability unavailable".to_owned() })
    );
    let mut ctx = write_context();
    let (mut probe, request) = WriteCancelProbe::new(&mut ctx, ContractCheckId::WriteCancelWrite, true);
    let WriteCancelRequest::Prepare { stage, name } = request else {
        panic!("the held write is prepared first");
    };
    assert_eq!(stage, AsyncWriteCancellationStage::Write);
    assert!(name.ends_with("write/cancel-write"), "{name}");
    assert_eq!(
        probe.advance(&mut ctx, WriteCancelEvent::Prepared(WriteCancelPreparation::Unsupported)),
        WriteCancelRequest::Finish
    );
    let (_, request) = WriteCancelProbe::new(&mut ctx, ContractCheckId::ReadBasic, true);
    assert_eq!(
        request,
        WriteCancelRequest::Fail { message: "selected check is not write cancellation", with_error: false }
    );
}
