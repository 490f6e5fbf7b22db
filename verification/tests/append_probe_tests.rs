use qubit_fs_testkit::ContractCheckId;
use qubit_fs_testkit::ContractCheckOutcome;
use qubit_fs_testkit::ContractContext;
use qubit_fs_testkit::FileSystemCapability;
use qubit_fs_testkit::FileSystemContract;
use qubit_fs_testkit::append_probe::AppendEvent;
use qubit_fs_testkit::append_probe::AppendPreparation;
use qubit_fs_testkit::append_probe::AppendProbe;
use qubit_fs_testkit::append_probe::AppendRequest;
use qubit_fs_testkit::fs_facts::Contents;
use qubit_fs_testkit::fs_facts::ErrorFacts;
use qubit_fs_testkit::fs_facts::ErrorKind;
use qubit_fs_testkit::fs_facts::OperationKind;
use qubit_fs_testkit::write_basic_probe::WriteAnswer;

fn write_context() -> ContractContext {
    let mut ctx = ContractContext::new(true, true);
    ctx.prepare_phase(FileSystemContract::Write, true);
    ctx
}

fn recorded(ctx: &ContractContext) -> Option<ContractCheckOutcome> {
    ctx.report()
        .checks()
        .iter()
        .find(|check| check.check_id() == ContractCheckId::AppendBasic)
        .map(|check| check.outcome().clone())
}

fn ready(ctx: &mut ContractContext) -> AppendProbe {
    let (mut probe, request) = AppendProbe::new(ctx, true, None, "memory".to_owned());
    let AppendRequest::PrepareWrite { name, bytes } = request else {
        panic!("the append is prepared first");
    };
    assert!(name.ends_with("-append-target"), "{name}");
    assert_eq!(bytes, b"-after");
    let request = probe.advance(
        ctx,
        AppendEvent::Prepared(AppendPreparation::Ready {
            path: "/run/log".to_owned(),
            bytes,
            appends: true,
        }),
    );
    assert_eq!(request, AppendRequest::Read { path: "/run/log".to_owned() });
    probe
}

#[test]
fn append_keeps_the_earlier_contents() {
    let mut ctx = write_context();
    let mut probe = ready(&mut ctx);
    let request = probe.advance(&mut ctx, AppendEvent::Read(Contents::Bytes(b"before".to_vec())));
    assert_eq!(
        request,
        AppendRequest::WriteFile {
            path: "/run/log".to_owned(),
            bytes: b"-after".to_vec()
        }
    );
    probe.advance(&mut ctx, AppendEvent::Written(WriteAnswer::Committed(Some(6))));
    assert_eq!(
        probe.advance(&mut ctx, AppendEvent::Read(Contents::Bytes(b"before-after".to_vec()))),
        AppendRequest::Finish
    );
    assert_eq!(recorded(&ctx), Some(ContractCheckOutcome::Passed));
}

#[test]
fn overwrite_and_empty_seed_fail() {
    let mut ctx = write_context();
    let mut probe = ready(&mut ctx);
    probe.advance(&mut ctx, AppendEvent::Read(Contents::Bytes(b"before".to_vec())));
    probe.advance(&mut ctx, AppendEvent::Written(WriteAnswer::Committed(None)));
    assert_eq!(
        probe.advance(&mut ctx, AppendEvent::Read(Contents::Bytes(b"-after".to_vec()))),
        AppendRequest::Fail {
            message: "append/basic: initial or appended bytes were not retained",
            with_error: false
        }
    );
    let mut ctx = write_context();
    let mut probe = ready(&mut ctx);
    assert_eq!(
        probe.advance(&mut ctx, AppendEvent::Read(Contents::Bytes(Vec::new()))),
        AppendRequest::Fail {
            message: "append fixture requires nonempty initial contents",
            with_error: false
        }
    );
}

#[test]
fn unavailable_append_must_be_refused_exactly() {
    let mut ctx = write_context();
    let (mut probe, request) = AppendProbe::new(&mut ctx, false, None, "memory".to_owned());
    assert!(matches!(request, AppendRequest::ResolvePath { .. }));
    probe.advance(&mut ctx, AppendEvent::Resolved(Some("/run/log".to_owned())));
    let refused = ErrorFacts {
        kind: ErrorKind::RequirementNotMet,
        operation: OperationKind::OpenWriter,
        path: Some("/run/log".into()),
        target: None,
        provider: Some("memory".into()),
        required_capability: Some(FileSystemCapability::Append),
    };
    assert_eq!(probe.advance(&mut ctx, AppendEvent::OpenRejected(Some(refused))), AppendRequest::Finish);
    assert_eq!(recorded(&ctx), Some(ContractCheckOutcome::RejectedAsExpected));
}
