use qubit_fs_testkit::ContractCheckId;
use qubit_fs_testkit::ContractCheckOutcome;
use qubit_fs_testkit::ContractContext;
use qubit_fs_testkit::FileSystemCapability;
use qubit_fs_testkit::FileSystemContract;
use qubit_fs_testkit::fs_facts::Contents;
use qubit_fs_testkit::fs_facts::ErrorFacts;
use qubit_fs_testkit::fs_facts::ErrorKind;
use qubit_fs_testkit::fs_facts::OperationKind;
use qubit_fs_testkit::write_if_absent_probe::IfAbsentEvent;
use qubit_fs_testkit::write_if_absent_probe::IfAbsentPreparation;
use qubit_fs_testkit::write_if_absent_probe::IfAbsentRequest;
use qubit_fs_testkit::write_if_absent_probe::WriteIfAbsentProbe;

fn write_context() -> ContractContext {
    let mut ctx = ContractContext::new(true, true);
    ctx.prepare_phase(FileSystemContract::Write, true);
    ctx.begin("write");
    ctx
}

fn recorded(ctx: &ContractContext) -> Option<ContractCheckOutcome> {
    ctx.report()
        .checks()
        .iter()
        .find(|check| check.check_id() == ContractCheckId::WriteIfAbsent)
        .map(|check| check.outcome().clone())
}

fn error(kind: ErrorKind, operation: OperationKind, capability: Option<FileSystemCapability>) -> ErrorFacts {
    ErrorFacts {
        kind,
        operation,
        path: Some("/run/absent".into()),
        target: None,
        provider: Some("memory".into()),
        required_capability: capability,
    }
}

fn prepared(ctx: &mut ContractContext) -> WriteIfAbsentProbe {
    let (mut probe, request) = WriteIfAbsentProbe::new(ctx, true, None, "memory".to_owned());
    let IfAbsentRequest::PrepareWrite { name, bytes } = request else {
        panic!("the creation is prepared first");
    };
    assert!(name.ends_with("-write-conditional"), "{name}");
    assert_eq!(bytes, b"conditional");
    let request = probe.advance(
        ctx,
        IfAbsentEvent::Prepared(IfAbsentPreparation::Ready {
            path: "/run/absent".to_owned(),
            bytes,
            if_absent: true,
            replaces: true,
        }),
    );
    assert_eq!(
        request,
        IfAbsentRequest::WriteFile {
            path: "/run/absent".to_owned(),
            bytes: b"conditional".to_vec()
        }
    );
    probe
}

#[test]
fn second_creation_is_refused_without_effect() {
    let mut ctx = write_context();
    let mut probe = prepared(&mut ctx);
    let request = probe.advance(&mut ctx, IfAbsentEvent::Written(Ok(())));
    assert_eq!(request, IfAbsentRequest::Read { path: "/run/absent".to_owned() });
    let request = probe.advance(&mut ctx, IfAbsentEvent::Read(Contents::Bytes(b"conditional".to_vec())));
    assert_eq!(
        request,
        IfAbsentRequest::WriteFile {
            path: "/run/absent".to_owned(),
            bytes: b"unexpected".to_vec()
        }
    );
    let refused = error(ErrorKind::PreconditionFailed, OperationKind::CommitWriter, None);
    let request = probe.advance(&mut ctx, IfAbsentEvent::Written(Err(refused)));
    assert_eq!(request, IfAbsentRequest::Read { path: "/run/absent".to_owned() });
    assert_eq!(
        probe.advance(&mut ctx, IfAbsentEvent::Read(Contents::Bytes(b"conditional".to_vec()))),
        IfAbsentRequest::Finish
    );
    assert_eq!(recorded(&ctx), Some(ContractCheckOutcome::Passed));
}

#[test]
fn replaced_target_fails() {
    let mut ctx = write_context();
    let mut probe = prepared(&mut ctx);
    probe.advance(&mut ctx, IfAbsentEvent::Written(Ok(())));
    probe.advance(&mut ctx, IfAbsentEvent::Read(Contents::Bytes(b"conditional".to_vec())));
    assert_eq!(
        probe.advance(&mut ctx, IfAbsentEvent::Written(Ok(()))),
        IfAbsentRequest::Fail {
            message: "conditional write replaced an existing target",
            with_error: false
        }
    );
}

#[test]
fn unavailable_conditional_write_must_be_refused_exactly() {
    let mut ctx = write_context();
    let (mut probe, request) = WriteIfAbsentProbe::new(&mut ctx, false, None, "memory".to_owned());
    assert!(matches!(request, IfAbsentRequest::ResolvePath { .. }));
    let request = probe.advance(&mut ctx, IfAbsentEvent::Resolved(Some("/run/absent".to_owned())));
    assert_eq!(request, IfAbsentRequest::OpenRejectedWriter { path: "/run/absent".to_owned() });
    let refused = error(
        ErrorKind::RequirementNotMet,
        OperationKind::OpenWriter,
        Some(FileSystemCapability::ConditionalWrite),
    );
    assert_eq!(probe.advance(&mut ctx, IfAbsentEvent::OpenRejected(Some(refused))), IfAbsentRequest::Finish);
    assert_eq!(recorded(&ctx), Some(ContractCheckOutcome::RejectedAsExpected));
}
