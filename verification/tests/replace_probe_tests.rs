use qubit_fs_testkit::ContractCheckId;
use qubit_fs_testkit::ContractCheckOutcome;
use qubit_fs_testkit::ContractContext;
use qubit_fs_testkit::FileSystemContract;
use qubit_fs_testkit::fs_facts::Contents;
use qubit_fs_testkit::replace_probe::ReplaceEvent;
use qubit_fs_testkit::replace_probe::ReplacePreparation;
use qubit_fs_testkit::replace_probe::ReplaceProbe;
use qubit_fs_testkit::replace_probe::ReplaceRequest;
use qubit_fs_testkit::write_basic_probe::WriteAnswer;

fn write_context() -> ContractContext {
    let mut ctx = ContractContext::new(true, true);
    ctx.prepare_phase(FileSystemContract::Write, true);
    ctx.begin("write");
    ctx
}

fn recorded(ctx: &ContractContext) -> Option<ContractCheckOutcome> {
    ctx.report()
        .checks()
        .iter()
        .find(|check| check.check_id() == ContractCheckId::WriteReplace)
        .map(|check| check.outcome().clone())
}

fn ready(ctx: &mut ContractContext, limit: Option<u64>) -> (ReplaceProbe, Vec<u8>) {
    let (mut probe, request) = ReplaceProbe::new(ctx, true, limit);
    let ReplaceRequest::PrepareWrite { name, bytes } = request else {
        panic!("the replacement is prepared first");
    };
    assert!(name.ends_with("-write-replace"), "{name}");
    let request = probe.advance(
        ctx,
        ReplaceEvent::Prepared(ReplacePreparation::Ready {
            path: "/run/replace".to_owned(),
            bytes: bytes.clone(),
            replaces: true,
        }),
    );
    assert_eq!(request, ReplaceRequest::Read { path: "/run/replace".to_owned() });
    (probe, bytes)
}

#[test]
fn truncating_replacement_passes() {
    let mut ctx = write_context();
    let (mut probe, bytes) = ready(&mut ctx, None);
    assert_eq!(bytes, b"new");
    let request = probe.advance(&mut ctx, ReplaceEvent::Read(Contents::Bytes(b"old contents".to_vec())));
    assert_eq!(
        request,
        ReplaceRequest::WriteFile {
            path: "/run/replace".to_owned(),
            bytes: b"new".to_vec()
        }
    );
    let request = probe.advance(&mut ctx, ReplaceEvent::Written(WriteAnswer::Committed(Some(3))));
    assert_eq!(request, ReplaceRequest::Read { path: "/run/replace".to_owned() });
    assert_eq!(
        probe.advance(&mut ctx, ReplaceEvent::Read(Contents::Bytes(b"new".to_vec()))),
        ReplaceRequest::Finish
    );
    assert_eq!(recorded(&ctx), Some(ContractCheckOutcome::Passed));
    assert_eq!(ctx.resource_count(), 1);
}

#[test]
fn kept_tail_and_short_seed_fail() {
    let mut ctx = write_context();
    let (mut probe, _) = ready(&mut ctx, None);
    probe.advance(&mut ctx, ReplaceEvent::Read(Contents::Bytes(b"old contents".to_vec())));
    probe.advance(&mut ctx, ReplaceEvent::Written(WriteAnswer::Committed(None)));
    assert_eq!(
        probe.advance(&mut ctx, ReplaceEvent::Read(Contents::Bytes(b"new contents".to_vec()))),
        ReplaceRequest::Fail {
            message: "write/replace: replacement did not publish exactly the requested bytes",
            with_error: false
        }
    );
    let mut ctx = write_context();
    let (mut probe, _) = ready(&mut ctx, None);
    assert_eq!(
        probe.advance(&mut ctx, ReplaceEvent::Read(Contents::Bytes(b"abc".to_vec()))),
        ReplaceRequest::Fail {
            message: "replacement fixture requires longer initial contents",
            with_error: false
        }
    );
    let mut ctx = write_context();
    let (mut probe, _) = ready(&mut ctx, None);
    probe.advance(&mut ctx, ReplaceEvent::Read(Contents::Bytes(b"old contents".to_vec())));
    assert_eq!(
        probe.advance(&mut ctx, ReplaceEvent::Written(WriteAnswer::Committed(Some(12)))),
        ReplaceRequest::Fail {
            message: "replacement byte count must describe only the replacement payload",
            with_error: false
        }
    );
}

#[test]
fn limits_and_unavailable_write_shape_the_check() {
    let mut ctx = write_context();
    let (_, bytes) = ready(&mut ctx, Some(2));
    assert_eq!(bytes, b"nn");
    let mut ctx = write_context();
    let (_, request) = ReplaceProbe::new(&mut ctx, false, None);
    assert_eq!(request, ReplaceRequest::Finish);
    assert_eq!(
        recorded(&ctx),
        Some(ContractCheckOutcome::NotApplicable {
            reason: "Write capability is unavailable".to_owned()
        })
    );
    let mut ctx = write_context();
    let (mut probe, _) = ready(&mut ctx, None);
    assert_eq!(probe.advance(&mut ctx, ReplaceEvent::Read(Contents::Unsupported)), ReplaceRequest::Finish);
    assert_eq!(
        recorded(&ctx),
        Some(ContractCheckOutcome::Unverified {
            reason: "replacement initial content unavailable".to_owned()
        })
    );
}
