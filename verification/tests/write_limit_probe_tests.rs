use qubit_fs_testkit::ContractCheckId;
use qubit_fs_testkit::ContractCheckOutcome;
use qubit_fs_testkit::ContractContext;
use qubit_fs_testkit::FileSystemContract;
use qubit_fs_testkit::fs_facts::Contents;
use qubit_fs_testkit::fs_facts::ErrorFacts;
use qubit_fs_testkit::fs_facts::ErrorKind;
use qubit_fs_testkit::fs_facts::OperationKind;
use qubit_fs_testkit::write_limit_probe::LimitEvent;
use qubit_fs_testkit::write_limit_probe::LimitPreparation;
use qubit_fs_testkit::write_limit_probe::LimitRequest;
use qubit_fs_testkit::write_limit_probe::WriteLimitProbe;
use qubit_fs_testkit::write_limit_probe::bounded_probe_plan;

fn write_context() -> ContractContext {
    let mut ctx = ContractContext::new(true, true);
    ctx.prepare_phase(FileSystemContract::Write, true);
    ctx.begin("write");
    ctx
}

fn recorded(ctx: &ContractContext) -> Option<ContractCheckOutcome> {
    ctx.report()
        .checks()
        .iter()
        .find(|check| check.check_id() == ContractCheckId::WriteLimit)
        .map(|check| check.outcome().clone())
}

fn ready(path: &str, len: usize) -> LimitEvent {
    LimitEvent::Prepared(LimitPreparation::Ready {
        path: path.to_owned(),
        bytes: vec![b'a'; len],
        creates: true,
    })
}

fn refusal(kind: ErrorKind, path: &str) -> ErrorFacts {
    ErrorFacts {
        kind,
        operation: OperationKind::CommitWriter,
        path: Some(path.into()),
        target: None,
        provider: Some("memory".into()),
        required_capability: None,
    }
}

#[test]
fn boundary_is_published_and_successor_refused() {
    let mut ctx = write_context();
    let (mut probe, request) = WriteLimitProbe::new(&mut ctx, Some((4, 5)), "memory".to_owned());
    let LimitRequest::PrepareWrite { name, len } = request else {
        panic!("the boundary creation is prepared first");
    };
    assert!(name.ends_with("-async-write-limit-at"), "{name}");
    assert_eq!(len, 4);
    assert_eq!(probe.advance(&mut ctx, ready("/at", 4)), LimitRequest::WriteFile { path: "/at".to_owned() });
    assert_eq!(probe.advance(&mut ctx, LimitEvent::Written(Ok(Some(4)))), LimitRequest::Read { path: "/at".to_owned() });
    let LimitRequest::PrepareWrite { name, len } = probe.advance(&mut ctx, LimitEvent::Read(Contents::Bytes(b"aaaa".to_vec())))
    else {
        panic!("the successor creation is prepared next");
    };
    assert!(name.ends_with("-async-write-limit-over"), "{name}");
    assert_eq!(len, 5);
    assert_eq!(probe.advance(&mut ctx, ready("/over", 5)), LimitRequest::WriteFile { path: "/over".to_owned() });
    let refused = refusal(ErrorKind::ResourceLimitExceeded, "/over");
    assert_eq!(probe.advance(&mut ctx, LimitEvent::Written(Err(refused))), LimitRequest::Finish);
    assert_eq!(recorded(&ctx), Some(ContractCheckOutcome::Passed));
    assert_eq!(ctx.resource_count(), 2);
}

#[test]
fn accepted_successor_or_wrong_boundary_fails() {
    let mut ctx = write_context();
    let (mut probe, _) = WriteLimitProbe::new(&mut ctx, Some((2, 3)), "memory".to_owned());
    probe.advance(&mut ctx, ready("/at", 2));
    probe.advance(&mut ctx, LimitEvent::Written(Ok(None)));
    assert_eq!(
        probe.advance(&mut ctx, LimitEvent::Read(Contents::Bytes(b"ab".to_vec()))),
        LimitRequest::Fail {
            message: "write boundary published bytes differ or independent evidence is unavailable",
            with_error: false
        }
    );
    let mut ctx = write_context();
    let (mut probe, _) = WriteLimitProbe::new(&mut ctx, Some((2, 3)), "memory".to_owned());
    probe.advance(&mut ctx, ready("/at", 2));
    probe.advance(&mut ctx, LimitEvent::Written(Ok(None)));
    probe.advance(&mut ctx, LimitEvent::Read(Contents::Bytes(b"aa".to_vec())));
    probe.advance(&mut ctx, ready("/over", 3));
    assert_eq!(
        probe.advance(&mut ctx, LimitEvent::Written(Ok(Some(3)))),
        LimitRequest::Fail { message: "write limit successor was accepted", with_error: false }
    );
    let mut ctx = write_context();
    let (mut probe, _) = WriteLimitProbe::new(&mut ctx, Some((2, 3)), "memory".to_owned());
    assert_eq!(
        probe.advance(&mut ctx, ready("/at", 3)),
        LimitRequest::Fail { message: "write limit fixture changed creation semantics", with_error: false }
    );
}

#[test]
fn unbounded_limit_skips_the_check() {
    let mut ctx = write_context();
    let (_, request) = WriteLimitProbe::new(&mut ctx, None, "memory".to_owned());
    assert_eq!(request, LimitRequest::Finish);
    assert_eq!(
        recorded(&ctx),
        Some(ContractCheckOutcome::SkippedOptional {
            reason: "write limit is not finite or exceeds the bounded probe budget".to_owned()
        })
    );
}

#[test]
fn probe_plan_needs_a_finite_limit_within_budget() {
    assert_eq!(bounded_probe_plan(Some(4), 8), Some((4, 5)));
    assert_eq!(bounded_probe_plan(Some(8), 8), None);
    assert_eq!(bounded_probe_plan(None, 8), None);
    assert_eq!(bounded_probe_plan(Some(u64::MAX), u64::MAX), None);
}
