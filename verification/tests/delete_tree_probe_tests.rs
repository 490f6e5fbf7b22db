use qubit_fs_testkit::ContractCheckId;
use qubit_fs_testkit::ContractCheckOutcome;
use qubit_fs_testkit::ContractContext;
use qubit_fs_testkit::FileSystemCapability;
use qubit_fs_testkit::FileSystemContract;
use qubit_fs_testkit::delete_tree_probe::DeleteTreeProbe;
use qubit_fs_testkit::delete_tree_probe::TreeEvent;
use qubit_fs_testkit::delete_tree_probe::TreeRequest;
use qubit_fs_testkit::fs_facts::ErrorFacts;
use qubit_fs_testkit::fs_facts::ErrorKind;
use qubit_fs_testkit::fs_facts::OperationKind;
use qubit_fs_testkit::fs_facts::Presence;
use qubit_fs_testkit::fs_facts::SeedOutcome;

fn delete_context() -> ContractContext {
    let mut ctx = ContractContext::new(true, true);
    ctx.prepare_phase(FileSystemContract::Delete, true);
    ctx
}

fn recorded(ctx: &ContractContext) -> Option<ContractCheckOutcome> {
    ctx.report()
        .checks()
        .iter()
        .find(|check| check.check_id() == ContractCheckId::DeleteTree)
        .map(|check| check.outcome().clone())
}

fn seeded_tree(ctx: &mut ContractContext) -> DeleteTreeProbe {
    let (mut probe, mut request) = DeleteTreeProbe::new(ctx, true, "memory".to_owned());
    let root = match &request {
        TreeRequest::SeedDirectory { name } => name.clone(),
        _ => panic!("the root directory is prepared first"),
    };
    assert!(root.ends_with("-recursive-delete-root"), "{root}");
    let expected = [
        TreeRequest::SeedDirectory { name: format!("{root}/nested") },
        TreeRequest::SeedFile { name: format!("{root}/child"), bytes: b"child" },
        TreeRequest::SeedFile { name: format!("{root}/nested/child"), bytes: b"child" },
    ];
    for (index, path) in ["/t", "/t/nested", "/t/child", "/t/nested/child"].iter().enumerate() {
        request = probe.advance(ctx, TreeEvent::Seeded(SeedOutcome::Supported((*path).to_owned())));
        if index < 3 {
            assert_eq!(request, expected[index]);
        }
    }
    assert_eq!(request, TreeRequest::Exists { path: "/t".to_owned() });
    assert_eq!(ctx.resource_count(), 4);
    probe
}

#[test]
fn whole_tree_must_be_gone_after_one_recursive_delete() {
    let mut ctx = delete_context();
    let mut probe = seeded_tree(&mut ctx);
    let mut request = TreeRequest::Finish;
    for _ in 0..4 {
        request = probe.advance(&mut ctx, TreeEvent::Observed(Presence::Present(true)));
    }
    assert_eq!(request, TreeRequest::DeleteTree { path: "/t".to_owned() });
    let request = probe.advance(&mut ctx, TreeEvent::Deleted(Ok(false)));
    assert_eq!(request, TreeRequest::Exists { path: "/t".to_owned() });
    let request = probe.advance(&mut ctx, TreeEvent::Observed(Presence::Present(false)));
    assert_eq!(request, TreeRequest::Exists { path: "/t/nested".to_owned() });
    probe.advance(&mut ctx, TreeEvent::Observed(Presence::Present(false)));
    probe.advance(&mut ctx, TreeEvent::Observed(Presence::Present(false)));
    assert_eq!(
        probe.advance(&mut ctx, TreeEvent::Observed(Presence::Present(false))),
        TreeRequest::Finish
    );
    assert_eq!(recorded(&ctx), Some(ContractCheckOutcome::Passed));
}

#[test]
fn remaining_child_fails_the_check() {
    let mut ctx = delete_context();
    let mut probe = seeded_tree(&mut ctx);
    for _ in 0..4 {
        probe.advance(&mut ctx, TreeEvent::Observed(Presence::Present(true)));
    }
    probe.advance(&mut ctx, TreeEvent::Deleted(Ok(false)));
    probe.advance(&mut ctx, TreeEvent::Observed(Presence::Present(false)));
    probe.advance(&mut ctx, TreeEvent::Observed(Presence::Present(false)));
    assert_eq!(
        probe.advance(&mut ctx, TreeEvent::Observed(Presence::Present(true))),
        TreeRequest::Fail {
            message: "delete/tree: child remained after removal or root remained after removal",
            with_error: false
        }
    );
    let mut ctx = delete_context();
    let mut probe = seeded_tree(&mut ctx);
    probe.advance(&mut ctx, TreeEvent::Observed(Presence::Present(true)));
    assert_eq!(
        probe.advance(&mut ctx, TreeEvent::Observed(Presence::Present(false))),
        TreeRequest::Fail {
            message: "recursive-delete seed must independently contain every entry",
            with_error: false
        }
    );
}

#[test]
fn unavailable_recursive_delete_must_be_refused_exactly() {
    let mut ctx = delete_context();
    let (mut probe, request) = DeleteTreeProbe::new(&mut ctx, false, "memory".to_owned());
    assert!(matches!(request, TreeRequest::ResolvePath { .. }));
    let request = probe.advance(&mut ctx, TreeEvent::Resolved(Some("/t".to_owned())));
    assert_eq!(request, TreeRequest::DeleteTree { path: "/t".to_owned() });
    let refused = ErrorFacts {
        kind: ErrorKind::RequirementNotMet,
        operation: OperationKind::Delete,
        path: Some("/t".into()),
        target: None,
        provider: Some("memory".into()),
        required_capability: Some(FileSystemCapability::RecursiveDelete),
    };
    assert_eq!(probe.advance(&mut ctx, TreeEvent::Deleted(Err(refused))), TreeRequest::Finish);
    assert_eq!(recorded(&ctx), Some(ContractCheckOutcome::RejectedAsExpected));
    let mut ctx = delete_context();
    let (mut probe, _) = DeleteTreeProbe::new(&mut ctx, true, "memory".to_owned());
    probe.advance(&mut ctx, TreeEvent::Seeded(SeedOutcome::Supported("/t".to_owned())));
    probe.advance(&mut ctx, TreeEvent::Seeded(SeedOutcome::Supported("/t/nested".to_owned())));
    assert_eq!(probe.advance(&mut ctx, TreeEvent::Seeded(SeedOutcome::Unsupported)), TreeRequest::Finish);
    assert_eq!(
        recorded(&ctx),
        Some(ContractCheckOutcome::Unverified {
            reason: "recursive deletion requires independently prepared children".to_owned()
        })
    );
}
