use qubit_fs_testkit::TeardownResult;
use qubit_fs_testkit::cleanup_summary;
use qubit_fs_testkit::CleanupAction;
use qubit_fs_testkit::CleanupCause;
use qubit_fs_testkit::CleanupEvent;
use qubit_fs_testkit::CleanupOperation;
use qubit_fs_testkit::ContractCheckId;
use qubit_fs_testkit::ContractCheckOutcome;
use qubit_fs_testkit::ContractContext;
use qubit_fs_testkit::ContractFailure;
use qubit_fs_testkit::ContractRun;
use qubit_fs_testkit::ContractSource;
use qubit_fs_testkit::ContractTempFailure;
use qubit_fs_testkit::FileSystemContract;

#[derive(Debug)]
struct Broken(&'static str);

impl std::fmt::Display for Broken {
    fn fmt(&self, formatter: &mut std::fmt::Formatter<'_>) -> std::fmt::Result {
        formatter.write_str(self.0)
    }
}

impl std::error::Error for Broken {}

#[test]
fn fresh_run_is_not_satisfied() {
    let run = ContractRun::new();
    assert!(!run.requirements_satisfied());
    assert!(!run.was_interrupted());
    assert_eq!(
        run.incomplete_message(&[]).unwrap(),
        "[fs-testkit:run] completed=false cleanup_completed=false: "
    );
    assert_eq!(
        run.assert_satisfied(),
        Err("[fs-testkit:run] completed=false cleanup_completed=false: ".to_owned())
    );
}

#[test]
fn completed_run_with_evidence_is_satisfied() {
    let mut run = ContractRun::new();
    assert!(run.begin_session());
    assert!(run.was_interrupted());
    run.register_check(ContractCheckId::ReadBasic, None);
    run.record_check(ContractCheckId::ReadBasic, None, ContractCheckOutcome::Passed);
    run.start_cleanup();
    run.finish_cleanup();
    run.mark_completed();
    assert!(!run.was_interrupted());
    assert!(run.requirements_satisfied());
    assert!(run.all_applicable_checks_verified());
    assert!(run.incomplete_message(&[]).is_none());
    assert_eq!(run.assert_satisfied(), Ok(()));
    assert_eq!(
        run.assert_satisfied_with(&[ContractCheckId::WriteBasic]),
        Err("[fs-testkit:report/incomplete] unverified checks: write/basic (requested probe is outside this run)"
            .to_owned())
    );
    assert_eq!(run.cleanup().attempts(), 1);
}

#[test]
fn second_session_is_refused() {
    let mut run = ContractRun::new();
    assert!(run.begin_session());
    assert!(!run.begin_session());
    assert_eq!(run.failures().len(), 1);
    assert_eq!(
        run.failures()[0].message(),
        "session already started; create a fresh fixture for another run"
    );
}

#[test]
fn attributed_failure_fails_its_check() {
    let mut run = ContractRun::new();
    run.begin_session();
    run.register_check(ContractCheckId::WriteBasic, None);
    run.fail(ContractFailure::message_only("payload mismatch".to_owned()).at(ContractCheckId::WriteBasic));
    run.start_cleanup();
    run.finish_cleanup();
    run.mark_completed();
    assert!(!run.requirements_satisfied());
    assert_eq!(
        run.report().checks()[0].outcome(),
        &ContractCheckOutcome::Failed {
            reason: "payload mismatch".to_owned()
        }
    );
    assert_eq!(
        run.incomplete_message(&[]).unwrap(),
        "[fs-testkit:run] completed=true cleanup_completed=true: write/basic: payload mismatch"
    );
}

#[test]
fn cleanup_failure_survives_a_later_attempt() {
    let mut run = ContractRun::new();
    run.begin_session();
    run.register_check(ContractCheckId::StatBasic, None);
    run.record_check(ContractCheckId::StatBasic, None, ContractCheckOutcome::Passed);
    run.start_cleanup();
    run.record_cleanup_failure(ContractFailure::message_only("delete refused".to_owned()));
    run.finish_cleanup();
    run.start_cleanup();
    run.finish_cleanup();
    run.mark_completed();
    assert_eq!(run.cleanup().attempts(), 2);
    assert_eq!(run.cleanup().failures().len(), 1);
    assert!(!run.requirements_satisfied());
}

#[test]
fn failure_display_and_panic_messages() {
    let plain = ContractFailure::message_only("context".to_owned());
    assert_eq!(plain.to_display_string(), "context");
    assert_eq!(plain.check(), None);
    let failure = ContractFailure::panicked("contract execution panicked", "boom".to_owned());
    assert_eq!(failure.message(), "contract execution panicked: boom");
    let payload = failure.take_panic_payload().unwrap();
    assert_eq!(payload.downcast::<String>().ok().as_deref(), Some("boom"));
    assert!(failure.take_panic_payload().is_none());
    let literal = ContractFailure::panicked("contract execution panicked", "static boom");
    assert_eq!(literal.message(), "contract execution panicked: static boom");
    let caught: Box<dyn std::any::Any + Send> = Box::new(7i32);
    let erased = ContractFailure::panicked("contract execution panicked", caught);
    assert_eq!(erased.message(), "contract execution panicked: non-string panic payload retained");
    assert_eq!(erased.take_panic_payload().unwrap().downcast::<i32>().ok(), Some(7));
    let caught_text: Box<dyn std::any::Any + Send> = Box::new("worker failed");
    let erased_text = ContractFailure::panicked("contract execution panicked", caught_text);
    assert_eq!(erased_text.message(), "contract execution panicked: worker failed");
    let opaque = ContractFailure::panicked("cleanup failed", ());
    assert_eq!(opaque.message(), "cleanup failed: non-string panic payload retained");
    assert_eq!(
        qubit_fs_testkit::panic_text("cleanup failed", Some("disk gone")),
        "cleanup failed: disk gone"
    );
    assert_eq!(
        qubit_fs_testkit::panic_text("cleanup failed", None),
        "cleanup failed: non-string panic payload retained"
    );
}

#[test]
fn failure_keeps_typed_sources() {
    let failure = ContractFailure::with_source("observation failed".to_owned(), Broken("disk"));
    assert_eq!(failure.source().unwrap().downcast_ref::<Broken>().unwrap().0, "disk");
    let owned = ContractFailure::with_owned_source("writer lost".to_owned(), Broken("writer"));
    let source = owned.owned_source().unwrap();
    assert_eq!(source.inspect(|error| error.downcast_ref::<Broken>().map(|e| e.0)), Some(Some("writer")));
    let taken = source.take().unwrap();
    assert_eq!(taken.downcast::<Broken>().ok().unwrap().0, "writer");
    assert!(source.take().is_none());
    assert!(source.inspect(|_| ()).is_none());
}

#[test]
fn temp_failure_returns_its_resource() {
    let mut failure = ContractTempFailure::new(Broken("persist"), vec![1u8, 2]);
    assert_eq!(failure.resource(), &vec![1, 2]);
    failure.resource_mut().push(3);
    assert_eq!(failure.error().downcast_ref::<Broken>().unwrap().0, "persist");
    let (error, resource) = failure.into_parts();
    assert_eq!(resource, vec![1, 2, 3]);
    assert!(error.downcast::<Broken>().is_ok());
    let source = ContractSource::new(Broken("x"));
    assert_eq!(
        source.to_display_string(),
        "original provider failure; inspect the retained source for recovery"
    );
}

#[test]
fn relative_names_are_unique_per_phase() {
    let mut context = ContractContext::new(true, false);
    assert_eq!(context.current_contract(), "initialization");
    context.begin("write/basic");
    assert_eq!(context.relative_name("payload"), "write-basic-1-payload");
    context.begin("read/range");
    assert_eq!(context.relative_name("payload"), "read-range-2-payload");
    for _ in 0..10 {
        context.begin("x/y/z");
    }
    assert_eq!(context.relative_name("a"), "x-y-z-12-a");
}

#[test]
fn resources_keep_their_first_owner() {
    let mut context = ContractContext::new(true, true);
    context.begin("write/basic");
    context.record_created("a".to_owned());
    context.record_resource("b".to_owned(), "copy/basic");
    context.record_resource("a".to_owned(), "delete/basic");
    assert_eq!(context.resource_count(), 2);
    assert_eq!(context.resource(0).owner_check(), "write/basic");
    assert_eq!(context.resource(0).creation_index(), 1);
    assert_eq!(context.resource(1).path(), "b");
    assert_eq!(context.resource(1).creation_index(), 2);
    context.release_resource(0);
    assert_eq!(context.resource_count(), 1);
    assert_eq!(context.resource(0).path(), "b");
}

#[test]
fn cleanup_decisions_follow_observations() {
    let context = ContractContext::new(true, true);
    assert!(context.cleanup_enabled());
    assert_eq!(context.next_cleanup_action(CleanupEvent::StatMissing), CleanupAction::Release);
    assert_eq!(
        context.next_cleanup_action(CleanupEvent::StatFound { directory: true }),
        CleanupAction::DeleteDirectory { recursive: true }
    );
    assert_eq!(
        context.next_cleanup_action(CleanupEvent::StatFound { directory: false }),
        CleanupAction::DeleteFile
    );
    assert_eq!(context.next_cleanup_action(CleanupEvent::DeleteSucceeded), CleanupAction::Verify);
    assert_eq!(
        context.next_cleanup_action(CleanupEvent::VerifyStillPresent),
        CleanupAction::Retain {
            operation: CleanupOperation::Delete,
            cause: CleanupCause::StillPresent
        }
    );
    let flat = ContractContext::new(false, false);
    assert!(!flat.cleanup_enabled());
    assert_eq!(
        flat.next_cleanup_action(CleanupEvent::StatFound { directory: true }),
        CleanupAction::DeleteDirectory { recursive: false }
    );
    assert_eq!(
        qubit_fs_testkit::cleanup_message(
            CleanupOperation::Stat,
            "stat/basic",
            Some("Path { text: \"/run/a\" }"),
            CleanupCause::ProviderPanicked
        ),
        "[fs-testkit:cleanup/stat] owner=stat/basic path=Some(Path { text: \"/run/a\" }): provider panicked during cleanup"
    );
    assert_eq!(
        qubit_fs_testkit::cleanup_message(CleanupOperation::Delete, "copy/basic", None, CleanupCause::StillPresent),
        "[fs-testkit:cleanup/delete] owner=copy/basic path=None: delete reported success but the resource still exists"
    );
    let path = qubit_fs::Path::parse("/run/a").unwrap();
    let rendered = format!("{:?}", path);
    assert_eq!(
        qubit_fs_testkit::cleanup_message(
            CleanupOperation::Delete,
            "copy/basic",
            Some(&rendered),
            CleanupCause::Unverifiable
        ),
        format!(
            "[fs-testkit:cleanup/delete] owner=copy/basic path={:?}: delete outcome could not be verified",
            Some(path)
        )
    );
}

#[test]
fn phases_register_their_catalog_entries() {
    let mut context = ContractContext::new(true, true);
    context.prepare_phase(FileSystemContract::Stat, true);
    assert_eq!(context.report().checks().len(), 2);
    assert_eq!(context.report().checks()[0].id(), "stat/basic");
    assert_eq!(context.report().checks()[1].id(), "stat/file-kind");
    assert!(!context.report().requirements_satisfied());
    context.record_check(ContractCheckId::StatBasic, None, ContractCheckOutcome::Passed);
    context.record_check(ContractCheckId::StatFileKind, None, ContractCheckOutcome::Passed);
    assert!(context.report().requirements_satisfied());
}

#[test]
fn cleanup_summary_joins_failures_and_teardown() {
    assert_eq!(cleanup_summary(Vec::new(), &TeardownResult::Completed), None);
    assert_eq!(
        cleanup_summary(vec!["a".to_owned(), "b".to_owned()], &TeardownResult::Completed),
        Some("a; b".to_owned())
    );
    assert_eq!(
        cleanup_summary(vec!["a".to_owned()], &TeardownResult::Failed("gone".to_owned())),
        Some("a; [fs-testkit:cleanup/teardown] gone".to_owned())
    );
    assert_eq!(
        cleanup_summary(Vec::new(), &TeardownResult::Panicked),
        Some("[fs-testkit:cleanup/teardown] fixture teardown panicked".to_owned())
    );
}

#[test]
fn failures_without_causes_hold_no_source_or_payload() {
    let plain = ContractFailure::message_only("context".to_owned()).at(qubit_fs_testkit::ContractCheckId::ReadBasic);
    assert!(plain.source().is_none());
    assert!(plain.owned_source().is_none());
    assert!(plain.take_panic_payload().is_none());
    let shared = ContractFailure::with_source("observation failed".to_owned(), Broken("disk"));
    assert!(shared.owned_source().is_none());
    assert!(shared.take_panic_payload().is_none());
    let panicked = ContractFailure::panicked("cleanup failed", 3u8).at(qubit_fs_testkit::ContractCheckId::ReadBasic);
    assert!(panicked.source().is_none());
    assert!(panicked.take_panic_payload().is_some());
}

#[test]
fn cleanup_failures_are_only_appended_across_attempts() {
    let mut ctx = ContractContext::new(true, true);
    ctx.start_cleanup();
    ctx.record_cleanup_failure(ContractFailure::message_only("first delete refused".to_owned()));
    ctx.finish_cleanup();
    let before: Vec<String> = ctx.run().cleanup().failures().iter().map(|f| f.message().to_owned()).collect();
    ctx.start_cleanup();
    ctx.record_cleanup_failure(ContractFailure::message_only("second delete refused".to_owned()));
    ctx.finish_cleanup();
    ctx.start_cleanup();
    ctx.finish_cleanup();
    let after: Vec<String> = ctx.run().cleanup().failures().iter().map(|f| f.message().to_owned()).collect();
    assert_eq!(before, vec!["first delete refused".to_owned()]);
    assert_eq!(after[..before.len()], before[..]);
    assert_eq!(after.len(), 2);
    assert_eq!(ctx.run().cleanup().attempts(), 3);
    assert!(ctx.run().cleanup().completed());
}

#[test]
fn inspection_reaching_the_same_source_sees_it_taken() {
    let owned = ContractFailure::with_owned_source("writer lost".to_owned(), Broken("writer"));
    let source = owned.owned_source().unwrap();
    let nested = source.inspect(|_| source.inspect(|_| ()).is_none());
    assert_eq!(nested, Some(true));
    assert!(source.inspect(|_| ()).is_some());
}
