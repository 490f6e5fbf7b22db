use qubit_fs_testkit::ContractCheckId;
use qubit_fs_testkit::ContractCheckOutcome;
use qubit_fs_testkit::ContractContext;
use qubit_fs_testkit::FileSystemCapability;
use qubit_fs_testkit::FileSystemContract;
use qubit_fs_testkit::fs_facts::Contents;
use qubit_fs_testkit::fs_facts::ErrorFacts;
use qubit_fs_testkit::fs_facts::ErrorKind;
use qubit_fs_testkit::fs_facts::OpenRejection;
use qubit_fs_testkit::fs_facts::OpenStage;
use qubit_fs_testkit::fs_facts::OperationKind;
use qubit_fs_testkit::fs_facts::PersistRejection;
use qubit_fs_testkit::fs_facts::PersistState;
use qubit_fs_testkit::fs_facts::Presence;
use qubit_fs_testkit::fs_facts::RenameState;
use qubit_fs_testkit::fs_facts::SeedOutcome;
use qubit_fs_testkit::fs_facts::TempState;
use qubit_fs_testkit::rename_probe::RenameEvent;
use qubit_fs_testkit::rename_probe::RenameProbe;
use qubit_fs_testkit::rename_probe::RenameRejection;
use qubit_fs_testkit::rename_probe::RenameReport;
use qubit_fs_testkit::rename_probe::RenameRequest;
use qubit_fs_testkit::representation_probe::MetadataFacts;
use qubit_fs_testkit::representation_probe::RepresentationEvent;
use qubit_fs_testkit::representation_probe::RepresentationProbe;
use qubit_fs_testkit::representation_probe::RepresentationRequest;
use qubit_fs_testkit::temp_directory_probe::Atomicity;
use qubit_fs_testkit::temp_directory_probe::Attachment;
use qubit_fs_testkit::temp_directory_probe::ProbeStage;
use qubit_fs_testkit::temp_directory_probe::Publication;
use qubit_fs_testkit::temp_directory_probe::ResourceSlot;
use qubit_fs_testkit::temp_directory_probe::TempDirectoryProbe;
use qubit_fs_testkit::temp_directory_probe::TempEvent;
use qubit_fs_testkit::temp_directory_probe::TempRequest;
use qubit_fs_testkit::temp_items::TempItemPlan;
use qubit_fs_testkit::temp_items::temp_checks;
use qubit_fs_testkit::temp_items::temp_item_outcome;
use qubit_fs_testkit::temp_items::temp_item_plan;

fn facts(kind: ErrorKind, operation: OperationKind) -> ErrorFacts {
    ErrorFacts {
        kind,
        operation,
        path: None,
        target: None,
        provider: None,
        required_capability: None,
    }
}

fn step(probe: &mut TempDirectoryProbe, ctx: &mut ContractContext, event: TempEvent) -> TempRequest {
    assert!(probe.expects(&event));
    probe.advance(ctx, event)
}

fn create(into: ResourceSlot, parent: Option<&str>, labelled: bool) -> TempRequest {
    TempRequest::Create {
        into,
        parent: parent.map(str::to_owned),
        labelled,
    }
}

fn observe(path: &str) -> TempRequest {
    TempRequest::Observe { path: path.to_owned() }
}

fn started(contract: &str) -> ContractContext {
    let mut ctx = ContractContext::new(true, true);
    ctx.begin(contract);
    ctx
}

#[test]
fn basic_temp_directory_probe_walks_every_lifecycle_step() {
    let mut ctx = started("temp/directory");
    let (mut probe, first) = TempDirectoryProbe::new(ContractCheckId::TempDirectory, true, true, false, "memory".into());
    assert_eq!(first, TempRequest::ParseInvalidParent);
    let invalid = "/temp-invalid-parent";
    assert_eq!(
        step(&mut probe, &mut ctx, TempEvent::Parsed(Some(invalid.into()))),
        create(ResourceSlot::Temporary, Some(invalid), false)
    );
    let mut rejected = facts(ErrorKind::InvalidPath, OperationKind::CreateTemp);
    rejected.path = Some(invalid.into());
    let rejection = OpenRejection {
        error: rejected,
        stage: OpenStage::Preflight,
        recovery: false,
    };
    assert_eq!(
        step(&mut probe, &mut ctx, TempEvent::CreateRejected(rejection)),
        TempRequest::SeedDirectory {
            name: "temp-directory-1-temp-directory-parent".into()
        }
    );
    assert_eq!(
        step(&mut probe, &mut ctx, TempEvent::Seeded(SeedOutcome::Supported("/parent//".into()))),
        create(ResourceSlot::Temporary, Some("/parent//"), true)
    );
    let labelled = "/parent/contract-directory-7.tmp";
    assert_eq!(
        step(&mut probe, &mut ctx, TempEvent::Created(labelled.into())),
        TempRequest::Cleanup {
            slot: ResourceSlot::Temporary
        }
    );
    assert_eq!(
        step(&mut probe, &mut ctx, TempEvent::CleanedUp { result: Ok(()), state: TempState::Cleaned }),
        observe(labelled)
    );
    assert_eq!(
        step(&mut probe, &mut ctx, TempEvent::Observed(Presence::Present(false))),
        create(ResourceSlot::Temporary, None, false)
    );
    assert_eq!(
        step(&mut probe, &mut ctx, TempEvent::Created("/t2".into())),
        TempRequest::Keep {
            slot: ResourceSlot::Temporary
        }
    );
    assert_eq!(
        step(&mut probe, &mut ctx, TempEvent::Kept { result: Ok("/kept".into()), state: TempState::Kept }),
        observe("/t2")
    );
    assert_eq!(step(&mut probe, &mut ctx, TempEvent::Observed(Presence::Present(false))), observe("/kept"));
    assert_eq!(
        step(&mut probe, &mut ctx, TempEvent::Observed(Presence::Present(true))),
        create(ResourceSlot::Temporary, None, false)
    );
    assert_eq!(
        step(&mut probe, &mut ctx, TempEvent::Created("/t3".into())),
        TempRequest::ResolvePath {
            name: "temp-directory-1-persisted-directory".into()
        }
    );
    assert_eq!(
        step(&mut probe, &mut ctx, TempEvent::Resolved(Some("/persisted".into()))),
        TempRequest::Persist {
            slot: ResourceSlot::Temporary,
            target: "/persisted".into(),
            atomicity: Atomicity::Preferred,
            overwrite: false,
        }
    );
    let published = Publication {
        target: "/persisted".into(),
        atomic: false,
    };
    assert_eq!(
        step(&mut probe, &mut ctx, TempEvent::Persisted { result: Ok(published), state: TempState::Persisted }),
        observe("/t3")
    );
    assert_eq!(step(&mut probe, &mut ctx, TempEvent::Observed(Presence::Present(false))), observe("/persisted"));
    assert_eq!(
        step(&mut probe, &mut ctx, TempEvent::Observed(Presence::Present(true))),
        TempRequest::SeedDirectory {
            name: "temp-directory-1-temp-overwritten-directory".into()
        }
    );
    assert_eq!(
        step(&mut probe, &mut ctx, TempEvent::Seeded(SeedOutcome::Supported("/over".into()))),
        create(ResourceSlot::Replacement, None, false)
    );
    assert_eq!(
        step(&mut probe, &mut ctx, TempEvent::Created("/t4".into())),
        TempRequest::Persist {
            slot: ResourceSlot::Replacement,
            target: "/over".into(),
            atomicity: Atomicity::Preferred,
            overwrite: true,
        }
    );
    let replaced = Publication {
        target: "/over".into(),
        atomic: true,
    };
    assert_eq!(
        step(&mut probe, &mut ctx, TempEvent::Persisted { result: Ok(replaced), state: TempState::Persisted }),
        observe("/t4")
    );
    assert_eq!(step(&mut probe, &mut ctx, TempEvent::Observed(Presence::Present(false))), observe("/over"));
    assert_eq!(
        step(&mut probe, &mut ctx, TempEvent::Observed(Presence::Present(true))),
        TempRequest::Finish
    );
    assert_eq!(probe.stage(), ProbeStage::Finished);
    assert!(!probe.expects(&TempEvent::Observed(Presence::Present(true))));
    let recorded: Vec<&str> = (0..ctx.resource_count()).map(|index| ctx.resource(index).path()).collect();
    assert_eq!(
        recorded,
        vec!["/parent//", labelled, "/t2", "/kept", "/t3", "/persisted", "/over", "/t4"]
    );
    assert_eq!(ctx.resource(0).owner_check(), "temp/directory");
}

#[test]
fn temp_probe_rejects_source_outside_requested_parent() {
    let mut ctx = started("temp/directory");
    let (mut probe, _) = TempDirectoryProbe::new(ContractCheckId::TempDirectory, true, true, false, "memory".into());
    step(&mut probe, &mut ctx, TempEvent::Parsed(Some("/bad".into())));
    let mut rejected = facts(ErrorKind::InvalidPath, OperationKind::CreateTemp);
    rejected.path = Some("/bad".into());
    step(
        &mut probe,
        &mut ctx,
        TempEvent::CreateRejected(OpenRejection {
            error: rejected,
            stage: OpenStage::Preflight,
            recovery: false,
        }),
    );
    step(&mut probe, &mut ctx, TempEvent::Seeded(SeedOutcome::Supported("/parent".into())));
    assert_eq!(
        step(&mut probe, &mut ctx, TempEvent::Created("/parentx/contract-directory-1.tmp".into())),
        TempRequest::Fail {
            message: "temporary resource ignored requested parent",
            attachment: Attachment::Nothing,
        }
    );
}

#[test]
fn temp_probe_checks_invalid_parent_rejection_facts() {
    let mut ctx = started("temp/directory");
    let (mut probe, _) = TempDirectoryProbe::new(ContractCheckId::TempDirectory, true, false, false, "memory".into());
    step(&mut probe, &mut ctx, TempEvent::Parsed(Some("/bad".into())));
    let mut rejected = facts(ErrorKind::InvalidPath, OperationKind::CreateTemp);
    rejected.path = Some("/bad".into());
    let accepted = OpenRejection {
        error: rejected,
        stage: OpenStage::Preflight,
        recovery: false,
    };
    assert_eq!(
        step(&mut probe, &mut ctx, TempEvent::CreateRejected(accepted)),
        create(ResourceSlot::Temporary, None, true)
    );
    assert_eq!(
        step(&mut probe, &mut ctx, TempEvent::Created("/contract-directory-1.tmpx".into())),
        TempRequest::Fail {
            message: "temp/directory: requested prefix or suffix was ignored",
            attachment: Attachment::Nothing,
        }
    );

    let (mut other, _) = TempDirectoryProbe::new(ContractCheckId::TempDirectory, true, false, false, "memory".into());
    step(&mut other, &mut ctx, TempEvent::Parsed(Some("/bad".into())));
    let late = OpenRejection {
        error: facts(ErrorKind::InvalidPath, OperationKind::CreateTemp),
        stage: OpenStage::ProviderOpen,
        recovery: false,
    };
    assert_eq!(
        step(&mut other, &mut ctx, TempEvent::CreateRejected(late)),
        TempRequest::Fail {
            message: "temporary parent validation differs",
            attachment: Attachment::FacadeError,
        }
    );

    let (mut third, _) = TempDirectoryProbe::new(ContractCheckId::TempDirectory, true, false, false, "memory".into());
    step(&mut third, &mut ctx, TempEvent::Parsed(Some("/bad".into())));
    assert_eq!(
        step(&mut third, &mut ctx, TempEvent::Created("/bad/x".into())),
        TempRequest::Fail {
            message: "invalid temporary parent succeeded",
            attachment: Attachment::AcceptedResource(ResourceSlot::Temporary),
        }
    );
}

#[test]
fn temp_probe_without_capability_expects_preflight_rejection() {
    let mut ctx = started("temp/directory");
    let (mut probe, first) =
        TempDirectoryProbe::new(ContractCheckId::TempDirectory, false, true, true, "memory".into());
    assert_eq!(first, create(ResourceSlot::Temporary, None, false));
    let mut unsupported = facts(ErrorKind::UnsupportedCapability, OperationKind::CreateTemp);
    unsupported.required_capability = Some(FileSystemCapability::TempDirectory);
    let rejection = OpenRejection {
        error: unsupported,
        stage: OpenStage::Preflight,
        recovery: false,
    };
    assert_eq!(
        step(&mut probe, &mut ctx, TempEvent::CreateRejected(rejection)),
        TempRequest::Finish
    );

    let (mut wrong, _) = TempDirectoryProbe::new(ContractCheckId::TempAtomic, false, true, true, "memory".into());
    let rejection = OpenRejection {
        error: facts(ErrorKind::UnsupportedCapability, OperationKind::CreateTemp),
        stage: OpenStage::Preflight,
        recovery: false,
    };
    assert_eq!(
        step(&mut wrong, &mut ctx, TempEvent::CreateRejected(rejection)),
        TempRequest::Fail {
            message: "temporary creation rejection differs",
            attachment: Attachment::FacadeError,
        }
    );

    let (mut created, _) = TempDirectoryProbe::new(ContractCheckId::TempFile, false, true, true, "memory".into());
    assert_eq!(
        step(&mut created, &mut ctx, TempEvent::Created("/t".into())),
        TempRequest::Fail {
            message: "unavailable temporary creation succeeded",
            attachment: Attachment::Nothing,
        }
    );
    assert_eq!(ctx.resource_count(), 1);
}

#[test]
fn atomic_probe_without_atomic_publication_inspects_the_rejection() {
    let mut ctx = started("temp/atomic");
    let (mut probe, _) = TempDirectoryProbe::new(ContractCheckId::TempAtomic, true, true, false, "memory".into());
    assert_eq!(
        step(&mut probe, &mut ctx, TempEvent::Created("/src".into())),
        TempRequest::ResolvePath {
            name: "temp-atomic-1-persisted-directory".into()
        }
    );
    assert_eq!(
        step(&mut probe, &mut ctx, TempEvent::Resolved(Some("/dst".into()))),
        TempRequest::Persist {
            slot: ResourceSlot::Temporary,
            target: "/dst".into(),
            atomicity: Atomicity::Required,
            overwrite: false,
        }
    );
    let error = ErrorFacts {
        kind: ErrorKind::RequirementNotMet,
        operation: OperationKind::PersistTemp,
        path: Some("/src".into()),
        target: Some("/dst".into()),
        provider: Some("memory".into()),
        required_capability: Some(FileSystemCapability::AtomicTempPersist),
    };
    let rejection = PersistRejection {
        error,
        state: PersistState::NotPublished,
        publication_target: None,
    };
    assert_eq!(
        step(
            &mut probe,
            &mut ctx,
            TempEvent::Persisted { result: Err(rejection), state: TempState::Owned }
        ),
        observe("/src")
    );
    assert_eq!(step(&mut probe, &mut ctx, TempEvent::Observed(Presence::Present(true))), observe("/dst"));
    assert_eq!(
        step(&mut probe, &mut ctx, TempEvent::Observed(Presence::Present(false))),
        TempRequest::Cleanup {
            slot: ResourceSlot::Temporary
        }
    );
    assert_eq!(
        step(&mut probe, &mut ctx, TempEvent::CleanedUp { result: Ok(()), state: TempState::Cleaned }),
        observe("/src")
    );
    assert_eq!(
        step(&mut probe, &mut ctx, TempEvent::Observed(Presence::Unsupported)),
        TempRequest::Fail {
            message: "atomic rejection cleanup retained source",
            attachment: Attachment::Nothing,
        }
    );
}

#[test]
fn atomic_probe_rejects_a_wrong_provider() {
    let mut ctx = started("temp/atomic");
    let (mut probe, _) = TempDirectoryProbe::new(ContractCheckId::TempAtomic, true, true, false, "memory".into());
    step(&mut probe, &mut ctx, TempEvent::Created("/src".into()));
    step(&mut probe, &mut ctx, TempEvent::Resolved(Some("/dst".into())));
    let error = ErrorFacts {
        kind: ErrorKind::RequirementNotMet,
        operation: OperationKind::PersistTemp,
        path: Some("/src".into()),
        target: Some("/dst".into()),
        provider: Some("other".into()),
        required_capability: Some(FileSystemCapability::AtomicTempPersist),
    };
    let rejection = PersistRejection {
        error,
        state: PersistState::NotPublished,
        publication_target: None,
    };
    assert_eq!(
        step(
            &mut probe,
            &mut ctx,
            TempEvent::Persisted { result: Err(rejection), state: TempState::Owned }
        ),
        TempRequest::Fail {
            message: "atomic persistence rejection differs",
            attachment: Attachment::FacadeErrorWithResource(ResourceSlot::Temporary),
        }
    );
}

#[test]
fn repeated_lifecycle_probe_requires_invalid_state_answers() {
    let mut ctx = started("temp/repeated-lifecycle");
    let (mut probe, _) =
        TempDirectoryProbe::new(ContractCheckId::TempRepeatedLifecycle, true, true, true, "memory".into());
    assert_eq!(
        step(&mut probe, &mut ctx, TempEvent::Created("/t".into())),
        TempRequest::Keep {
            slot: ResourceSlot::Temporary
        }
    );
    step(&mut probe, &mut ctx, TempEvent::Kept { result: Ok("/k".into()), state: TempState::Kept });
    step(&mut probe, &mut ctx, TempEvent::Observed(Presence::Present(false)));
    assert_eq!(
        step(&mut probe, &mut ctx, TempEvent::Observed(Presence::Present(true))),
        TempRequest::Keep {
            slot: ResourceSlot::Temporary
        }
    );
    let second = PersistRejection {
        error: facts(ErrorKind::InvalidState, OperationKind::KeepTemp),
        state: PersistState::PublishedSourceReleased,
        publication_target: Some("/k".into()),
    };
    assert_eq!(
        step(&mut probe, &mut ctx, TempEvent::Kept { result: Err(second), state: TempState::Kept }),
        TempRequest::Cleanup {
            slot: ResourceSlot::Temporary
        }
    );
    let refused = facts(ErrorKind::InvalidState, OperationKind::CleanupTemp);
    assert_eq!(
        step(&mut probe, &mut ctx, TempEvent::CleanedUp { result: Err(refused), state: TempState::Kept }),
        observe("/k")
    );
    assert_eq!(
        step(&mut probe, &mut ctx, TempEvent::Observed(Presence::Present(true))),
        create(ResourceSlot::Cleaned, None, false)
    );
    assert_eq!(
        step(&mut probe, &mut ctx, TempEvent::Created("/c".into())),
        TempRequest::Cleanup {
            slot: ResourceSlot::Cleaned
        }
    );
    assert_eq!(
        step(&mut probe, &mut ctx, TempEvent::CleanedUp { result: Ok(()), state: TempState::Cleaned }),
        observe("/c")
    );
    assert_eq!(
        step(&mut probe, &mut ctx, TempEvent::Observed(Presence::Present(false))),
        TempRequest::Cleanup {
            slot: ResourceSlot::Cleaned
        }
    );
    let again = facts(ErrorKind::InvalidState, OperationKind::CleanupTemp);
    assert_eq!(
        step(&mut probe, &mut ctx, TempEvent::CleanedUp { result: Err(again), state: TempState::Cleaned }),
        TempRequest::Finish
    );
}

#[test]
fn repeated_lifecycle_probe_fails_when_second_keep_succeeds() {
    let mut ctx = started("temp/repeated-lifecycle");
    let (mut probe, _) =
        TempDirectoryProbe::new(ContractCheckId::TempRepeatedLifecycle, true, true, true, "memory".into());
    step(&mut probe, &mut ctx, TempEvent::Created("/t".into()));
    assert_eq!(
        step(&mut probe, &mut ctx, TempEvent::Kept { result: Ok("/t".into()), state: TempState::Kept }),
        TempRequest::Fail {
            message: "temporary keep state or publication identity differs",
            attachment: Attachment::Nothing,
        }
    );
    let (mut other, _) =
        TempDirectoryProbe::new(ContractCheckId::TempRepeatedLifecycle, true, true, true, "memory".into());
    step(&mut other, &mut ctx, TempEvent::Created("/t".into()));
    step(&mut other, &mut ctx, TempEvent::Kept { result: Ok("/k".into()), state: TempState::Kept });
    step(&mut other, &mut ctx, TempEvent::Observed(Presence::Present(false)));
    step(&mut other, &mut ctx, TempEvent::Observed(Presence::Present(true)));
    assert_eq!(
        step(&mut other, &mut ctx, TempEvent::Kept { result: Ok("/k".into()), state: TempState::Kept }),
        TempRequest::Fail {
            message: "temp/repeated-lifecycle: second keep succeeded",
            attachment: Attachment::Nothing,
        }
    );
}

#[test]
fn temp_items_plan_and_record_outcomes() {
    assert_eq!(
        temp_checks(),
        vec![
            ContractCheckId::TempFile,
            ContractCheckId::TempDirectory,
            ContractCheckId::TempAtomic,
            ContractCheckId::TempRepeatedLifecycle,
        ]
    );
    assert_eq!(
        temp_item_plan(ContractCheckId::TempAtomic, true, false).ok(),
        Some(TempItemPlan {
            run_file: true,
            run_directory: false
        })
    );
    assert_eq!(
        temp_item_plan(ContractCheckId::TempDirectory, true, false).ok(),
        Some(TempItemPlan {
            run_file: false,
            run_directory: true
        })
    );
    let refused = match temp_item_plan(ContractCheckId::ReadBasic, true, true) {
        Err(failure) => failure,
        Ok(plan) => panic!("unexpected plan {plan:?}"),
    };
    assert_eq!(refused.check(), Some(ContractCheckId::ReadBasic));
    assert_eq!(refused.message(), "selected entry is not temporary lifecycle");
    assert_eq!(
        temp_item_outcome(ContractCheckId::TempDirectory, true, false, true),
        ContractCheckOutcome::RejectedAsExpected
    );
    assert_eq!(
        temp_item_outcome(ContractCheckId::TempAtomic, false, false, true),
        ContractCheckOutcome::NotApplicable {
            reason: "no temporary resource capability".into()
        }
    );
    assert_eq!(
        temp_item_outcome(ContractCheckId::TempAtomic, true, false, false),
        ContractCheckOutcome::RejectedAsExpected
    );
    assert_eq!(
        temp_item_outcome(ContractCheckId::TempRepeatedLifecycle, false, true, false),
        ContractCheckOutcome::Passed
    );
}

fn rename_step(probe: &mut RenameProbe, ctx: &mut ContractContext, event: RenameEvent) -> RenameRequest {
    assert!(probe.expects(&event));
    probe.advance(ctx, event)
}

fn prepared(contract: FileSystemContract) -> ContractContext {
    let mut ctx = ContractContext::new(true, true);
    ctx.prepare_phase(contract, true);
    ctx
}

fn outcome_of(ctx: &ContractContext, id: ContractCheckId) -> Option<ContractCheckOutcome> {
    ctx.report()
        .checks()
        .iter()
        .find(|check| check.check_id() == id)
        .map(|check| check.outcome().clone())
}

#[test]
fn basic_rename_moves_independently_seeded_bytes() {
    let mut ctx = prepared(FileSystemContract::Rename);
    let (mut probe, first) = RenameProbe::new(&mut ctx, ContractCheckId::RenameBasic, true, false, false, "memory".into());
    assert_eq!(ctx.current_contract(), "rename/basic");
    assert_eq!(
        first,
        RenameRequest::SeedFile {
            name: "rename-basic-1-rename-source".into(),
            contents: "rename source"
        }
    );
    assert_eq!(
        rename_step(&mut probe, &mut ctx, RenameEvent::Seeded(SeedOutcome::Supported("/s".into()))),
        RenameRequest::ResolvePath {
            name: "rename-basic-1-rename-target".into()
        }
    );
    assert_eq!(
        rename_step(&mut probe, &mut ctx, RenameEvent::Resolved(Some("/t".into()))),
        RenameRequest::Read { path: "/s".into() }
    );
    assert_eq!(
        rename_step(&mut probe, &mut ctx, RenameEvent::Read(Contents::Bytes(b"rename source".to_vec()))),
        RenameRequest::Observe { path: "/t".into() }
    );
    let rename = RenameRequest::Rename {
        source: "/s".into(),
        target: "/t".into(),
        atomic: false,
        durable: false,
        overwrite: false,
    };
    assert_eq!(
        rename_step(&mut probe, &mut ctx, RenameEvent::Observed(Presence::Present(false))),
        rename
    );
    let report = RenameReport {
        source: "/s".into(),
        target: "/t".into(),
        atomic: false,
        durable: false,
    };
    assert_eq!(
        rename_step(&mut probe, &mut ctx, RenameEvent::Renamed(Ok(report))),
        RenameRequest::Observe { path: "/s".into() }
    );
    assert_eq!(
        rename_step(&mut probe, &mut ctx, RenameEvent::Observed(Presence::Present(false))),
        RenameRequest::Read { path: "/t".into() }
    );
    assert_eq!(
        rename_step(&mut probe, &mut ctx, RenameEvent::Read(Contents::Bytes(b"rename source".to_vec()))),
        RenameRequest::Finish
    );
    assert_eq!(outcome_of(&ctx, ContractCheckId::RenameBasic), Some(ContractCheckOutcome::Passed));
    assert_eq!(ctx.resource_count(), 2);
}

#[test]
fn conflicting_rename_overwrites_only_after_refusal() {
    let mut ctx = prepared(FileSystemContract::Rename);
    let (mut probe, _) = RenameProbe::new(&mut ctx, ContractCheckId::RenameConflict, true, false, false, "memory".into());
    assert_eq!(
        rename_step(&mut probe, &mut ctx, RenameEvent::Seeded(SeedOutcome::Supported("/s".into()))),
        RenameRequest::SeedFile {
            name: "rename-conflict-1-rename-target".into(),
            contents: "old target"
        }
    );
    rename_step(&mut probe, &mut ctx, RenameEvent::Seeded(SeedOutcome::Supported("/t".into())));
    assert_eq!(
        rename_step(&mut probe, &mut ctx, RenameEvent::Read(Contents::Bytes(b"rename source".to_vec()))),
        RenameRequest::Read { path: "/t".into() }
    );
    assert_eq!(
        rename_step(&mut probe, &mut ctx, RenameEvent::Read(Contents::Bytes(b"old target".to_vec()))),
        RenameRequest::Rename {
            source: "/s".into(),
            target: "/t".into(),
            atomic: false,
            durable: false,
            overwrite: false,
        }
    );
    let refused = RenameRejection {
        error: ErrorFacts {
            kind: ErrorKind::AlreadyExists,
            operation: OperationKind::Rename,
            path: Some("/s".into()),
            target: Some("/t".into()),
            provider: Some("memory".into()),
            required_capability: None,
        },
        state: RenameState::Unchanged,
    };
    assert_eq!(
        rename_step(&mut probe, &mut ctx, RenameEvent::Renamed(Err(refused))),
        RenameRequest::Read { path: "/s".into() }
    );
    rename_step(&mut probe, &mut ctx, RenameEvent::Read(Contents::Bytes(b"rename source".to_vec())));
    assert_eq!(
        rename_step(&mut probe, &mut ctx, RenameEvent::Read(Contents::Bytes(b"old target".to_vec()))),
        RenameRequest::Rename {
            source: "/s".into(),
            target: "/t".into(),
            atomic: false,
            durable: false,
            overwrite: true,
        }
    );
}

#[test]
fn rename_failures_carry_exact_diagnostics() {
    let mut ctx = prepared(FileSystemContract::Rename);
    let (mut replaced, _) =
        RenameProbe::new(&mut ctx, ContractCheckId::RenameConflict, true, false, false, "memory".into());
    rename_step(&mut replaced, &mut ctx, RenameEvent::Seeded(SeedOutcome::Supported("/s".into())));
    rename_step(&mut replaced, &mut ctx, RenameEvent::Seeded(SeedOutcome::Supported("/t".into())));
    rename_step(&mut replaced, &mut ctx, RenameEvent::Read(Contents::Bytes(b"rename source".to_vec())));
    rename_step(&mut replaced, &mut ctx, RenameEvent::Read(Contents::Bytes(b"old target".to_vec())));
    let report = RenameReport {
        source: "/s".into(),
        target: "/t".into(),
        atomic: false,
        durable: false,
    };
    assert_eq!(
        rename_step(&mut replaced, &mut ctx, RenameEvent::Renamed(Ok(report))),
        RenameRequest::Fail {
            message: "rename contract: default conflict replaced target",
            with_error: false
        }
    );

    let (mut aliased, _) = RenameProbe::new(&mut ctx, ContractCheckId::RenameBasic, true, false, false, "memory".into());
    rename_step(&mut aliased, &mut ctx, RenameEvent::Seeded(SeedOutcome::Supported("/s".into())));
    assert_eq!(
        rename_step(&mut aliased, &mut ctx, RenameEvent::Resolved(Some("/s".into()))),
        RenameRequest::Fail {
            message: "rename fixture requires distinct paths",
            with_error: false
        }
    );

    let (mut durable, _) =
        RenameProbe::new(&mut ctx, ContractCheckId::RenameDurable, true, true, true, "memory".into());
    rename_step(&mut durable, &mut ctx, RenameEvent::Seeded(SeedOutcome::Supported("/a".into())));
    rename_step(&mut durable, &mut ctx, RenameEvent::Resolved(Some("/b".into())));
    rename_step(&mut durable, &mut ctx, RenameEvent::Read(Contents::Bytes(b"rename source".to_vec())));
    assert_eq!(
        rename_step(&mut durable, &mut ctx, RenameEvent::Observed(Presence::Present(false))),
        RenameRequest::Rename {
            source: "/a".into(),
            target: "/b".into(),
            atomic: false,
            durable: true,
            overwrite: false,
        }
    );
    let report = RenameReport {
        source: "/a".into(),
        target: "/b".into(),
        atomic: true,
        durable: false,
    };
    assert_eq!(
        rename_step(&mut durable, &mut ctx, RenameEvent::Renamed(Ok(report))),
        RenameRequest::Fail {
            message: "rename/durable: required operation reported non-durable publication",
            with_error: false
        }
    );

    let (_, refused) = RenameProbe::new(&mut ctx, ContractCheckId::DeleteBasic, true, true, true, "memory".into());
    assert_eq!(
        refused,
        RenameRequest::Fail {
            message: "selected entry is not a rename check",
            with_error: false
        }
    );
}

#[test]
fn rename_without_capability_expects_preflight_refusal() {
    let mut ctx = prepared(FileSystemContract::Rename);
    let (_, conflict) = RenameProbe::new(&mut ctx, ContractCheckId::RenameConflict, false, false, false, "memory".into());
    assert_eq!(conflict, RenameRequest::Finish);
    assert_eq!(
        outcome_of(&ctx, ContractCheckId::RenameConflict),
        Some(ContractCheckOutcome::NotApplicable {
            reason: "Rename capability is unavailable".into()
        })
    );
    let (mut atomic, first) = RenameProbe::new(&mut ctx, ContractCheckId::RenameAtomic, true, false, true, "memory".into());
    assert_eq!(
        first,
        RenameRequest::ResolvePath {
            name: "rename-atomic-2-rename-source".into()
        }
    );
    assert_eq!(
        rename_step(&mut atomic, &mut ctx, RenameEvent::Resolved(Some("/a".into()))),
        RenameRequest::ResolvePath {
            name: "rename-atomic-2-rename-target".into()
        }
    );
    assert_eq!(
        rename_step(&mut atomic, &mut ctx, RenameEvent::Resolved(Some("/b".into()))),
        RenameRequest::Rename {
            source: "/a".into(),
            target: "/b".into(),
            atomic: true,
            durable: false,
            overwrite: false,
        }
    );
    let refused = RenameRejection {
        error: ErrorFacts {
            kind: ErrorKind::RequirementNotMet,
            operation: OperationKind::Rename,
            path: Some("/a".into()),
            target: Some("/b".into()),
            provider: Some("memory".into()),
            required_capability: Some(FileSystemCapability::AtomicRename),
        },
        state: RenameState::Unchanged,
    };
    assert_eq!(
        rename_step(&mut atomic, &mut ctx, RenameEvent::Renamed(Err(refused))),
        RenameRequest::Finish
    );
    assert_eq!(
        outcome_of(&ctx, ContractCheckId::RenameAtomic),
        Some(ContractCheckOutcome::RejectedAsExpected)
    );
}

#[test]
fn representation_checks_need_seeded_evidence() {
    let mut ctx = prepared(FileSystemContract::Representations);
    let (mut empty, first) = RepresentationProbe::new(&mut ctx, ContractCheckId::RepresentationEmpty, true, false);
    assert_eq!(
        first,
        RepresentationRequest::SeedEmptyDirectory {
            name: "representation-empty-1-empty-directory".into()
        }
    );
    let seeded = RepresentationEvent::Seeded(SeedOutcome::Supported("/e".into()));
    assert!(empty.expects(&seeded));
    assert_eq!(
        empty.advance(&mut ctx, seeded),
        RepresentationRequest::Stat { path: "/e".into() }
    );
    let facts = MetadataFacts {
        directory_like: true,
        symlink: false,
    };
    assert_eq!(
        empty.advance(&mut ctx, RepresentationEvent::Stat(Some(facts))),
        RepresentationRequest::Finish
    );
    assert_eq!(
        outcome_of(&ctx, ContractCheckId::RepresentationEmpty),
        Some(ContractCheckOutcome::Passed)
    );

    let (_, skipped) = RepresentationProbe::new(&mut ctx, ContractCheckId::RepresentationSymlink, true, false);
    assert_eq!(skipped, RepresentationRequest::Finish);
    assert_eq!(
        outcome_of(&ctx, ContractCheckId::RepresentationSymlink),
        Some(ContractCheckOutcome::NotApplicable {
            reason: "provider does not advertise this representation; no rejection was exercised".into()
        })
    );

    let (mut link, _) = RepresentationProbe::new(&mut ctx, ContractCheckId::RepresentationSymlink, false, true);
    link.advance(&mut ctx, RepresentationEvent::Seeded(SeedOutcome::Supported("/l".into())));
    let facts = MetadataFacts {
        directory_like: true,
        symlink: false,
    };
    assert_eq!(
        link.advance(&mut ctx, RepresentationEvent::Stat(Some(facts))),
        RepresentationRequest::Fail {
            message: "representation contract: seeded link kind mismatch",
            with_error: false
        }
    );
    let (_, refused) = RepresentationProbe::new(&mut ctx, ContractCheckId::ReadBasic, true, true);
    assert_eq!(
        refused,
        RepresentationRequest::Fail {
            message: "selected entry is not a representation check",
            with_error: false
        }
    );
}
