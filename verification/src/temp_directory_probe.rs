use vstd::prelude::*;

use crate::capability::FileSystemCapability;
use crate::contract_check_id::ContractCheckId;
use crate::contract_context::ContextView;
use crate::contract_context::ContractContext;
use crate::contract_context::relative_in;
use crate::contract_context::tracks;
use crate::contract_context::with_created;
use crate::fs_facts::ErrorFacts;
use crate::fs_facts::ErrorFactsView;
use crate::fs_facts::ErrorKind;
use crate::fs_facts::OpenRejection;
use crate::fs_facts::OpenStage;
use crate::fs_facts::OperationKind;
use crate::fs_facts::PersistRejection;
use crate::fs_facts::PersistState;
use crate::fs_facts::Presence;
use crate::fs_facts::SeedOutcome;
use crate::fs_facts::SeedView;
use crate::fs_facts::seed_view;
use crate::fs_facts::TempState;
use crate::fs_facts::capability_is;
use crate::fs_facts::text_is;
use crate::fs_facts::text_of;
use crate::s3::config::has_prefix;
use crate::s3::config::starts_with;
use crate::text::contains_text;
use crate::text::ends_with;
use crate::text::has_suffix;
use crate::text::has_text;
use crate::text::trim_slashes;
use crate::text::trimmed_of_slashes;

verus! {

/// A temporary directory handle that the driver holds for the probe.
#[derive(Clone, Copy, Debug, PartialEq, Eq, Structural)]
pub enum ResourceSlot {
    /// The resource under test.
    Temporary,
    /// The resource cleaned twice in the repeated-lifecycle scenario.
    Cleaned,
    /// The resource that overwrites an existing directory.
    Replacement,
}

/// The atomicity a publication asks for.
#[derive(Clone, Copy, Debug, PartialEq, Eq, Structural)]
pub enum Atomicity {
    /// Publication must be atomic.
    Required,
    /// Atomic publication is preferred.
    Preferred,
}

/// What the driver attaches to a failure as its source.
#[derive(Clone, Copy, Debug, PartialEq, Eq, Structural)]
pub enum Attachment {
    /// No source.
    Nothing,
    /// The error of the fixture call or path preparation just answered.
    CallError,
    /// The facade error just answered, owned.
    FacadeError,
    /// The facade error just answered, together with the resource it left.
    FacadeErrorWithResource(ResourceSlot),
    /// The resource a call should not have produced, with the note that it
    /// was accepted.
    AcceptedResource(ResourceSlot),
}

/// The next thing the driver does for the probe.
#[derive(Debug, PartialEq, Eq)]
pub enum TempRequest {
    /// Parse the invalid parent request path for the provider's semantics.
    ParseInvalidParent,
    /// Create a temporary directory into `into`, under `parent` when given,
    /// with the contract prefix and suffix (`label_prefix_text`,
    /// `label_suffix_text`) when `labelled`.
    Create {
        /// Where the driver keeps the handle.
        into: ResourceSlot,
        /// The requested parent path, if any.
        parent: Option<String>,
        /// Whether the contract prefix and suffix are requested.
        labelled: bool,
    },
    /// Seed an empty directory under this fixture-relative name.
    SeedDirectory {
        /// The fixture-relative name.
        name: String,
    },
    /// Resolve this fixture-relative name to a provider path.
    ResolvePath {
        /// The fixture-relative name.
        name: String,
    },
    /// Clean the resource up.
    Cleanup {
        /// The resource.
        slot: ResourceSlot,
    },
    /// Keep the resource in place.
    Keep {
        /// The resource.
        slot: ResourceSlot,
    },
    /// Publish the resource to `target`.
    Persist {
        /// The resource.
        slot: ResourceSlot,
        /// The target path.
        target: String,
        /// The requested atomicity.
        atomicity: Atomicity,
        /// Whether an existing target may be replaced.
        overwrite: bool,
    },
    /// Observe out of band whether `path` exists.
    Observe {
        /// The path.
        path: String,
    },
    /// The probe passed.
    Finish,
    /// The probe failed with `message`.
    Fail {
        /// The diagnostic.
        message: &'static str,
        /// The source the driver attaches.
        attachment: Attachment,
    },
}

/// The abstract form of a request.
pub enum RequestView {
    /// Parse the invalid parent request path.
    ParseInvalidParent,
    /// Create a temporary directory.
    Create { into: ResourceSlot, parent: Option<Seq<char>>, labelled: bool },
    /// Seed an empty directory.
    SeedDirectory { name: Seq<char> },
    /// Resolve a fixture-relative name.
    ResolvePath { name: Seq<char> },
    /// Clean a resource up.
    Cleanup { slot: ResourceSlot },
    /// Keep a resource.
    Keep { slot: ResourceSlot },
    /// Publish a resource.
    Persist { slot: ResourceSlot, target: Seq<char>, atomicity: Atomicity, overwrite: bool },
    /// Observe a path.
    Observe { path: Seq<char> },
    /// The probe passed.
    Finish,
    /// The probe failed.
    Fail { message: Seq<char>, attachment: Attachment },
}

impl View for TempRequest {
    type V = RequestView;

    open spec fn view(&self) -> RequestView {
        match self {
            TempRequest::ParseInvalidParent => RequestView::ParseInvalidParent,
            TempRequest::Create { into, parent, labelled } => RequestView::Create {
                into: *into,
                parent: text_of(*parent),
                labelled: *labelled,
            },
            TempRequest::SeedDirectory { name } => RequestView::SeedDirectory { name: name@ },
            TempRequest::ResolvePath { name } => RequestView::ResolvePath { name: name@ },
            TempRequest::Cleanup { slot } => RequestView::Cleanup { slot: *slot },
            TempRequest::Keep { slot } => RequestView::Keep { slot: *slot },
            TempRequest::Persist { slot, target, atomicity, overwrite } => RequestView::Persist {
                slot: *slot,
                target: target@,
                atomicity: *atomicity,
                overwrite: *overwrite,
            },
            TempRequest::Observe { path } => RequestView::Observe { path: path@ },
            TempRequest::Finish => RequestView::Finish,
            TempRequest::Fail { message, attachment } => RequestView::Fail {
                message: message@,
                attachment: *attachment,
            },
        }
    }
}

/// A successful publication.
pub struct Publication {
    /// The published target text.
    pub target: String,
    /// Whether the publication was atomic.
    pub atomic: bool,
}

/// The answer to the pending request.
pub enum TempEvent {
    /// The invalid parent path, or `None` when it could not be parsed.
    Parsed(Option<String>),
    /// A temporary directory was created at this path.
    Created(String),
    /// Creation failed.
    CreateRejected(OpenRejection),
    /// The seeding hook answered.
    Seeded(SeedOutcome),
    /// The resolved path, or `None` when the fixture could not map it.
    Resolved(Option<String>),
    /// Cleanup answered, leaving the resource in `state`.
    CleanedUp { result: Result<(), ErrorFacts>, state: TempState },
    /// Keeping answered with the kept path, leaving the resource in `state`.
    Kept { result: Result<String, PersistRejection>, state: TempState },
    /// Publication answered, leaving the resource in `state`.
    Persisted { result: Result<Publication, PersistRejection>, state: TempState },
    /// An observation answered.
    Observed(Presence),
}

/// The abstract form of a publication rejection.
pub struct RejectionView {
    /// The error.
    pub error: ErrorFactsView,
    /// What the failure left behind.
    pub state: PersistState,
    /// The published target, if named.
    pub publication_target: Option<Seq<char>>,
}

/// The abstract form of an event.
pub enum EventView {
    /// The parsed invalid parent.
    Parsed(Option<Seq<char>>),
    /// A created directory.
    Created(Seq<char>),
    /// A failed creation.
    CreateRejected { error: ErrorFactsView, stage: OpenStage, recovery: bool },
    /// A seeding answer.
    Seeded(SeedView),
    /// A resolved path.
    Resolved(Option<Seq<char>>),
    /// A cleanup answer.
    CleanedUp { result: Result<(), ErrorFactsView>, state: TempState },
    /// A keep answer.
    Kept { result: Result<Seq<char>, RejectionView>, state: TempState },
    /// A publication answer: target and atomicity, or the rejection.
    Persisted { result: Result<(Seq<char>, bool), RejectionView>, state: TempState },
    /// An observation.
    Observed(Presence),
}

/// The abstract form of a publication rejection.
pub open spec fn rejection_view(rejection: PersistRejection) -> RejectionView {
    RejectionView {
        error: rejection.error@,
        state: rejection.state,
        publication_target: text_of(rejection.publication_target),
    }
}

impl View for TempEvent {
    type V = EventView;

    open spec fn view(&self) -> EventView {
        match self {
            TempEvent::Parsed(path) => EventView::Parsed(text_of(*path)),
            TempEvent::Created(path) => EventView::Created(path@),
            TempEvent::CreateRejected(rejection) => EventView::CreateRejected {
                error: rejection.error@,
                stage: rejection.stage,
                recovery: rejection.recovery,
            },
            TempEvent::Seeded(outcome) => EventView::Seeded(seed_view(*outcome)),
            TempEvent::Resolved(path) => EventView::Resolved(text_of(*path)),
            TempEvent::CleanedUp { result, state } => EventView::CleanedUp {
                result: match result {
                    Ok(()) => Ok(()),
                    Err(error) => Err(error@),
                },
                state: *state,
            },
            TempEvent::Kept { result, state } => EventView::Kept {
                result: match result {
                    Ok(path) => Ok(path@),
                    Err(rejection) => Err(rejection_view(*rejection)),
                },
                state: *state,
            },
            TempEvent::Persisted { result, state } => EventView::Persisted {
                result: match result {
                    Ok(publication) => Ok((publication.target@, publication.atomic)),
                    Err(rejection) => Err(rejection_view(*rejection)),
                },
                state: *state,
            },
            TempEvent::Observed(presence) => EventView::Observed(*presence),
        }
    }
}

/// The request a probe waits on, in the order a probe moves through them.
#[derive(Clone, Copy, Debug, PartialEq, Eq, Structural)]
pub enum ProbeStage {
    /// The invalid parent path is being parsed.
    ParseParent,
    /// A directory is being created under the invalid parent.
    InvalidCreate,
    /// The requested parent is being seeded.
    ParentSeed,
    /// The directory under test is being created.
    MainCreate,
    /// The labelled directory is being cleaned up.
    BasicCleanup,
    /// The cleaned-up directory is being observed.
    BasicCleanupObserve,
    /// A directory to keep is being created.
    KeepPrepCreate,
    /// The directory is being kept.
    Keep,
    /// The kept source is being observed.
    KeepObserveSource,
    /// The kept target is being observed.
    KeepObserveTarget,
    /// The kept directory is being kept again.
    SecondKeep,
    /// The kept directory is being cleaned up.
    KeptCleanup,
    /// The kept target is being observed again.
    KeptObserve,
    /// A directory to clean twice is being created.
    CleanedCreate,
    /// That directory is being cleaned up.
    InitialCleanup,
    /// The cleaned directory is being observed.
    CleanedObserve,
    /// That directory is being cleaned up again.
    RepeatedCleanup,
    /// A directory to publish is being created.
    PersistPrepCreate,
    /// The publication target is being resolved.
    Target,
    /// The directory is being published.
    Persist,
    /// The source of a rejected atomic publication is being observed.
    AtomicSourceObserve,
    /// The target of a rejected atomic publication is being observed.
    AtomicTargetObserve,
    /// The directory of a rejected atomic publication is being cleaned up.
    AtomicCleanup,
    /// That cleanup is being observed.
    AtomicCleanupObserve,
    /// The published source is being observed.
    PersistObserveSource,
    /// The published target is being observed.
    PersistObserveTarget,
    /// The directory to overwrite is being seeded.
    OverwriteSeed,
    /// The replacement directory is being created.
    ReplacementCreate,
    /// The replacement is being published over the seeded directory.
    Overwrite,
    /// The replacement source is being observed.
    OverwriteObserveSource,
    /// The overwritten target is being observed.
    OverwriteObserveTarget,
    /// The probe has finished.
    Finished,
}

/// The position of a stage in the probe's order.
pub open spec fn rank(stage: ProbeStage) -> int {
    match stage {
        ProbeStage::ParseParent => 0,
        ProbeStage::InvalidCreate => 1,
        ProbeStage::ParentSeed => 2,
        ProbeStage::MainCreate => 3,
        ProbeStage::BasicCleanup => 4,
        ProbeStage::BasicCleanupObserve => 5,
        ProbeStage::KeepPrepCreate => 6,
        ProbeStage::Keep => 7,
        ProbeStage::KeepObserveSource => 8,
        ProbeStage::KeepObserveTarget => 9,
        ProbeStage::SecondKeep => 10,
        ProbeStage::KeptCleanup => 11,
        ProbeStage::KeptObserve => 12,
        ProbeStage::CleanedCreate => 13,
        ProbeStage::InitialCleanup => 14,
        ProbeStage::CleanedObserve => 15,
        ProbeStage::RepeatedCleanup => 16,
        ProbeStage::PersistPrepCreate => 17,
        ProbeStage::Target => 18,
        ProbeStage::Persist => 19,
        ProbeStage::AtomicSourceObserve => 20,
        ProbeStage::AtomicTargetObserve => 21,
        ProbeStage::AtomicCleanup => 22,
        ProbeStage::AtomicCleanupObserve => 23,
        ProbeStage::PersistObserveSource => 24,
        ProbeStage::PersistObserveTarget => 25,
        ProbeStage::OverwriteSeed => 26,
        ProbeStage::ReplacementCreate => 27,
        ProbeStage::Overwrite => 28,
        ProbeStage::OverwriteObserveSource => 29,
        ProbeStage::OverwriteObserveTarget => 30,
        ProbeStage::Finished => 31,
    }
}

/// The kind of answer a stage waits for.
pub open spec fn answers(stage: ProbeStage, event: EventView) -> bool {
    match stage {
        ProbeStage::ParseParent => event is Parsed,
        ProbeStage::InvalidCreate | ProbeStage::MainCreate | ProbeStage::KeepPrepCreate | ProbeStage::CleanedCreate
        | ProbeStage::PersistPrepCreate | ProbeStage::ReplacementCreate => event is Created || event is CreateRejected,
        ProbeStage::ParentSeed | ProbeStage::OverwriteSeed => event is Seeded,
        ProbeStage::Target => event is Resolved,
        ProbeStage::BasicCleanup | ProbeStage::KeptCleanup | ProbeStage::InitialCleanup | ProbeStage::RepeatedCleanup
        | ProbeStage::AtomicCleanup => event is CleanedUp,
        ProbeStage::Keep | ProbeStage::SecondKeep => event is Kept,
        ProbeStage::Persist | ProbeStage::Overwrite => event is Persisted,
        ProbeStage::BasicCleanupObserve | ProbeStage::KeepObserveSource | ProbeStage::KeepObserveTarget
        | ProbeStage::KeptObserve | ProbeStage::CleanedObserve | ProbeStage::AtomicSourceObserve
        | ProbeStage::AtomicTargetObserve | ProbeStage::AtomicCleanupObserve | ProbeStage::PersistObserveSource
        | ProbeStage::PersistObserveTarget | ProbeStage::OverwriteObserveSource
        | ProbeStage::OverwriteObserveTarget => event is Observed,
        ProbeStage::Finished => false,
    }
}

/// The abstract state of a probe.
pub struct ProbeView {
    /// The check the probe runs for.
    pub id: ContractCheckId,
    /// Whether temporary directories are advertised.
    pub temp_directory: bool,
    /// Whether directory creation is advertised.
    pub create_directory: bool,
    /// Whether atomic temporary publication is advertised.
    pub atomic_persist: bool,
    /// The provider identity errors must report.
    pub provider: Seq<char>,
    /// The stage.
    pub stage: ProbeStage,
    /// The invalid parent path.
    pub invalid_parent: Seq<char>,
    /// The requested parent, if any.
    pub parent: Option<Seq<char>>,
    /// The path of the resource under test.
    pub source: Seq<char>,
    /// The kept target.
    pub kept_target: Seq<char>,
    /// The path of the cleaned or replacement resource.
    pub second: Seq<char>,
    /// The publication or overwrite target.
    pub target: Seq<char>,
    /// The resource state a rejected atomic publication left.
    pub held_state: TempState,
}

/// Drives the lifecycle evidence of temporary directories for one check:
/// invalid-parent rejection, parent, prefix and suffix honoring, cleanup,
/// keeping, repeated lifecycle calls, atomic and preferred publication, and
/// overwriting publication.
pub struct TempDirectoryProbe {
    id: ContractCheckId,
    temp_directory: bool,
    create_directory: bool,
    atomic_persist: bool,
    provider: String,
    stage: ProbeStage,
    invalid_parent: String,
    parent: Option<String>,
    source: String,
    kept_target: String,
    second: String,
    target: String,
    held_state: TempState,
}

impl View for TempDirectoryProbe {
    type V = ProbeView;

    closed spec fn view(&self) -> ProbeView {
        ProbeView {
            id: self.id,
            temp_directory: self.temp_directory,
            create_directory: self.create_directory,
            atomic_persist: self.atomic_persist,
            provider: self.provider@,
            stage: self.stage,
            invalid_parent: self.invalid_parent@,
            parent: text_of(self.parent),
            source: self.source@,
            kept_target: self.kept_target@,
            second: self.second@,
            target: self.target@,
            held_state: self.held_state,
        }
    }
}

/// The contract prefix of labelled temporary directories.
pub open spec fn label_prefix() -> Seq<char> {
    "contract-directory-"@
}

/// The contract suffix of labelled temporary directories.
pub open spec fn label_suffix() -> Seq<char> {
    ".tmp"@
}

/// Whether `source` lies directly below the requested `parent`, compared as
/// text after the parent's trailing slashes.
pub open spec fn under_parent(source: Seq<char>, parent: Seq<char>) -> bool {
    starts_with(source, trim_slashes(parent) + "/"@)
}

/// Whether a creation was rejected in preflight, without recovery, for the
/// invalid parent.
pub open spec fn invalid_parent_rejected(
    error: ErrorFactsView,
    stage: OpenStage,
    recovery: bool,
    invalid_parent: Seq<char>,
) -> bool {
    &&& !recovery
    &&& stage == OpenStage::Preflight
    &&& error.kind == ErrorKind::InvalidPath
    &&& error.operation == OperationKind::CreateTemp
    &&& error.path == Some(invalid_parent)
}

/// Whether a creation was rejected in preflight, without recovery, for the
/// missing temporary-directory capability.
pub open spec fn unsupported_creation_rejected(error: ErrorFactsView, stage: OpenStage, recovery: bool) -> bool {
    &&& !recovery
    &&& stage == OpenStage::Preflight
    &&& error.kind == ErrorKind::UnsupportedCapability
    &&& error.operation == OperationKind::CreateTemp
    &&& error.required_capability == Some(FileSystemCapability::TempDirectory)
}

/// Whether an atomic publication without the capability was rejected
/// before anything was published.
pub open spec fn atomic_rejection_expected(rejection: RejectionView, source: Seq<char>, target: Seq<char>, provider: Seq<char>) -> bool {
    &&& rejection.error.kind == ErrorKind::RequirementNotMet
    &&& rejection.error.operation == OperationKind::PersistTemp
    &&& rejection.error.path == Some(source)
    &&& rejection.error.target == Some(target)
    &&& rejection.error.required_capability == Some(FileSystemCapability::AtomicTempPersist)
    &&& rejection.error.provider == Some(provider)
    &&& rejection.state == PersistState::NotPublished
}

/// A finished probe and its failure request.
pub open spec fn failing(p: ProbeView, ctx: ContextView, message: Seq<char>, attachment: Attachment) -> (
    ProbeView,
    ContextView,
    RequestView,
) {
    (ProbeView { stage: ProbeStage::Finished, ..p }, ctx, RequestView::Fail { message, attachment })
}

/// A probe moved to `stage` with `request`.
pub open spec fn moving(p: ProbeView, ctx: ContextView, stage: ProbeStage, request: RequestView) -> (
    ProbeView,
    ContextView,
    RequestView,
) {
    (ProbeView { stage, ..p }, ctx, request)
}

/// The probe's start: the basic check with the capability first probes an
/// invalid parent; every other run creates a default directory.
pub open spec fn start(p: ProbeView) -> (ProbeStage, RequestView) {
    if p.id == ContractCheckId::TempDirectory && p.temp_directory {
        (ProbeStage::ParseParent, RequestView::ParseInvalidParent)
    } else {
        (ProbeStage::MainCreate, RequestView::Create { into: ResourceSlot::Temporary, parent: None, labelled: false })
    }
}

/// The publication section: resolve a fresh target.
pub open spec fn persist_section(p: ProbeView, ctx: ContextView) -> (ProbeView, ContextView, RequestView) {
    moving(p, ctx, ProbeStage::Target, RequestView::ResolvePath { name: relative_in(ctx, "persisted-directory"@) })
}

/// The keep section, which the atomic check skips for publication.
pub open spec fn keep_section(p: ProbeView, ctx: ContextView) -> (ProbeView, ContextView, RequestView) {
    if p.id != ContractCheckId::TempAtomic {
        moving(p, ctx, ProbeStage::Keep, RequestView::Keep { slot: ResourceSlot::Temporary })
    } else {
        persist_section(p, ctx)
    }
}

/// The transition on a created directory under test.
pub open spec fn on_main_created(p: ProbeView, ctx: ContextView, path: Seq<char>) -> (
    ProbeView,
    ContextView,
    RequestView,
) {
    let p = ProbeView { source: path, ..p };
    let ctx = with_created(ctx, path);
    if !p.temp_directory {
        failing(p, ctx, "unavailable temporary creation succeeded"@, Attachment::Nothing)
    } else if p.id == ContractCheckId::TempDirectory {
        if p.parent is Some && !under_parent(path, p.parent->0) {
            failing(p, ctx, "temporary resource ignored requested parent"@, Attachment::Nothing)
        } else if !(contains_text(path, label_prefix()) && ends_with(path, label_suffix())) {
            failing(p, ctx, "temp/directory: requested prefix or suffix was ignored"@, Attachment::Nothing)
        } else {
            moving(p, ctx, ProbeStage::BasicCleanup, RequestView::Cleanup { slot: ResourceSlot::Temporary })
        }
    } else {
        keep_section(p, ctx)
    }
}

/// The transition of a probe at `p.stage` on `event`, over the suite
/// context `ctx`: the next probe state, the context after the resources the
/// step records, and the next request.
pub open spec fn step(p: ProbeView, ctx: ContextView, event: EventView) -> (ProbeView, ContextView, RequestView) {
    match p.stage {
        ProbeStage::ParseParent => match event {
            EventView::Parsed(Some(path)) => moving(
                ProbeView { invalid_parent: path, ..p },
                ctx,
                ProbeStage::InvalidCreate,
                RequestView::Create { into: ResourceSlot::Temporary, parent: Some(path), labelled: false },
            ),
            _ => failing(p, ctx, "temporary invalid-parent request preparation failed"@, Attachment::CallError),
        },
        ProbeStage::InvalidCreate => match event {
            EventView::CreateRejected { error, stage, recovery } => if !invalid_parent_rejected(
                error,
                stage,
                recovery,
                p.invalid_parent,
            ) {
                failing(p, ctx, "temporary parent validation differs"@, Attachment::FacadeError)
            } else if p.create_directory {
                moving(
                    p,
                    ctx,
                    ProbeStage::ParentSeed,
                    RequestView::SeedDirectory { name: relative_in(ctx, "temp-directory-parent"@) },
                )
            } else {
                moving(
                    p,
                    ctx,
                    ProbeStage::MainCreate,
                    RequestView::Create { into: ResourceSlot::Temporary, parent: None, labelled: true },
                )
            },
            _ => failing(
                p,
                ctx,
                "invalid temporary parent succeeded"@,
                Attachment::AcceptedResource(ResourceSlot::Temporary),
            ),
        },
        ProbeStage::ParentSeed => match event {
            EventView::Seeded(SeedView::Supported(path)) => moving(
                ProbeView { parent: Some(path), ..p },
                with_created(ctx, path),
                ProbeStage::MainCreate,
                RequestView::Create { into: ResourceSlot::Temporary, parent: Some(path), labelled: true },
            ),
            EventView::Seeded(SeedView::Unsupported) => failing(
                p,
                ctx,
                "temporary parent needs independent fixture preparation"@,
                Attachment::Nothing,
            ),
            _ => failing(p, ctx, "temporary parent preparation failed"@, Attachment::CallError),
        },
        ProbeStage::MainCreate => match event {
            EventView::Created(path) => on_main_created(p, ctx, path),
            EventView::CreateRejected { error, stage, recovery } => if p.temp_directory {
                failing(p, ctx, "temporary resource creation failed"@, Attachment::FacadeError)
            } else if unsupported_creation_rejected(error, stage, recovery) {
                (ProbeView { stage: ProbeStage::Finished, ..p }, ctx, RequestView::Finish)
            } else {
                failing(p, ctx, "temporary creation rejection differs"@, Attachment::FacadeError)
            },
            _ => (p, ctx, RequestView::Finish),
        },
        ProbeStage::BasicCleanup => match event {
            EventView::CleanedUp { result: Ok(()), .. } => moving(
                p,
                ctx,
                ProbeStage::BasicCleanupObserve,
                RequestView::Observe { path: p.source },
            ),
            _ => failing(
                p,
                ctx,
                "temporary cleanup failed"@,
                Attachment::FacadeErrorWithResource(ResourceSlot::Temporary),
            ),
        },
        ProbeStage::BasicCleanupObserve => match event {
            EventView::Observed(Presence::Present(false)) => moving(
                p,
                ctx,
                ProbeStage::KeepPrepCreate,
                RequestView::Create { into: ResourceSlot::Temporary, parent: None, labelled: false },
            ),
            EventView::Observed(Presence::Failed) => failing(
                p,
                ctx,
                "temporary cleanup observation failed"@,
                Attachment::CallError,
            ),
            _ => failing(p, ctx, "temp/directory: cleanup retained source"@, Attachment::Nothing),
        },
        ProbeStage::KeepPrepCreate => match event {
            EventView::Created(path) => keep_section(ProbeView { source: path, ..p }, with_created(ctx, path)),
            _ => failing(p, ctx, "temporary keep preparation failed"@, Attachment::FacadeError),
        },
        ProbeStage::Keep => match event {
            EventView::Kept { result: Ok(target), state } => {
                let p = ProbeView { kept_target: target, ..p };
                let ctx = with_created(ctx, target);
                if state == TempState::Kept && target != p.source {
                    moving(p, ctx, ProbeStage::KeepObserveSource, RequestView::Observe { path: p.source })
                } else {
                    failing(p, ctx, "temporary keep state or publication identity differs"@, Attachment::Nothing)
                }
            },
            _ => failing(
                p,
                ctx,
                "temporary keep failed"@,
                Attachment::FacadeErrorWithResource(ResourceSlot::Temporary),
            ),
        },
        ProbeStage::KeepObserveSource => match event {
            EventView::Observed(Presence::Present(false)) => moving(
                p,
                ctx,
                ProbeStage::KeepObserveTarget,
                RequestView::Observe { path: p.kept_target },
            ),
            EventView::Observed(Presence::Failed) => failing(
                p,
                ctx,
                "temporary keep observation failed"@,
                Attachment::CallError,
            ),
            _ => failing(p, ctx, "temporary keep publication differs"@, Attachment::Nothing),
        },
        ProbeStage::KeepObserveTarget => match event {
            EventView::Observed(Presence::Present(true)) => if p.id == ContractCheckId::TempRepeatedLifecycle {
                moving(p, ctx, ProbeStage::SecondKeep, RequestView::Keep { slot: ResourceSlot::Temporary })
            } else {
                moving(
                    p,
                    ctx,
                    ProbeStage::PersistPrepCreate,
                    RequestView::Create { into: ResourceSlot::Temporary, parent: None, labelled: false },
                )
            },
            EventView::Observed(Presence::Failed) => failing(
                p,
                ctx,
                "temporary keep observation failed"@,
                Attachment::CallError,
            ),
            _ => failing(p, ctx, "temporary keep publication differs"@, Attachment::Nothing),
        },
        ProbeStage::SecondKeep => match event {
            EventView::Kept { result: Err(rejection), .. } => if rejection.error.kind == ErrorKind::InvalidState
                && rejection.state == PersistState::PublishedSourceReleased && rejection.publication_target == Some(
                p.kept_target,
            ) {
                moving(p, ctx, ProbeStage::KeptCleanup, RequestView::Cleanup { slot: ResourceSlot::Temporary })
            } else {
                failing(
                    p,
                    ctx,
                    "temp/repeated-lifecycle: publication facts lost"@,
                    Attachment::FacadeErrorWithResource(ResourceSlot::Temporary),
                )
            },
            _ => failing(p, ctx, "temp/repeated-lifecycle: second keep succeeded"@, Attachment::Nothing),
        },
        ProbeStage::KeptCleanup => match event {
            EventView::CleanedUp { result: Err(error), state } => if error.kind != ErrorKind::InvalidState {
                failing(
                    p,
                    ctx,
                    "repeated cleanup rejection differs"@,
                    Attachment::FacadeErrorWithResource(ResourceSlot::Temporary),
                )
            } else if state != TempState::Kept {
                failing(p, ctx, "kept state changed"@, Attachment::Nothing)
            } else {
                moving(p, ctx, ProbeStage::KeptObserve, RequestView::Observe { path: p.kept_target })
            },
            _ => failing(p, ctx, "temp/repeated-lifecycle: kept target reclaimed"@, Attachment::Nothing),
        },
        ProbeStage::KeptObserve => match event {
            EventView::Observed(Presence::Present(true)) => moving(
                p,
                ctx,
                ProbeStage::CleanedCreate,
                RequestView::Create { into: ResourceSlot::Cleaned, parent: None, labelled: false },
            ),
            EventView::Observed(Presence::Failed) => failing(
                p,
                ctx,
                "repeated keep publication observation failed"@,
                Attachment::CallError,
            ),
            _ => failing(p, ctx, "kept publication disappeared"@, Attachment::Nothing),
        },
        ProbeStage::CleanedCreate => match event {
            EventView::Created(path) => moving(
                ProbeView { second: path, ..p },
                with_created(ctx, path),
                ProbeStage::InitialCleanup,
                RequestView::Cleanup { slot: ResourceSlot::Cleaned },
            ),
            _ => failing(p, ctx, "repeated cleanup preparation failed"@, Attachment::FacadeError),
        },
        ProbeStage::InitialCleanup => match event {
            EventView::CleanedUp { result: Ok(()), .. } => moving(
                p,
                ctx,
                ProbeStage::CleanedObserve,
                RequestView::Observe { path: p.second },
            ),
            _ => failing(
                p,
                ctx,
                "initial cleanup failed"@,
                Attachment::FacadeErrorWithResource(ResourceSlot::Cleaned),
            ),
        },
        ProbeStage::CleanedObserve => match event {
            EventView::Observed(Presence::Present(false)) => moving(
                p,
                ctx,
                ProbeStage::RepeatedCleanup,
                RequestView::Cleanup { slot: ResourceSlot::Cleaned },
            ),
            EventView::Observed(Presence::Failed) => failing(
                p,
                ctx,
                "repeated cleanup observation failed"@,
                Attachment::CallError,
            ),
            _ => failing(p, ctx, "cleanup retained temporary source"@, Attachment::Nothing),
        },
        ProbeStage::RepeatedCleanup => match event {
            EventView::CleanedUp { result: Err(error), state } => if error.kind == ErrorKind::InvalidState && state
                == TempState::Cleaned {
                (ProbeView { stage: ProbeStage::Finished, ..p }, ctx, RequestView::Finish)
            } else {
                failing(
                    p,
                    ctx,
                    "repeated cleanup state differs"@,
                    Attachment::FacadeErrorWithResource(ResourceSlot::Cleaned),
                )
            },
            _ => failing(p, ctx, "temp/repeated-lifecycle: cleaned resource reused"@, Attachment::Nothing),
        },
        ProbeStage::PersistPrepCreate => match event {
            EventView::Created(path) => persist_section(ProbeView { source: path, ..p }, with_created(ctx, path)),
            _ => failing(p, ctx, "temporary persistence preparation failed"@, Attachment::FacadeError),
        },
        ProbeStage::Target => match event {
            EventView::Resolved(Some(target)) => moving(
                ProbeView { target, ..p },
                with_created(ctx, target),
                ProbeStage::Persist,
                RequestView::Persist {
                    slot: ResourceSlot::Temporary,
                    target,
                    atomicity: if p.id == ContractCheckId::TempAtomic {
                        Atomicity::Required
                    } else {
                        Atomicity::Preferred
                    },
                    overwrite: false,
                },
            ),
            _ => failing(p, ctx, "temporary publication target preparation failed"@, Attachment::CallError),
        },
        ProbeStage::Persist => if p.id == ContractCheckId::TempAtomic && !p.atomic_persist {
            match event {
                EventView::Persisted { result: Err(rejection), state } => if atomic_rejection_expected(
                    rejection,
                    p.source,
                    p.target,
                    p.provider,
                ) {
                    moving(
                        ProbeView { held_state: state, ..p },
                        ctx,
                        ProbeStage::AtomicSourceObserve,
                        RequestView::Observe { path: p.source },
                    )
                } else {
                    failing(
                        p,
                        ctx,
                        "atomic persistence rejection differs"@,
                        Attachment::FacadeErrorWithResource(ResourceSlot::Temporary),
                    )
                },
                _ => failing(p, ctx, "unsupported atomic persistence succeeded"@, Attachment::Nothing),
            }
        } else {
            match event {
                EventView::Persisted { result: Ok((target, atomic)), .. } => if target != p.target {
                    failing(p, ctx, "temporary persist target mismatch"@, Attachment::Nothing)
                } else if p.id == ContractCheckId::TempAtomic && !atomic {
                    failing(p, ctx, "temp/atomic: non-atomic publication"@, Attachment::Nothing)
                } else {
                    moving(p, ctx, ProbeStage::PersistObserveSource, RequestView::Observe { path: p.source })
                },
                _ => failing(
                    p,
                    ctx,
                    "temp/atomic: persistence failed"@,
                    Attachment::FacadeErrorWithResource(ResourceSlot::Temporary),
                ),
            }
        },
        ProbeStage::AtomicSourceObserve => match event {
            EventView::Observed(Presence::Present(true)) => if p.held_state == TempState::Owned {
                moving(p, ctx, ProbeStage::AtomicTargetObserve, RequestView::Observe { path: p.target })
            } else {
                failing(p, ctx, "atomic preflight changed resource ownership"@, Attachment::Nothing)
            },
            EventView::Observed(Presence::Failed) => failing(
                p,
                ctx,
                "atomic rejection source observation failed"@,
                Attachment::CallError,
            ),
            _ => failing(p, ctx, "atomic preflight removed source"@, Attachment::Nothing),
        },
        ProbeStage::AtomicTargetObserve => match event {
            EventView::Observed(Presence::Present(false)) => moving(
                p,
                ctx,
                ProbeStage::AtomicCleanup,
                RequestView::Cleanup { slot: ResourceSlot::Temporary },
            ),
            EventView::Observed(Presence::Failed) => failing(
                p,
                ctx,
                "atomic rejection target observation failed"@,
                Attachment::CallError,
            ),
            _ => failing(p, ctx, "atomic preflight published a target"@, Attachment::Nothing),
        },
        ProbeStage::AtomicCleanup => match event {
            EventView::CleanedUp { result: Ok(()), .. } => moving(
                p,
                ctx,
                ProbeStage::AtomicCleanupObserve,
                RequestView::Observe { path: p.source },
            ),
            _ => failing(
                p,
                ctx,
                "atomic rejection cleanup failed"@,
                Attachment::FacadeErrorWithResource(ResourceSlot::Temporary),
            ),
        },
        ProbeStage::AtomicCleanupObserve => match event {
            EventView::Observed(Presence::Present(false)) => (
                ProbeView { stage: ProbeStage::Finished, ..p },
                ctx,
                RequestView::Finish,
            ),
            EventView::Observed(Presence::Failed) => failing(
                p,
                ctx,
                "atomic rejection cleanup observation failed"@,
                Attachment::CallError,
            ),
            _ => failing(p, ctx, "atomic rejection cleanup retained source"@, Attachment::Nothing),
        },
        ProbeStage::PersistObserveSource => match event {
            EventView::Observed(Presence::Present(false)) => moving(
                p,
                ctx,
                ProbeStage::PersistObserveTarget,
                RequestView::Observe { path: p.target },
            ),
            EventView::Observed(Presence::Failed) => failing(
                p,
                ctx,
                "temporary persist observation failed"@,
                Attachment::CallError,
            ),
            _ => failing(
                p,
                ctx,
                "temporary persistence source release or target publication differs"@,
                Attachment::Nothing,
            ),
        },
        ProbeStage::PersistObserveTarget => match event {
            EventView::Observed(Presence::Present(true)) => if p.id == ContractCheckId::TempDirectory {
                moving(
                    p,
                    ctx,
                    ProbeStage::OverwriteSeed,
                    RequestView::SeedDirectory { name: relative_in(ctx, "temp-overwritten-directory"@) },
                )
            } else {
                (ProbeView { stage: ProbeStage::Finished, ..p }, ctx, RequestView::Finish)
            },
            EventView::Observed(Presence::Failed) => failing(
                p,
                ctx,
                "temporary persist observation failed"@,
                Attachment::CallError,
            ),
            _ => failing(
                p,
                ctx,
                "temporary persistence source release or target publication differs"@,
                Attachment::Nothing,
            ),
        },
        ProbeStage::OverwriteSeed => match event {
            EventView::Seeded(SeedView::Supported(target)) => moving(
                ProbeView { target, ..p },
                with_created(ctx, target),
                ProbeStage::ReplacementCreate,
                RequestView::Create { into: ResourceSlot::Replacement, parent: None, labelled: false },
            ),
            EventView::Seeded(SeedView::Unsupported) => failing(
                p,
                ctx,
                "temporary directory overwrite needs independent target preparation"@,
                Attachment::Nothing,
            ),
            _ => failing(p, ctx, "temporary overwrite target preparation failed"@, Attachment::CallError),
        },
        ProbeStage::ReplacementCreate => match event {
            EventView::Created(path) => moving(
                ProbeView { second: path, ..p },
                with_created(ctx, path),
                ProbeStage::Overwrite,
                RequestView::Persist {
                    slot: ResourceSlot::Replacement,
                    target: p.target,
                    atomicity: Atomicity::Preferred,
                    overwrite: true,
                },
            ),
            _ => failing(p, ctx, "temporary overwrite preparation failed"@, Attachment::FacadeError),
        },
        ProbeStage::Overwrite => match event {
            EventView::Persisted { result: Ok((target, _)), .. } => if target != p.target {
                failing(p, ctx, "temporary overwrite target differs"@, Attachment::Nothing)
            } else {
                moving(p, ctx, ProbeStage::OverwriteObserveSource, RequestView::Observe { path: p.second })
            },
            _ => failing(
                p,
                ctx,
                "temporary directory overwrite failed"@,
                Attachment::FacadeErrorWithResource(ResourceSlot::Replacement),
            ),
        },
        ProbeStage::OverwriteObserveSource => match event {
            EventView::Observed(Presence::Present(false)) => moving(
                p,
                ctx,
                ProbeStage::OverwriteObserveTarget,
                RequestView::Observe { path: p.target },
            ),
            EventView::Observed(Presence::Failed) => failing(
                p,
                ctx,
                "temporary overwrite observation failed"@,
                Attachment::CallError,
            ),
            _ => failing(
                p,
                ctx,
                "temporary overwrite did not release source and publish target"@,
                Attachment::Nothing,
            ),
        },
        ProbeStage::OverwriteObserveTarget => match event {
            EventView::Observed(Presence::Present(true)) => (
                ProbeView { stage: ProbeStage::Finished, ..p },
                ctx,
                RequestView::Finish,
            ),
            EventView::Observed(Presence::Failed) => failing(
                p,
                ctx,
                "temporary overwrite observation failed"@,
                Attachment::CallError,
            ),
            _ => failing(
                p,
                ctx,
                "temporary overwrite did not release source and publish target"@,
                Attachment::Nothing,
            ),
        },
        ProbeStage::Finished => (p, ctx, RequestView::Finish),
    }
}

/// Whether the probe's stage fits its check and capabilities: the basic
/// check alone probes parents, labels and overwrites, the repeated-lifecycle
/// check alone keeps and cleans twice, the atomic check without the
/// capability alone inspects a rejected publication, the atomic check never
/// keeps, and only an advertised capability gets past creation.
pub open spec fn consistent(p: ProbeView) -> bool {
    let basic_only = p.stage == ProbeStage::ParseParent || p.stage == ProbeStage::InvalidCreate || p.stage
        == ProbeStage::ParentSeed || p.stage == ProbeStage::BasicCleanup || p.stage == ProbeStage::BasicCleanupObserve
        || p.stage == ProbeStage::KeepPrepCreate || p.stage == ProbeStage::OverwriteSeed || p.stage
        == ProbeStage::ReplacementCreate || p.stage == ProbeStage::Overwrite || p.stage
        == ProbeStage::OverwriteObserveSource || p.stage == ProbeStage::OverwriteObserveTarget;
    let repeated_only = 10 <= rank(p.stage) <= 16;
    let atomic_only = 20 <= rank(p.stage) <= 23;
    let keeping = 7 <= rank(p.stage) <= 9;
    &&& basic_only ==> p.id == ContractCheckId::TempDirectory
    &&& repeated_only ==> p.id == ContractCheckId::TempRepeatedLifecycle
    &&& atomic_only ==> p.id == ContractCheckId::TempAtomic && !p.atomic_persist
    &&& keeping ==> p.id != ContractCheckId::TempAtomic
    &&& p.stage != ProbeStage::MainCreate && p.stage != ProbeStage::Finished ==> p.temp_directory
}

/// A new probe starts consistent.
pub proof fn law_probe_starts_consistent(p: ProbeView)
    requires
        p.stage == start(p).0,
    ensures
        consistent(p),
{
}

/// Every answered step keeps the probe consistent.
pub proof fn law_probe_steps_stay_consistent(p: ProbeView, ctx: ContextView, event: EventView)
    requires
        consistent(p),
        answers(p.stage, event),
    ensures
        consistent(step(p, ctx, event).0),
{
}

/// Every answered step moves the probe strictly forward, so a probe answers
/// at most as many requests as it has stages.
pub proof fn law_probe_moves_forward(p: ProbeView, ctx: ContextView, event: EventView)
    requires
        answers(p.stage, event),
    ensures
        rank(step(p, ctx, event).0.stage) > rank(p.stage),
        step(p, ctx, event).2 is Finish || step(p, ctx, event).2 is Fail <==> step(p, ctx, event).0.stage
            == ProbeStage::Finished,
{
    match p.stage {
        ProbeStage::ParseParent => {},
        ProbeStage::InvalidCreate => {},
        ProbeStage::ParentSeed => {},
        ProbeStage::MainCreate => {},
        ProbeStage::BasicCleanup => {},
        ProbeStage::BasicCleanupObserve => {},
        ProbeStage::KeepPrepCreate => {},
        ProbeStage::Keep => {},
        ProbeStage::KeepObserveSource => {},
        ProbeStage::KeepObserveTarget => {},
        ProbeStage::SecondKeep => {},
        ProbeStage::KeptCleanup => {},
        ProbeStage::KeptObserve => {},
        ProbeStage::CleanedCreate => {},
        ProbeStage::InitialCleanup => {},
        ProbeStage::CleanedObserve => {},
        ProbeStage::RepeatedCleanup => {},
        ProbeStage::PersistPrepCreate => {},
        ProbeStage::Target => {},
        ProbeStage::Persist => {},
        ProbeStage::AtomicSourceObserve => {},
        ProbeStage::AtomicTargetObserve => {},
        ProbeStage::AtomicCleanup => {},
        ProbeStage::AtomicCleanupObserve => {},
        ProbeStage::PersistObserveSource => {},
        ProbeStage::PersistObserveTarget => {},
        ProbeStage::OverwriteSeed => {},
        ProbeStage::ReplacementCreate => {},
        ProbeStage::Overwrite => {},
        ProbeStage::OverwriteObserveSource => {},
        ProbeStage::OverwriteObserveTarget => {},
        ProbeStage::Finished => {},
    }
}

/// Without the temporary-directory capability the probe asks for one
/// creation and ends on its answer: it passes only on a preflight rejection
/// for the missing capability, and a successful creation fails it.
pub proof fn law_probe_without_capability_stops_at_creation(p: ProbeView, ctx: ContextView, event: EventView)
    requires
        !p.temp_directory,
        p.stage == start(p).0,
        answers(p.stage, event),
    ensures
        start(p).1 == (RequestView::Create { into: ResourceSlot::Temporary, parent: None, labelled: false }),
        step(p, ctx, event).0.stage == ProbeStage::Finished,
        step(p, ctx, event).2 is Finish <==> (event matches EventView::CreateRejected { error, stage, recovery }
            && unsupported_creation_rejected(error, stage, recovery)),
        event is Created ==> step(p, ctx, event).2 == (RequestView::Fail {
            message: "unavailable temporary creation succeeded"@,
            attachment: Attachment::Nothing,
        }),
{
}

/// Every directory the probe sees created for its own use is recorded for
/// cleanup, except one created under the invalid parent, which fails the
/// probe.
pub proof fn law_probe_records_created_directories(p: ProbeView, ctx: ContextView, path: Seq<char>)
    requires
        answers(p.stage, EventView::Created(path)),
        p.stage != ProbeStage::InvalidCreate,
    ensures
        tracks(step(p, ctx, EventView::Created(path)).1.resources, path),
{
    let next = step(p, ctx, EventView::Created(path)).1;
    let added = with_created(ctx, path);
    if !tracks(ctx.resources, path) {
        assert(added.resources[ctx.resources.len() as int].path == path);
    }
    assert(next == added);
}

/// A probe passes only on the last evidence of its scenario: the expected
/// rejection without the capability, the second cleanup rejected as cleaned
/// for repeated lifecycle, the rejected atomic publication's source removed
/// by cleanup, the published target present for the keep-and-publish
/// scenarios, or the overwritten target present for the basic check.
pub proof fn law_probe_passes_only_on_final_evidence(p: ProbeView, ctx: ContextView, event: EventView)
    requires
        consistent(p),
        answers(p.stage, event),
        step(p, ctx, event).2 is Finish,
    ensures
        p.stage == ProbeStage::MainCreate ==> !p.temp_directory && (event matches EventView::CreateRejected {
            error,
            stage,
            recovery,
        } && unsupported_creation_rejected(error, stage, recovery)),
        p.stage == ProbeStage::RepeatedCleanup ==> p.id == ContractCheckId::TempRepeatedLifecycle && (
        event matches EventView::CleanedUp { result: Err(error), state } && error.kind == ErrorKind::InvalidState
            && state == TempState::Cleaned),
        p.stage == ProbeStage::AtomicCleanupObserve ==> p.id == ContractCheckId::TempAtomic && !p.atomic_persist
            && event == EventView::Observed(Presence::Present(false)),
        p.stage == ProbeStage::PersistObserveTarget ==> p.id != ContractCheckId::TempDirectory && event
            == EventView::Observed(Presence::Present(true)),
        p.stage == ProbeStage::OverwriteObserveTarget ==> p.id == ContractCheckId::TempDirectory && event
            == EventView::Observed(Presence::Present(true)),
        p.stage == ProbeStage::MainCreate || p.stage == ProbeStage::RepeatedCleanup || p.stage
            == ProbeStage::AtomicCleanupObserve || p.stage == ProbeStage::PersistObserveTarget || p.stage
            == ProbeStage::OverwriteObserveTarget,
{
}

/// Returns whether `source` lies directly below `parent`.
fn is_under_parent(source: &str, parent: &str) -> (found: bool)
    ensures
        found == under_parent(source@, parent@),
{
    let mut prefix = trimmed_of_slashes(parent);
    prefix.append("/");
    has_prefix(source, prefix.as_str())
}

/// Returns the contract prefix that a labelled creation requests.
pub fn label_prefix_text() -> (text: &'static str)
    ensures
        text@ == label_prefix(),
{
    "contract-directory-"
}

/// Returns the contract suffix that a labelled creation requests.
pub fn label_suffix_text() -> (text: &'static str)
    ensures
        text@ == label_suffix(),
{
    ".tmp"
}

/// Returns whether `path` carries the contract prefix and suffix.
fn is_labelled(path: &str) -> (found: bool)
    ensures
        found == (contains_text(path@, label_prefix()) && ends_with(path@, label_suffix())),
{
    has_text(path, label_prefix_text()) && has_suffix(path, label_suffix_text())
}

impl TempDirectoryProbe {
    /// Starts a probe for check `id` with the advertised capabilities and
    /// the provider identity errors must report, and returns its first
    /// request.
    pub fn new(
        id: ContractCheckId,
        temp_directory: bool,
        create_directory: bool,
        atomic_persist: bool,
        provider: String,
    ) -> (started: (TempDirectoryProbe, TempRequest))
        ensures
            started.0@.id == id,
            started.0@.temp_directory == temp_directory,
            started.0@.create_directory == create_directory,
            started.0@.atomic_persist == atomic_persist,
            started.0@.provider == provider@,
            started.0@.parent is None,
            (started.0@.stage, started.1@) == start(started.0@),
    {
        let basic = id == ContractCheckId::TempDirectory && temp_directory;
        let probe = TempDirectoryProbe {
            id,
            temp_directory,
            create_directory,
            atomic_persist,
            provider,
            stage: if basic {
                ProbeStage::ParseParent
            } else {
                ProbeStage::MainCreate
            },
            invalid_parent: String::new(),
            parent: None,
            source: String::new(),
            kept_target: String::new(),
            second: String::new(),
            target: String::new(),
            held_state: TempState::Owned,
        };
        let request = if basic {
            TempRequest::ParseInvalidParent
        } else {
            TempRequest::Create { into: ResourceSlot::Temporary, parent: None, labelled: false }
        };
        (probe, request)
    }

    /// Returns the stage the probe waits in.
    pub fn stage(&self) -> (stage: ProbeStage)
        ensures
            stage == self@.stage,
    {
        self.stage
    }

    /// Returns whether `event` answers the request the probe waits on.
    pub fn expects(&self, event: &TempEvent) -> (answered: bool)
        ensures
            answered == answers(self@.stage, event@),
    {
        match self.stage {
            ProbeStage::ParseParent => matches!(event, TempEvent::Parsed(_)),
            ProbeStage::InvalidCreate | ProbeStage::MainCreate | ProbeStage::KeepPrepCreate
            | ProbeStage::CleanedCreate | ProbeStage::PersistPrepCreate | ProbeStage::ReplacementCreate => matches!(
                event,
                TempEvent::Created(_) | TempEvent::CreateRejected(_)
            ),
            ProbeStage::ParentSeed | ProbeStage::OverwriteSeed => matches!(event, TempEvent::Seeded(_)),
            ProbeStage::Target => matches!(event, TempEvent::Resolved(_)),
            ProbeStage::BasicCleanup | ProbeStage::KeptCleanup | ProbeStage::InitialCleanup
            | ProbeStage::RepeatedCleanup | ProbeStage::AtomicCleanup => matches!(event, TempEvent::CleanedUp { .. }),
            ProbeStage::Keep | ProbeStage::SecondKeep => matches!(event, TempEvent::Kept { .. }),
            ProbeStage::Persist | ProbeStage::Overwrite => matches!(event, TempEvent::Persisted { .. }),
            ProbeStage::Finished => false,
            _ => matches!(event, TempEvent::Observed(_)),
        }
    }

    fn fail(&mut self, message: &'static str, attachment: Attachment) -> (request: TempRequest)
        ensures
            final(self)@ == (ProbeView { stage: ProbeStage::Finished, ..old(self)@ }),
            request@ == (RequestView::Fail { message: message@, attachment }),
    {
        self.stage = ProbeStage::Finished;
        TempRequest::Fail { message, attachment }
    }

    fn finish(&mut self) -> (request: TempRequest)
        ensures
            final(self)@ == (ProbeView { stage: ProbeStage::Finished, ..old(self)@ }),
            request@ == RequestView::Finish,
    {
        self.stage = ProbeStage::Finished;
        TempRequest::Finish
    }

    fn observe(&mut self, stage: ProbeStage, path: &String) -> (request: TempRequest)
        ensures
            final(self)@ == (ProbeView { stage, ..old(self)@ }),
            request@ == (RequestView::Observe { path: path@ }),
    {
        self.stage = stage;
        TempRequest::Observe { path: path.clone() }
    }

    fn create(&mut self, stage: ProbeStage, into: ResourceSlot) -> (request: TempRequest)
        ensures
            final(self)@ == (ProbeView { stage, ..old(self)@ }),
            request@ == (RequestView::Create { into, parent: None, labelled: false }),
    {
        self.stage = stage;
        TempRequest::Create { into, parent: None, labelled: false }
    }

    fn persist_section(&mut self, ctx: &ContractContext) -> (request: TempRequest)
        ensures
            (final(self)@, ctx@, request@) == persist_section(old(self)@, ctx@),
    {
        self.stage = ProbeStage::Target;
        TempRequest::ResolvePath { name: ctx.relative_name("persisted-directory") }
    }

    fn keep_section(&mut self, ctx: &ContractContext) -> (request: TempRequest)
        ensures
            (final(self)@, ctx@, request@) == keep_section(old(self)@, ctx@),
    {
        if self.id != ContractCheckId::TempAtomic {
            self.stage = ProbeStage::Keep;
            TempRequest::Keep { slot: ResourceSlot::Temporary }
        } else {
            self.persist_section(ctx)
        }
    }

    fn on_main_created(&mut self, ctx: &mut ContractContext, path: String) -> (request: TempRequest)
        ensures
            (final(self)@, final(ctx)@, request@) == on_main_created(old(self)@, old(ctx)@, path@),
    {
        self.source = path.clone();
        ctx.record_created(path);
        if !self.temp_directory {
            return self.fail("unavailable temporary creation succeeded", Attachment::Nothing);
        }
        if self.id == ContractCheckId::TempDirectory {
            let ignored_parent = match &self.parent {
                Some(parent) => !is_under_parent(self.source.as_str(), parent.as_str()),
                None => false,
            };
            if ignored_parent {
                return self.fail("temporary resource ignored requested parent", Attachment::Nothing);
            }
            if !is_labelled(self.source.as_str()) {
                return self.fail("temp/directory: requested prefix or suffix was ignored", Attachment::Nothing);
            }
            self.stage = ProbeStage::BasicCleanup;
            TempRequest::Cleanup { slot: ResourceSlot::Temporary }
        } else {
            self.keep_section(ctx)
        }
    }

    /// Takes the answer to the pending request, records the resources the
    /// step names in the suite context, and returns the next request.
    pub fn advance(&mut self, ctx: &mut ContractContext, event: TempEvent) -> (request: TempRequest)
        requires
            answers(old(self)@.stage, event@),
        ensures
            (final(self)@, final(ctx)@, request@) == step(old(self)@, old(ctx)@, event@),
    {
        match self.stage {
            ProbeStage::ParseParent => self.on_parse_parent(ctx, event),
            ProbeStage::InvalidCreate => self.on_invalid_create(ctx, event),
            ProbeStage::ParentSeed => self.on_parent_seed(ctx, event),
            ProbeStage::MainCreate => self.on_main_create(ctx, event),
            ProbeStage::BasicCleanup => self.on_basic_cleanup(ctx, event),
            ProbeStage::BasicCleanupObserve => self.on_basic_cleanup_observe(ctx, event),
            ProbeStage::KeepPrepCreate => self.on_keep_prep_create(ctx, event),
            ProbeStage::Keep => self.on_keep(ctx, event),
            ProbeStage::KeepObserveSource => self.on_keep_observe_source(ctx, event),
            ProbeStage::KeepObserveTarget => self.on_keep_observe_target(ctx, event),
            ProbeStage::SecondKeep => self.on_second_keep(ctx, event),
            ProbeStage::KeptCleanup => self.on_kept_cleanup(ctx, event),
            ProbeStage::KeptObserve => self.on_kept_observe(ctx, event),
            ProbeStage::CleanedCreate => self.on_cleaned_create(ctx, event),
            ProbeStage::InitialCleanup => self.on_initial_cleanup(ctx, event),
            ProbeStage::CleanedObserve => self.on_cleaned_observe(ctx, event),
            ProbeStage::RepeatedCleanup => self.on_repeated_cleanup(ctx, event),
            ProbeStage::PersistPrepCreate => self.on_persist_prep_create(ctx, event),
            ProbeStage::Target => self.on_target(ctx, event),
            ProbeStage::AtomicSourceObserve => self.on_atomic_source_observe(ctx, event),
            ProbeStage::AtomicTargetObserve => self.on_atomic_target_observe(ctx, event),
            ProbeStage::AtomicCleanup => self.on_atomic_cleanup(ctx, event),
            ProbeStage::AtomicCleanupObserve => self.on_atomic_cleanup_observe(ctx, event),
            ProbeStage::PersistObserveSource => self.on_persist_observe_source(ctx, event),
            ProbeStage::PersistObserveTarget => self.on_persist_observe_target(ctx, event),
            ProbeStage::OverwriteSeed => self.on_overwrite_seed(ctx, event),
            ProbeStage::ReplacementCreate => self.on_replacement_create(ctx, event),
            ProbeStage::Overwrite => self.on_overwrite(ctx, event),
            ProbeStage::OverwriteObserveSource => self.on_overwrite_observe_source(ctx, event),
            ProbeStage::OverwriteObserveTarget => self.on_overwrite_observe_target(ctx, event),
            ProbeStage::Persist => self.on_persisted(ctx, event),
            ProbeStage::Finished => TempRequest::Finish,
        }
    }

    fn on_parse_parent(&mut self, ctx: &mut ContractContext, event: TempEvent) -> (request: TempRequest)
        requires
            old(self)@.stage == ProbeStage::ParseParent,
            answers(old(self)@.stage, event@),
        ensures
            (final(self)@, final(ctx)@, request@) == step(old(self)@, old(ctx)@, event@),
    {
        match event {
            TempEvent::Parsed(Some(path)) => {
                self.invalid_parent = path.clone();
                self.stage = ProbeStage::InvalidCreate;
                TempRequest::Create { into: ResourceSlot::Temporary, parent: Some(path), labelled: false }
            },
            _ => self.fail("temporary invalid-parent request preparation failed", Attachment::CallError),
        }
    }

    fn on_invalid_create(&mut self, ctx: &mut ContractContext, event: TempEvent) -> (request: TempRequest)
        requires
            old(self)@.stage == ProbeStage::InvalidCreate,
            answers(old(self)@.stage, event@),
        ensures
            (final(self)@, final(ctx)@, request@) == step(old(self)@, old(ctx)@, event@),
    {
        match event {
            TempEvent::CreateRejected(rejection) => {
                let expected = !rejection.recovery && rejection.stage == OpenStage::Preflight
                    && rejection.error.kind == ErrorKind::InvalidPath && rejection.error.operation
                    == OperationKind::CreateTemp && text_is(&rejection.error.path, &self.invalid_parent);
                if !expected {
                    self.fail("temporary parent validation differs", Attachment::FacadeError)
                } else if self.create_directory {
                    self.stage = ProbeStage::ParentSeed;
                    TempRequest::SeedDirectory { name: ctx.relative_name("temp-directory-parent") }
                } else {
                    self.stage = ProbeStage::MainCreate;
                    TempRequest::Create { into: ResourceSlot::Temporary, parent: None, labelled: true }
                }
            },
            _ => self.fail(
                "invalid temporary parent succeeded",
                Attachment::AcceptedResource(ResourceSlot::Temporary),
            ),
        }
    }

    fn on_parent_seed(&mut self, ctx: &mut ContractContext, event: TempEvent) -> (request: TempRequest)
        requires
            old(self)@.stage == ProbeStage::ParentSeed,
            answers(old(self)@.stage, event@),
        ensures
            (final(self)@, final(ctx)@, request@) == step(old(self)@, old(ctx)@, event@),
    {
        match event {
            TempEvent::Seeded(SeedOutcome::Supported(path)) => {
                self.parent = Some(path.clone());
                ctx.record_created(path.clone());
                self.stage = ProbeStage::MainCreate;
                TempRequest::Create { into: ResourceSlot::Temporary, parent: Some(path), labelled: true }
            },
            TempEvent::Seeded(SeedOutcome::Unsupported) => self.fail(
                "temporary parent needs independent fixture preparation",
                Attachment::Nothing,
            ),
            _ => self.fail("temporary parent preparation failed", Attachment::CallError),
        }
    }

    fn on_main_create(&mut self, ctx: &mut ContractContext, event: TempEvent) -> (request: TempRequest)
        requires
            old(self)@.stage == ProbeStage::MainCreate,
            answers(old(self)@.stage, event@),
        ensures
            (final(self)@, final(ctx)@, request@) == step(old(self)@, old(ctx)@, event@),
    {
        match event {
            TempEvent::Created(path) => self.on_main_created(ctx, path),
            TempEvent::CreateRejected(rejection) => {
                if self.temp_directory {
                    self.fail("temporary resource creation failed", Attachment::FacadeError)
                } else if !rejection.recovery && rejection.stage == OpenStage::Preflight && rejection.error.kind
                    == ErrorKind::UnsupportedCapability && rejection.error.operation == OperationKind::CreateTemp
                    && capability_is(rejection.error.required_capability, FileSystemCapability::TempDirectory) {
                    self.finish()
                } else {
                    self.fail("temporary creation rejection differs", Attachment::FacadeError)
                }
            },
            _ => TempRequest::Finish,
        }
    }

    fn on_basic_cleanup(&mut self, ctx: &mut ContractContext, event: TempEvent) -> (request: TempRequest)
        requires
            old(self)@.stage == ProbeStage::BasicCleanup,
            answers(old(self)@.stage, event@),
        ensures
            (final(self)@, final(ctx)@, request@) == step(old(self)@, old(ctx)@, event@),
    {
        match event {
            TempEvent::CleanedUp { result: Ok(()), .. } => {
                let source = self.source.clone();
                self.observe(ProbeStage::BasicCleanupObserve, &source)
            },
            _ => self.fail(
                "temporary cleanup failed",
                Attachment::FacadeErrorWithResource(ResourceSlot::Temporary),
            ),
        }
    }

    fn on_basic_cleanup_observe(&mut self, ctx: &mut ContractContext, event: TempEvent) -> (request: TempRequest)
        requires
            old(self)@.stage == ProbeStage::BasicCleanupObserve,
            answers(old(self)@.stage, event@),
        ensures
            (final(self)@, final(ctx)@, request@) == step(old(self)@, old(ctx)@, event@),
    {
        match event {
            TempEvent::Observed(Presence::Present(false)) => self.create(
                ProbeStage::KeepPrepCreate,
                ResourceSlot::Temporary,
            ),
            TempEvent::Observed(Presence::Failed) => self.fail(
                "temporary cleanup observation failed",
                Attachment::CallError,
            ),
            _ => self.fail("temp/directory: cleanup retained source", Attachment::Nothing),
        }
    }

    fn on_keep_prep_create(&mut self, ctx: &mut ContractContext, event: TempEvent) -> (request: TempRequest)
        requires
            old(self)@.stage == ProbeStage::KeepPrepCreate,
            answers(old(self)@.stage, event@),
        ensures
            (final(self)@, final(ctx)@, request@) == step(old(self)@, old(ctx)@, event@),
    {
        match event {
            TempEvent::Created(path) => {
                self.source = path.clone();
                ctx.record_created(path);
                self.keep_section(ctx)
            },
            _ => self.fail("temporary keep preparation failed", Attachment::FacadeError),
        }
    }

    fn on_keep(&mut self, ctx: &mut ContractContext, event: TempEvent) -> (request: TempRequest)
        requires
            old(self)@.stage == ProbeStage::Keep,
            answers(old(self)@.stage, event@),
        ensures
            (final(self)@, final(ctx)@, request@) == step(old(self)@, old(ctx)@, event@),
    {
        match event {
            TempEvent::Kept { result: Ok(target), state } => {
                self.kept_target = target.clone();
                ctx.record_created(target.clone());
                if state == TempState::Kept && target != self.source {
                    let source = self.source.clone();
                    self.observe(ProbeStage::KeepObserveSource, &source)
                } else {
                    self.fail("temporary keep state or publication identity differs", Attachment::Nothing)
                }
            },
            _ => self.fail("temporary keep failed", Attachment::FacadeErrorWithResource(ResourceSlot::Temporary)),
        }
    }

    fn on_keep_observe_source(&mut self, ctx: &mut ContractContext, event: TempEvent) -> (request: TempRequest)
        requires
            old(self)@.stage == ProbeStage::KeepObserveSource,
            answers(old(self)@.stage, event@),
        ensures
            (final(self)@, final(ctx)@, request@) == step(old(self)@, old(ctx)@, event@),
    {
        match event {
            TempEvent::Observed(Presence::Present(false)) => {
                let target = self.kept_target.clone();
                self.observe(ProbeStage::KeepObserveTarget, &target)
            },
            TempEvent::Observed(Presence::Failed) => self.fail(
                "temporary keep observation failed",
                Attachment::CallError,
            ),
            _ => self.fail("temporary keep publication differs", Attachment::Nothing),
        }
    }

    fn on_keep_observe_target(&mut self, ctx: &mut ContractContext, event: TempEvent) -> (request: TempRequest)
        requires
            old(self)@.stage == ProbeStage::KeepObserveTarget,
            answers(old(self)@.stage, event@),
        ensures
            (final(self)@, final(ctx)@, request@) == step(old(self)@, old(ctx)@, event@),
    {
        match event {
            TempEvent::Observed(Presence::Present(true)) => {
                if self.id == ContractCheckId::TempRepeatedLifecycle {
                    self.stage = ProbeStage::SecondKeep;
                    TempRequest::Keep { slot: ResourceSlot::Temporary }
                } else {
                    self.create(ProbeStage::PersistPrepCreate, ResourceSlot::Temporary)
                }
            },
            TempEvent::Observed(Presence::Failed) => self.fail(
                "temporary keep observation failed",
                Attachment::CallError,
            ),
            _ => self.fail("temporary keep publication differs", Attachment::Nothing),
        }
    }

    fn on_second_keep(&mut self, ctx: &mut ContractContext, event: TempEvent) -> (request: TempRequest)
        requires
            old(self)@.stage == ProbeStage::SecondKeep,
            answers(old(self)@.stage, event@),
        ensures
            (final(self)@, final(ctx)@, request@) == step(old(self)@, old(ctx)@, event@),
    {
        match event {
            TempEvent::Kept { result: Err(rejection), .. } => {
                if rejection.error.kind == ErrorKind::InvalidState && rejection.state
                    == PersistState::PublishedSourceReleased && text_is(
                    &rejection.publication_target,
                    &self.kept_target,
                ) {
                    self.stage = ProbeStage::KeptCleanup;
                    TempRequest::Cleanup { slot: ResourceSlot::Temporary }
                } else {
                    self.fail(
                        "temp/repeated-lifecycle: publication facts lost",
                        Attachment::FacadeErrorWithResource(ResourceSlot::Temporary),
                    )
                }
            },
            _ => self.fail("temp/repeated-lifecycle: second keep succeeded", Attachment::Nothing),
        }
    }

    fn on_kept_cleanup(&mut self, ctx: &mut ContractContext, event: TempEvent) -> (request: TempRequest)
        requires
            old(self)@.stage == ProbeStage::KeptCleanup,
            answers(old(self)@.stage, event@),
        ensures
            (final(self)@, final(ctx)@, request@) == step(old(self)@, old(ctx)@, event@),
    {
        match event {
            TempEvent::CleanedUp { result: Err(error), state } => {
                if error.kind != ErrorKind::InvalidState {
                    self.fail(
                        "repeated cleanup rejection differs",
                        Attachment::FacadeErrorWithResource(ResourceSlot::Temporary),
                    )
                } else if state != TempState::Kept {
                    self.fail("kept state changed", Attachment::Nothing)
                } else {
                    let target = self.kept_target.clone();
                    self.observe(ProbeStage::KeptObserve, &target)
                }
            },
            _ => self.fail("temp/repeated-lifecycle: kept target reclaimed", Attachment::Nothing),
        }
    }

    fn on_kept_observe(&mut self, ctx: &mut ContractContext, event: TempEvent) -> (request: TempRequest)
        requires
            old(self)@.stage == ProbeStage::KeptObserve,
            answers(old(self)@.stage, event@),
        ensures
            (final(self)@, final(ctx)@, request@) == step(old(self)@, old(ctx)@, event@),
    {
        match event {
            TempEvent::Observed(Presence::Present(true)) => self.create(
                ProbeStage::CleanedCreate,
                ResourceSlot::Cleaned,
            ),
            TempEvent::Observed(Presence::Failed) => self.fail(
                "repeated keep publication observation failed",
                Attachment::CallError,
            ),
            _ => self.fail("kept publication disappeared", Attachment::Nothing),
        }
    }

    fn on_cleaned_create(&mut self, ctx: &mut ContractContext, event: TempEvent) -> (request: TempRequest)
        requires
            old(self)@.stage == ProbeStage::CleanedCreate,
            answers(old(self)@.stage, event@),
        ensures
            (final(self)@, final(ctx)@, request@) == step(old(self)@, old(ctx)@, event@),
    {
        match event {
            TempEvent::Created(path) => {
                self.second = path.clone();
                ctx.record_created(path);
                self.stage = ProbeStage::InitialCleanup;
                TempRequest::Cleanup { slot: ResourceSlot::Cleaned }
            },
            _ => self.fail("repeated cleanup preparation failed", Attachment::FacadeError),
        }
    }

    fn on_initial_cleanup(&mut self, ctx: &mut ContractContext, event: TempEvent) -> (request: TempRequest)
        requires
            old(self)@.stage == ProbeStage::InitialCleanup,
            answers(old(self)@.stage, event@),
        ensures
            (final(self)@, final(ctx)@, request@) == step(old(self)@, old(ctx)@, event@),
    {
        match event {
            TempEvent::CleanedUp { result: Ok(()), .. } => {
                let second = self.second.clone();
                self.observe(ProbeStage::CleanedObserve, &second)
            },
            _ => self.fail("initial cleanup failed", Attachment::FacadeErrorWithResource(ResourceSlot::Cleaned)),
        }
    }

    fn on_cleaned_observe(&mut self, ctx: &mut ContractContext, event: TempEvent) -> (request: TempRequest)
        requires
            old(self)@.stage == ProbeStage::CleanedObserve,
            answers(old(self)@.stage, event@),
        ensures
            (final(self)@, final(ctx)@, request@) == step(old(self)@, old(ctx)@, event@),
    {
        match event {
            TempEvent::Observed(Presence::Present(false)) => {
                self.stage = ProbeStage::RepeatedCleanup;
                TempRequest::Cleanup { slot: ResourceSlot::Cleaned }
            },
            TempEvent::Observed(Presence::Failed) => self.fail(
                "repeated cleanup observation failed",
                Attachment::CallError,
            ),
            _ => self.fail("cleanup retained temporary source", Attachment::Nothing),
        }
    }

    fn on_repeated_cleanup(&mut self, ctx: &mut ContractContext, event: TempEvent) -> (request: TempRequest)
        requires
            old(self)@.stage == ProbeStage::RepeatedCleanup,
            answers(old(self)@.stage, event@),
        ensures
            (final(self)@, final(ctx)@, request@) == step(old(self)@, old(ctx)@, event@),
    {
        match event {
            TempEvent::CleanedUp { result: Err(error), state } => {
                if error.kind == ErrorKind::InvalidState && state == TempState::Cleaned {
                    self.finish()
                } else {
                    self.fail(
                        "repeated cleanup state differs",
                        Attachment::FacadeErrorWithResource(ResourceSlot::Cleaned),
                    )
                }
            },
            _ => self.fail("temp/repeated-lifecycle: cleaned resource reused", Attachment::Nothing),
        }
    }

    fn on_persist_prep_create(&mut self, ctx: &mut ContractContext, event: TempEvent) -> (request: TempRequest)
        requires
            old(self)@.stage == ProbeStage::PersistPrepCreate,
            answers(old(self)@.stage, event@),
        ensures
            (final(self)@, final(ctx)@, request@) == step(old(self)@, old(ctx)@, event@),
    {
        match event {
            TempEvent::Created(path) => {
                self.source = path.clone();
                ctx.record_created(path);
                self.persist_section(ctx)
            },
            _ => self.fail("temporary persistence preparation failed", Attachment::FacadeError),
        }
    }

    fn on_target(&mut self, ctx: &mut ContractContext, event: TempEvent) -> (request: TempRequest)
        requires
            old(self)@.stage == ProbeStage::Target,
            answers(old(self)@.stage, event@),
        ensures
            (final(self)@, final(ctx)@, request@) == step(old(self)@, old(ctx)@, event@),
    {
        match event {
            TempEvent::Resolved(Some(target)) => {
                self.target = target.clone();
                ctx.record_created(target.clone());
                self.stage = ProbeStage::Persist;
                TempRequest::Persist {
                    slot: ResourceSlot::Temporary,
                    target,
                    atomicity: if self.id == ContractCheckId::TempAtomic {
                        Atomicity::Required
                    } else {
                        Atomicity::Preferred
                    },
                    overwrite: false,
                }
            },
            _ => self.fail("temporary publication target preparation failed", Attachment::CallError),
        }
    }

    fn on_atomic_source_observe(&mut self, ctx: &mut ContractContext, event: TempEvent) -> (request: TempRequest)
        requires
            old(self)@.stage == ProbeStage::AtomicSourceObserve,
            answers(old(self)@.stage, event@),
        ensures
            (final(self)@, final(ctx)@, request@) == step(old(self)@, old(ctx)@, event@),
    {
        match event {
            TempEvent::Observed(Presence::Present(true)) => {
                if self.held_state == TempState::Owned {
                    let target = self.target.clone();
                    self.observe(ProbeStage::AtomicTargetObserve, &target)
                } else {
                    self.fail("atomic preflight changed resource ownership", Attachment::Nothing)
                }
            },
            TempEvent::Observed(Presence::Failed) => self.fail(
                "atomic rejection source observation failed",
                Attachment::CallError,
            ),
            _ => self.fail("atomic preflight removed source", Attachment::Nothing),
        }
    }

    fn on_atomic_target_observe(&mut self, ctx: &mut ContractContext, event: TempEvent) -> (request: TempRequest)
        requires
            old(self)@.stage == ProbeStage::AtomicTargetObserve,
            answers(old(self)@.stage, event@),
        ensures
            (final(self)@, final(ctx)@, request@) == step(old(self)@, old(ctx)@, event@),
    {
        match event {
            TempEvent::Observed(Presence::Present(false)) => {
                self.stage = ProbeStage::AtomicCleanup;
                TempRequest::Cleanup { slot: ResourceSlot::Temporary }
            },
            TempEvent::Observed(Presence::Failed) => self.fail(
                "atomic rejection target observation failed",
                Attachment::CallError,
            ),
            _ => self.fail("atomic preflight published a target", Attachment::Nothing),
        }
    }

    fn on_atomic_cleanup(&mut self, ctx: &mut ContractContext, event: TempEvent) -> (request: TempRequest)
        requires
            old(self)@.stage == ProbeStage::AtomicCleanup,
            answers(old(self)@.stage, event@),
        ensures
            (final(self)@, final(ctx)@, request@) == step(old(self)@, old(ctx)@, event@),
    {
        match event {
            TempEvent::CleanedUp { result: Ok(()), .. } => {
                let source = self.source.clone();
                self.observe(ProbeStage::AtomicCleanupObserve, &source)
            },
            _ => self.fail(
                "atomic rejection cleanup failed",
                Attachment::FacadeErrorWithResource(ResourceSlot::Temporary),
            ),
        }
    }

    fn on_atomic_cleanup_observe(&mut self, ctx: &mut ContractContext, event: TempEvent) -> (request: TempRequest)
        requires
            old(self)@.stage == ProbeStage::AtomicCleanupObserve,
            answers(old(self)@.stage, event@),
        ensures
            (final(self)@, final(ctx)@, request@) == step(old(self)@, old(ctx)@, event@),
    {
        match event {
            TempEvent::Observed(Presence::Present(false)) => self.finish(),
            TempEvent::Observed(Presence::Failed) => self.fail(
                "atomic rejection cleanup observation failed",
                Attachment::CallError,
            ),
            _ => self.fail("atomic rejection cleanup retained source", Attachment::Nothing),
        }
    }

    fn on_persist_observe_source(&mut self, ctx: &mut ContractContext, event: TempEvent) -> (request: TempRequest)
        requires
            old(self)@.stage == ProbeStage::PersistObserveSource,
            answers(old(self)@.stage, event@),
        ensures
            (final(self)@, final(ctx)@, request@) == step(old(self)@, old(ctx)@, event@),
    {
        match event {
            TempEvent::Observed(Presence::Present(false)) => {
                let target = self.target.clone();
                self.observe(ProbeStage::PersistObserveTarget, &target)
            },
            TempEvent::Observed(Presence::Failed) => self.fail(
                "temporary persist observation failed",
                Attachment::CallError,
            ),
            _ => self.fail(
                "temporary persistence source release or target publication differs",
                Attachment::Nothing,
            ),
        }
    }

    fn on_persist_observe_target(&mut self, ctx: &mut ContractContext, event: TempEvent) -> (request: TempRequest)
        requires
            old(self)@.stage == ProbeStage::PersistObserveTarget,
            answers(old(self)@.stage, event@),
        ensures
            (final(self)@, final(ctx)@, request@) == step(old(self)@, old(ctx)@, event@),
    {
        match event {
            TempEvent::Observed(Presence::Present(true)) => {
                if self.id == ContractCheckId::TempDirectory {
                    self.stage = ProbeStage::OverwriteSeed;
                    TempRequest::SeedDirectory { name: ctx.relative_name("temp-overwritten-directory") }
                } else {
                    self.finish()
                }
            },
            TempEvent::Observed(Presence::Failed) => self.fail(
                "temporary persist observation failed",
                Attachment::CallError,
            ),
            _ => self.fail(
                "temporary persistence source release or target publication differs",
                Attachment::Nothing,
            ),
        }
    }

    fn on_overwrite_seed(&mut self, ctx: &mut ContractContext, event: TempEvent) -> (request: TempRequest)
        requires
            old(self)@.stage == ProbeStage::OverwriteSeed,
            answers(old(self)@.stage, event@),
        ensures
            (final(self)@, final(ctx)@, request@) == step(old(self)@, old(ctx)@, event@),
    {
        match event {
            TempEvent::Seeded(SeedOutcome::Supported(target)) => {
                self.target = target.clone();
                ctx.record_created(target);
                self.create(ProbeStage::ReplacementCreate, ResourceSlot::Replacement)
            },
            TempEvent::Seeded(SeedOutcome::Unsupported) => self.fail(
                "temporary directory overwrite needs independent target preparation",
                Attachment::Nothing,
            ),
            _ => self.fail("temporary overwrite target preparation failed", Attachment::CallError),
        }
    }

    fn on_replacement_create(&mut self, ctx: &mut ContractContext, event: TempEvent) -> (request: TempRequest)
        requires
            old(self)@.stage == ProbeStage::ReplacementCreate,
            answers(old(self)@.stage, event@),
        ensures
            (final(self)@, final(ctx)@, request@) == step(old(self)@, old(ctx)@, event@),
    {
        match event {
            TempEvent::Created(path) => {
                self.second = path.clone();
                ctx.record_created(path);
                self.stage = ProbeStage::Overwrite;
                TempRequest::Persist {
                    slot: ResourceSlot::Replacement,
                    target: self.target.clone(),
                    atomicity: Atomicity::Preferred,
                    overwrite: true,
                }
            },
            _ => self.fail("temporary overwrite preparation failed", Attachment::FacadeError),
        }
    }

    fn on_overwrite(&mut self, ctx: &mut ContractContext, event: TempEvent) -> (request: TempRequest)
        requires
            old(self)@.stage == ProbeStage::Overwrite,
            answers(old(self)@.stage, event@),
        ensures
            (final(self)@, final(ctx)@, request@) == step(old(self)@, old(ctx)@, event@),
    {
        match event {
            TempEvent::Persisted { result: Ok(publication), .. } => {
                if publication.target != self.target {
                    self.fail("temporary overwrite target differs", Attachment::Nothing)
                } else {
                    let second = self.second.clone();
                    self.observe(ProbeStage::OverwriteObserveSource, &second)
                }
            },
            _ => self.fail(
                "temporary directory overwrite failed",
                Attachment::FacadeErrorWithResource(ResourceSlot::Replacement),
            ),
        }
    }

    fn on_overwrite_observe_source(&mut self, ctx: &mut ContractContext, event: TempEvent) -> (request: TempRequest)
        requires
            old(self)@.stage == ProbeStage::OverwriteObserveSource,
            answers(old(self)@.stage, event@),
        ensures
            (final(self)@, final(ctx)@, request@) == step(old(self)@, old(ctx)@, event@),
    {
        match event {
            TempEvent::Observed(Presence::Present(false)) => {
                let target = self.target.clone();
                self.observe(ProbeStage::OverwriteObserveTarget, &target)
            },
            TempEvent::Observed(Presence::Failed) => self.fail(
                "temporary overwrite observation failed",
                Attachment::CallError,
            ),
            _ => self.fail(
                "temporary overwrite did not release source and publish target",
                Attachment::Nothing,
            ),
        }
    }

    fn on_overwrite_observe_target(&mut self, ctx: &mut ContractContext, event: TempEvent) -> (request: TempRequest)
        requires
            old(self)@.stage == ProbeStage::OverwriteObserveTarget,
            answers(old(self)@.stage, event@),
        ensures
            (final(self)@, final(ctx)@, request@) == step(old(self)@, old(ctx)@, event@),
    {
        match event {
            TempEvent::Observed(Presence::Present(true)) => self.finish(),
            TempEvent::Observed(Presence::Failed) => self.fail(
                "temporary overwrite observation failed",
                Attachment::CallError,
            ),
            _ => self.fail(
                "temporary overwrite did not release source and publish target",
                Attachment::Nothing,
            ),
        }
    }

    fn on_persisted(&mut self, ctx: &mut ContractContext, event: TempEvent) -> (request: TempRequest)
        requires
            old(self)@.stage == ProbeStage::Persist,
            answers(old(self)@.stage, event@),
        ensures
            (final(self)@, final(ctx)@, request@) == step(old(self)@, old(ctx)@, event@),
    {
        if self.id == ContractCheckId::TempAtomic && !self.atomic_persist {
            match event {
                TempEvent::Persisted { result: Err(rejection), state } => {
                    let error = &rejection.error;
                    if error.kind == ErrorKind::RequirementNotMet && error.operation == OperationKind::PersistTemp
                        && text_is(&error.path, &self.source) && text_is(&error.target, &self.target)
                        && capability_is(error.required_capability, FileSystemCapability::AtomicTempPersist)
                        && text_is(&error.provider, &self.provider) && rejection.state == PersistState::NotPublished {
                        self.held_state = state;
                        let source = self.source.clone();
                        self.observe(ProbeStage::AtomicSourceObserve, &source)
                    } else {
                        self.fail(
                            "atomic persistence rejection differs",
                            Attachment::FacadeErrorWithResource(ResourceSlot::Temporary),
                        )
                    }
                },
                _ => self.fail("unsupported atomic persistence succeeded", Attachment::Nothing),
            }
        } else {
            match event {
                TempEvent::Persisted { result: Ok(publication), .. } => {
                    if publication.target != self.target {
                        self.fail("temporary persist target mismatch", Attachment::Nothing)
                    } else if self.id == ContractCheckId::TempAtomic && !publication.atomic {
                        self.fail("temp/atomic: non-atomic publication", Attachment::Nothing)
                    } else {
                        let source = self.source.clone();
                        self.observe(ProbeStage::PersistObserveSource, &source)
                    }
                },
                _ => self.fail(
                    "temp/atomic: persistence failed",
                    Attachment::FacadeErrorWithResource(ResourceSlot::Temporary),
                ),
            }
        }
    }
}

} // verus!
