use vstd::prelude::*;
use vstd::string::StringSliceAdditionalSpecFns;

use crate::capability::FileSystemCapability;
use crate::contract_check_id::ContractCheckId;
use crate::contract_check_outcome::ContractCheckOutcome;
use crate::contract_check_outcome::OutcomeView;
use crate::contract_context::ContextView;
use crate::contract_context::ContractContext;
use crate::contract_context::begun;
use crate::contract_context::relative_in;
use crate::contract_context::with_created;
use crate::contract_context::with_recorded;
use crate::fs_facts::Contents;
use crate::fs_facts::ContentsView;
use crate::fs_facts::ErrorFacts;
use crate::fs_facts::ErrorFactsView;
use crate::fs_facts::ErrorKind;
use crate::fs_facts::OperationKind;
use crate::fs_facts::Presence;
use crate::fs_facts::RenameState;
use crate::fs_facts::SeedOutcome;
use crate::fs_facts::SeedView;
use crate::fs_facts::capability_is;
use crate::fs_facts::holds_bytes;
use crate::fs_facts::seed_view;
use crate::fs_facts::text_is;
use crate::fs_facts::text_of;

verus! {

/// The next thing the driver does for a rename check.
#[derive(Debug, PartialEq, Eq)]
pub enum RenameRequest {
    /// Resolve this fixture-relative name to a provider path.
    ResolvePath {
        /// The fixture-relative name.
        name: String,
    },
    /// Seed a file with the UTF-8 bytes of `contents` under this name.
    SeedFile {
        /// The fixture-relative name.
        name: String,
        /// The text whose bytes the file holds.
        contents: &'static str,
    },
    /// Read the bytes at `path` out of band.
    Read {
        /// The path.
        path: String,
    },
    /// Observe out of band whether `path` exists.
    Observe {
        /// The path.
        path: String,
    },
    /// Rename `source` to `target`.
    Rename {
        /// The source path.
        source: String,
        /// The target path.
        target: String,
        /// Whether atomic publication is required.
        atomic: bool,
        /// Whether durable publication is required.
        durable: bool,
        /// Whether an existing target may be replaced.
        overwrite: bool,
    },
    /// The check was recorded.
    Finish,
    /// The check failed with `message`.
    Fail {
        /// The diagnostic.
        message: &'static str,
        /// Whether the error just answered is attached as the source.
        with_error: bool,
    },
}

/// The abstract form of a rename request.
pub enum RenameRequestView {
    /// Resolve a name.
    ResolvePath { name: Seq<char> },
    /// Seed a file.
    SeedFile { name: Seq<char>, contents: Seq<char> },
    /// Read a path.
    Read { path: Seq<char> },
    /// Observe a path.
    Observe { path: Seq<char> },
    /// Rename.
    Rename { source: Seq<char>, target: Seq<char>, atomic: bool, durable: bool, overwrite: bool },
    /// The check was recorded.
    Finish,
    /// The check failed.
    Fail { message: Seq<char>, with_error: bool },
}

impl View for RenameRequest {
    type V = RenameRequestView;

    open spec fn view(&self) -> RenameRequestView {
        match self {
            RenameRequest::ResolvePath { name } => RenameRequestView::ResolvePath { name: name@ },
            RenameRequest::SeedFile { name, contents } => RenameRequestView::SeedFile {
                name: name@,
                contents: contents@,
            },
            RenameRequest::Read { path } => RenameRequestView::Read { path: path@ },
            RenameRequest::Observe { path } => RenameRequestView::Observe { path: path@ },
            RenameRequest::Rename { source, target, atomic, durable, overwrite } => RenameRequestView::Rename {
                source: source@,
                target: target@,
                atomic: *atomic,
                durable: *durable,
                overwrite: *overwrite,
            },
            RenameRequest::Finish => RenameRequestView::Finish,
            RenameRequest::Fail { message, with_error } => RenameRequestView::Fail {
                message: message@,
                with_error: *with_error,
            },
        }
    }
}

/// A successful rename as the facade reported it.
pub struct RenameReport {
    /// The reported source text.
    pub source: String,
    /// The reported target text.
    pub target: String,
    /// Whether publication was atomic.
    pub atomic: bool,
    /// Whether publication was durable.
    pub durable: bool,
}

/// A failed rename.
pub struct RenameRejection {
    /// The error.
    pub error: ErrorFacts,
    /// What the failure left behind.
    pub state: RenameState,
}

/// The answer to the pending rename request.
pub enum RenameEvent {
    /// The resolved path, or `None` when the fixture could not map it.
    Resolved(Option<String>),
    /// The seeding hook answered.
    Seeded(SeedOutcome),
    /// A content observation answered.
    Read(Contents),
    /// An existence observation answered.
    Observed(Presence),
    /// The rename answered.
    Renamed(Result<RenameReport, RenameRejection>),
}

/// The abstract form of a rename answer.
pub enum RenameEventView {
    /// A resolved path.
    Resolved(Option<Seq<char>>),
    /// A seeding answer.
    Seeded(SeedView),
    /// A content observation.
    Read(ContentsView),
    /// An existence observation.
    Observed(Presence),
    /// A successful rename: source, target, atomicity and durability.
    Renamed(Seq<char>, Seq<char>, bool, bool),
    /// A failed rename.
    Refused(ErrorFactsView, RenameState),
}

impl View for RenameEvent {
    type V = RenameEventView;

    open spec fn view(&self) -> RenameEventView {
        match self {
            RenameEvent::Resolved(path) => RenameEventView::Resolved(text_of(*path)),
            RenameEvent::Seeded(outcome) => RenameEventView::Seeded(seed_view(*outcome)),
            RenameEvent::Read(contents) => RenameEventView::Read(contents@),
            RenameEvent::Observed(presence) => RenameEventView::Observed(*presence),
            RenameEvent::Renamed(Ok(report)) => RenameEventView::Renamed(
                report.source@,
                report.target@,
                report.atomic,
                report.durable,
            ),
            RenameEvent::Renamed(Err(rejection)) => RenameEventView::Refused(rejection.error@, rejection.state),
        }
    }
}

/// The request a rename check waits on, in the order it moves through them.
#[derive(Clone, Copy, Debug, PartialEq, Eq, Structural)]
pub enum RenameStage {
    /// The source path of a rejected rename is being resolved.
    UnsupportedSource,
    /// The target path of a rejected rename is being resolved.
    UnsupportedTarget,
    /// The rename without the capability is being answered.
    UnsupportedRename,
    /// The source file is being seeded.
    SeedSource,
    /// The conflicting target file is being seeded.
    SeedTarget,
    /// The absent target path is being resolved.
    ResolveTarget,
    /// The seeded source is being read.
    ReadSource,
    /// The seeded conflicting target is being read.
    ReadTargetInitial,
    /// The rename onto the conflicting target is being answered.
    ConflictRename,
    /// The source after the refused rename is being read.
    ConflictReadSource,
    /// The target after the refused rename is being read.
    ConflictReadTarget,
    /// The absent target is being observed.
    ObserveTarget,
    /// The rename is being answered.
    Rename,
    /// The renamed source is being observed.
    ObserveSource,
    /// The renamed target is being read.
    ReadTarget,
    /// The check has finished.
    Finished,
}

/// The position of a stage in the check's order.
pub open spec fn rename_rank(stage: RenameStage) -> int {
    match stage {
        RenameStage::UnsupportedSource => 0,
        RenameStage::UnsupportedTarget => 1,
        RenameStage::UnsupportedRename => 2,
        RenameStage::SeedSource => 3,
        RenameStage::SeedTarget => 4,
        RenameStage::ResolveTarget => 5,
        RenameStage::ReadSource => 6,
        RenameStage::ReadTargetInitial => 7,
        RenameStage::ConflictRename => 8,
        RenameStage::ConflictReadSource => 9,
        RenameStage::ConflictReadTarget => 10,
        RenameStage::ObserveTarget => 11,
        RenameStage::Rename => 12,
        RenameStage::ObserveSource => 13,
        RenameStage::ReadTarget => 14,
        RenameStage::Finished => 15,
    }
}

/// The kind of answer a stage waits for.
pub open spec fn rename_answers(stage: RenameStage, event: RenameEventView) -> bool {
    match stage {
        RenameStage::UnsupportedSource | RenameStage::UnsupportedTarget | RenameStage::ResolveTarget => event is Resolved,
        RenameStage::UnsupportedRename | RenameStage::ConflictRename | RenameStage::Rename => event is Renamed
            || event is Refused,
        RenameStage::SeedSource | RenameStage::SeedTarget => event is Seeded,
        RenameStage::ReadSource | RenameStage::ReadTargetInitial | RenameStage::ConflictReadSource
        | RenameStage::ConflictReadTarget | RenameStage::ReadTarget => event is Read,
        RenameStage::ObserveTarget | RenameStage::ObserveSource => event is Observed,
        RenameStage::Finished => false,
    }
}

/// The capability and the required atomicity and durability of a rename
/// check, or `None` for a check of another phase.
pub open spec fn rename_plan(id: ContractCheckId) -> Option<(FileSystemCapability, bool, bool)> {
    match id {
        ContractCheckId::RenameBasic | ContractCheckId::RenameConflict => Some((FileSystemCapability::Rename, false, false)),
        ContractCheckId::RenameAtomic => Some((FileSystemCapability::AtomicRename, true, false)),
        ContractCheckId::RenameDurable => Some((FileSystemCapability::DurableRename, false, true)),
        _ => None,
    }
}

/// The abstract state of a rename check.
pub struct RenameView {
    /// The check.
    pub id: ContractCheckId,
    /// The capability the check exercises.
    pub capability: FileSystemCapability,
    /// Whether atomic publication is required.
    pub atomic: bool,
    /// Whether durable publication is required.
    pub durable: bool,
    /// The provider identity errors must report.
    pub provider: Seq<char>,
    /// The stage.
    pub stage: RenameStage,
    /// The fixture-relative name of the target.
    pub target_name: Seq<char>,
    /// The source path.
    pub source: Seq<char>,
    /// The target path.
    pub target: Seq<char>,
}

/// Drives one rename check: preflight rejection without the capability,
/// independently seeded contents, the refused default rename onto an
/// existing target, the reported publication, and the observed move.
pub struct RenameProbe {
    id: ContractCheckId,
    capability: FileSystemCapability,
    atomic: bool,
    durable: bool,
    provider: String,
    stage: RenameStage,
    target_name: String,
    source: String,
    target: String,
}

impl View for RenameProbe {
    type V = RenameView;

    closed spec fn view(&self) -> RenameView {
        RenameView {
            id: self.id,
            capability: self.capability,
            atomic: self.atomic,
            durable: self.durable,
            provider: self.provider@,
            stage: self.stage,
            target_name: self.target_name@,
            source: self.source@,
            target: self.target@,
        }
    }
}

/// The contents seeded at the source.
pub open spec fn source_text() -> Seq<char> {
    "rename source"@
}

/// The contents seeded at a conflicting target.
pub open spec fn old_target_text() -> Seq<char> {
    "old target"@
}

/// The bytes seeded at the source.
pub open spec fn source_bytes() -> Seq<u8> {
    "rename source".spec_bytes()
}

/// The bytes seeded at a conflicting target.
pub open spec fn old_target_bytes() -> Seq<u8> {
    "old target".spec_bytes()
}

/// Whether the capability a check exercises is advertised.
pub open spec fn advertised(capability: FileSystemCapability, rename: bool, atomic: bool, durable: bool) -> bool {
    match capability {
        FileSystemCapability::Rename => rename,
        FileSystemCapability::AtomicRename => atomic,
        _ => durable,
    }
}

/// Whether a rename without the capability was refused in preflight with
/// full context and without effect: a plain rename as an unsupported
/// capability, a required guarantee as an unmet requirement.
pub open spec fn preflight_refused(
    error: ErrorFactsView,
    state: RenameState,
    capability: FileSystemCapability,
    source: Seq<char>,
    target: Seq<char>,
    provider: Seq<char>,
) -> bool {
    &&& error.kind == (if capability == FileSystemCapability::Rename {
        ErrorKind::UnsupportedCapability
    } else {
        ErrorKind::RequirementNotMet
    })
    &&& error.operation == OperationKind::Rename
    &&& error.path == Some(source)
    &&& error.target == Some(target)
    &&& error.provider == Some(provider)
    &&& error.required_capability == Some(capability)
    &&& state == RenameState::Unchanged
}

/// Whether a default rename onto an existing target was refused as a
/// conflict without effect.
pub open spec fn conflict_refused(
    error: ErrorFactsView,
    state: RenameState,
    source: Seq<char>,
    target: Seq<char>,
    provider: Seq<char>,
) -> bool {
    &&& state == RenameState::Unchanged
    &&& error.kind == ErrorKind::AlreadyExists
    &&& error.operation == OperationKind::Rename
    &&& error.path == Some(source)
    &&& error.target == Some(target)
    &&& error.provider == Some(provider)
}

/// A finished check and its failure request.
pub open spec fn rename_failing(p: RenameView, ctx: ContextView, message: Seq<char>, with_error: bool) -> (
    RenameView,
    ContextView,
    RenameRequestView,
) {
    (RenameView { stage: RenameStage::Finished, ..p }, ctx, RenameRequestView::Fail { message, with_error })
}

/// A finished check that recorded `outcome`.
pub open spec fn rename_recording(p: RenameView, ctx: ContextView, outcome: OutcomeView) -> (
    RenameView,
    ContextView,
    RenameRequestView,
) {
    (
        RenameView { stage: RenameStage::Finished, ..p },
        with_recorded(ctx, p.id, Some(p.capability), outcome),
        RenameRequestView::Finish,
    )
}

/// A check moved to `stage` with `request`.
pub open spec fn rename_moving(p: RenameView, ctx: ContextView, stage: RenameStage, request: RenameRequestView) -> (
    RenameView,
    ContextView,
    RenameRequestView,
) {
    (RenameView { stage, ..p }, ctx, request)
}

/// The rename request of the check, onto its target.
pub open spec fn rename_of(p: RenameView, overwrite: bool) -> RenameRequestView {
    RenameRequestView::Rename { source: p.source, target: p.target, atomic: p.atomic, durable: p.durable, overwrite }
}

/// The step once the target path is known: record it, require distinct
/// paths, and read the source.
pub open spec fn after_target(p: RenameView, ctx: ContextView, target: Seq<char>) -> (
    RenameView,
    ContextView,
    RenameRequestView,
) {
    let p = RenameView { target, ..p };
    let ctx = with_created(ctx, target);
    if p.source == target {
        rename_failing(p, ctx, "rename fixture requires distinct paths"@, false)
    } else {
        rename_moving(p, ctx, RenameStage::ReadSource, RenameRequestView::Read { path: p.source })
    }
}

/// The start of a rename check, over the suite context: it begins the
/// check's phase, refuses a check of another phase, records a conflict
/// check without the capability as inapplicable, and otherwise resolves
/// paths for the preflight rejection or seeds the source.
pub open spec fn rename_start(
    id: ContractCheckId,
    rename: bool,
    atomic: bool,
    durable: bool,
    provider: Seq<char>,
    ctx: ContextView,
) -> (RenameView, ContextView, RenameRequestView) {
    let ctx = begun(ctx, id.stable_name());
    let (capability, atomic_required, durable_required) = match rename_plan(id) {
        Some(plan) => plan,
        None => (FileSystemCapability::Rename, false, false),
    };
    let p = RenameView {
        id,
        capability,
        atomic: atomic_required,
        durable: durable_required,
        provider,
        stage: RenameStage::Finished,
        target_name: relative_in(ctx, "rename-target"@),
        source: Seq::empty(),
        target: Seq::empty(),
    };
    let capable = advertised(capability, rename, atomic, durable);
    if rename_plan(id) is None {
        (p, ctx, RenameRequestView::Fail { message: "selected entry is not a rename check"@, with_error: false })
    } else if id == ContractCheckId::RenameConflict && !capable {
        (
            p,
            with_recorded(
                ctx,
                id,
                Some(capability),
                OutcomeView::NotApplicable { reason: "Rename capability is unavailable"@ },
            ),
            RenameRequestView::Finish,
        )
    } else if !capable {
        (
            RenameView { stage: RenameStage::UnsupportedSource, ..p },
            ctx,
            RenameRequestView::ResolvePath { name: relative_in(ctx, "rename-source"@) },
        )
    } else {
        (
            RenameView { stage: RenameStage::SeedSource, ..p },
            ctx,
            RenameRequestView::SeedFile { name: relative_in(ctx, "rename-source"@), contents: source_text() },
        )
    }
}

/// The transition of a rename check at `p.stage` on `event`.
pub open spec fn rename_step(p: RenameView, ctx: ContextView, event: RenameEventView) -> (
    RenameView,
    ContextView,
    RenameRequestView,
) {
    match p.stage {
        RenameStage::UnsupportedSource => match event {
            RenameEventView::Resolved(Some(source)) => rename_moving(
                RenameView { source, ..p },
                ctx,
                RenameStage::UnsupportedTarget,
                RenameRequestView::ResolvePath { name: p.target_name },
            ),
            _ => rename_failing(p, ctx, "rename source path preparation failed"@, true),
        },
        RenameStage::UnsupportedTarget => match event {
            RenameEventView::Resolved(Some(target)) => {
                let p = RenameView { target, ..p };
                rename_moving(p, ctx, RenameStage::UnsupportedRename, rename_of(p, false))
            },
            _ => rename_failing(p, ctx, "rename target path preparation failed"@, true),
        },
        RenameStage::UnsupportedRename => match event {
            RenameEventView::Refused(error, state) => if preflight_refused(
                error,
                state,
                p.capability,
                p.source,
                p.target,
                p.provider,
            ) {
                rename_recording(p, ctx, OutcomeView::RejectedAsExpected)
            } else {
                rename_failing(p, ctx, "rename preflight rejection differs"@, true)
            },
            _ => rename_failing(p, ctx, "unavailable rename requirement succeeded"@, false),
        },
        RenameStage::SeedSource => match event {
            RenameEventView::Seeded(SeedView::Supported(source)) => {
                let p = RenameView { source, ..p };
                let ctx = with_created(ctx, source);
                if p.id == ContractCheckId::RenameConflict {
                    rename_moving(
                        p,
                        ctx,
                        RenameStage::SeedTarget,
                        RenameRequestView::SeedFile { name: p.target_name, contents: old_target_text() },
                    )
                } else {
                    rename_moving(p, ctx, RenameStage::ResolveTarget, RenameRequestView::ResolvePath { name: p.target_name })
                }
            },
            RenameEventView::Seeded(SeedView::Unsupported) => rename_recording(
                p,
                ctx,
                OutcomeView::Unverified { reason: "rename needs independently prepared source contents"@ },
            ),
            _ => rename_failing(p, ctx, "rename source preparation failed"@, true),
        },
        RenameStage::SeedTarget => match event {
            RenameEventView::Seeded(SeedView::Supported(target)) => after_target(p, ctx, target),
            RenameEventView::Seeded(SeedView::Unsupported) => rename_recording(
                p,
                ctx,
                OutcomeView::Unverified { reason: "rename conflict needs an independently prepared target"@ },
            ),
            _ => rename_failing(p, ctx, "rename conflict target preparation failed"@, true),
        },
        RenameStage::ResolveTarget => match event {
            RenameEventView::Resolved(Some(target)) => after_target(p, ctx, target),
            _ => rename_failing(p, ctx, "rename target preparation failed"@, true),
        },
        RenameStage::ReadSource => match event {
            RenameEventView::Read(ContentsView::Failed) => rename_failing(
                p,
                ctx,
                "rename initial source observation failed"@,
                true,
            ),
            RenameEventView::Read(contents) => if contents != ContentsView::Bytes(source_bytes()) {
                rename_failing(p, ctx, "rename source fixture contents differ"@, false)
            } else if p.id == ContractCheckId::RenameConflict {
                rename_moving(p, ctx, RenameStage::ReadTargetInitial, RenameRequestView::Read { path: p.target })
            } else {
                rename_moving(p, ctx, RenameStage::ObserveTarget, RenameRequestView::Observe { path: p.target })
            },
            _ => (p, ctx, RenameRequestView::Finish),
        },
        RenameStage::ReadTargetInitial => match event {
            RenameEventView::Read(ContentsView::Failed) => rename_failing(
                p,
                ctx,
                "rename initial target observation failed"@,
                true,
            ),
            RenameEventView::Read(contents) => if contents == ContentsView::Bytes(old_target_bytes()) {
                rename_moving(p, ctx, RenameStage::ConflictRename, rename_of(p, false))
            } else {
                rename_failing(p, ctx, "rename conflict target fixture contents differ"@, false)
            },
            _ => (p, ctx, RenameRequestView::Finish),
        },
        RenameStage::ConflictRename => match event {
            RenameEventView::Refused(error, state) => if conflict_refused(error, state, p.source, p.target, p.provider) {
                rename_moving(p, ctx, RenameStage::ConflictReadSource, RenameRequestView::Read { path: p.source })
            } else {
                rename_failing(p, ctx, "rename conflict rejection differs"@, true)
            },
            _ => rename_failing(p, ctx, "rename contract: default conflict replaced target"@, false),
        },
        RenameStage::ConflictReadSource => match event {
            RenameEventView::Read(ContentsView::Failed) => rename_failing(
                p,
                ctx,
                "rename conflict observation failed"@,
                true,
            ),
            RenameEventView::Read(contents) => if contents == ContentsView::Bytes(source_bytes()) {
                rename_moving(p, ctx, RenameStage::ConflictReadTarget, RenameRequestView::Read { path: p.target })
            } else {
                rename_failing(p, ctx, "rename conflict changed source or target"@, false)
            },
            _ => (p, ctx, RenameRequestView::Finish),
        },
        RenameStage::ConflictReadTarget => match event {
            RenameEventView::Read(ContentsView::Failed) => rename_failing(
                p,
                ctx,
                "rename conflict observation failed"@,
                true,
            ),
            RenameEventView::Read(contents) => if contents == ContentsView::Bytes(old_target_bytes()) {
                rename_moving(p, ctx, RenameStage::Rename, rename_of(p, true))
            } else {
                rename_failing(p, ctx, "rename conflict changed source or target"@, false)
            },
            _ => (p, ctx, RenameRequestView::Finish),
        },
        RenameStage::ObserveTarget => match event {
            RenameEventView::Observed(Presence::Present(false)) => rename_moving(
                p,
                ctx,
                RenameStage::Rename,
                rename_of(p, false),
            ),
            RenameEventView::Observed(Presence::Failed) => rename_failing(
                p,
                ctx,
                "rename initial target observation failed"@,
                true,
            ),
            _ => rename_failing(p, ctx, "rename target must initially be absent"@, false),
        },
        RenameStage::Rename => match event {
            RenameEventView::Renamed(source, target, atomic, durable) => if !(source == p.source && target
                == p.target) {
                rename_failing(p, ctx, "rename/basic: source context mismatch or target context mismatch"@, false)
            } else if p.id == ContractCheckId::RenameAtomic && !atomic {
                rename_failing(p, ctx, "rename/atomic: required operation reported non-atomic publication"@, false)
            } else if p.id == ContractCheckId::RenameDurable && !durable {
                rename_failing(p, ctx, "rename/durable: required operation reported non-durable publication"@, false)
            } else {
                rename_moving(p, ctx, RenameStage::ObserveSource, RenameRequestView::Observe { path: p.source })
            },
            _ => rename_failing(p, ctx, "rename/basic: rename failed"@, true),
        },
        RenameStage::ObserveSource => match event {
            RenameEventView::Observed(Presence::Present(false)) => rename_moving(
                p,
                ctx,
                RenameStage::ReadTarget,
                RenameRequestView::Read { path: p.target },
            ),
            RenameEventView::Observed(Presence::Failed) => rename_failing(
                p,
                ctx,
                "rename source removal observation failed"@,
                true,
            ),
            _ => rename_failing(p, ctx, "rename/basic: source remained after success"@, false),
        },
        RenameStage::ReadTarget => match event {
            RenameEventView::Read(ContentsView::Failed) => rename_failing(
                p,
                ctx,
                "rename target content observation failed"@,
                true,
            ),
            RenameEventView::Read(contents) => if contents == ContentsView::Bytes(source_bytes()) {
                rename_recording(p, ctx, OutcomeView::Passed)
            } else {
                rename_failing(p, ctx, "rename/basic: target bytes mismatch"@, false)
            },
            _ => (p, ctx, RenameRequestView::Finish),
        },
        RenameStage::Finished => (p, ctx, RenameRequestView::Finish),
    }
}

/// Whether a check's stage fits the check: only the conflict check seeds
/// and inspects a conflicting target, only the others resolve and observe
/// an absent one, and a running check keeps its plan.
pub open spec fn rename_consistent(p: RenameView) -> bool {
    let conflict_only = p.stage == RenameStage::SeedTarget || p.stage == RenameStage::ReadTargetInitial || p.stage
        == RenameStage::ConflictRename || p.stage == RenameStage::ConflictReadSource || p.stage
        == RenameStage::ConflictReadTarget;
    let absent_target = p.stage == RenameStage::ResolveTarget || p.stage == RenameStage::ObserveTarget;
    &&& conflict_only ==> p.id == ContractCheckId::RenameConflict
    &&& absent_target ==> p.id != ContractCheckId::RenameConflict
    &&& p.stage != RenameStage::Finished ==> rename_plan(p.id) == Some((p.capability, p.atomic, p.durable))
}

/// A rename check starts consistent: a check of another phase fails at
/// once, a conflict check without the capability is recorded as
/// inapplicable, and every other check waits on its first request.
pub proof fn law_rename_starts_consistent(
    id: ContractCheckId,
    rename: bool,
    atomic: bool,
    durable: bool,
    provider: Seq<char>,
    ctx: ContextView,
)
    ensures
        rename_consistent(rename_start(id, rename, atomic, durable, provider, ctx).0),
        rename_plan(id) is None ==> rename_start(id, rename, atomic, durable, provider, ctx).2
            == (RenameRequestView::Fail { message: "selected entry is not a rename check"@, with_error: false }),
        id == ContractCheckId::RenameConflict && !rename ==> rename_start(id, rename, atomic, durable, provider, ctx).2
            is Finish,
{
}

/// Every answered step keeps a check consistent.
pub proof fn law_rename_steps_stay_consistent(p: RenameView, ctx: ContextView, event: RenameEventView)
    requires
        rename_consistent(p),
        rename_answers(p.stage, event),
    ensures
        rename_consistent(rename_step(p, ctx, event).0),
{
}

/// Every answered step moves a check strictly forward, and it ends exactly
/// when it finishes or fails.
pub proof fn law_rename_moves_forward(p: RenameView, ctx: ContextView, event: RenameEventView)
    requires
        rename_answers(p.stage, event),
    ensures
        rename_rank(rename_step(p, ctx, event).0.stage) > rename_rank(p.stage),
        rename_step(p, ctx, event).2 is Finish || rename_step(p, ctx, event).2 is Fail <==> rename_step(
            p,
            ctx,
            event,
        ).0.stage == RenameStage::Finished,
{
    match p.stage {
        RenameStage::UnsupportedSource => {},
        RenameStage::UnsupportedTarget => {},
        RenameStage::UnsupportedRename => {},
        RenameStage::SeedSource => {},
        RenameStage::SeedTarget => {},
        RenameStage::ResolveTarget => {},
        RenameStage::ReadSource => {},
        RenameStage::ReadTargetInitial => {},
        RenameStage::ConflictRename => {},
        RenameStage::ConflictReadSource => {},
        RenameStage::ConflictReadTarget => {},
        RenameStage::ObserveTarget => {},
        RenameStage::Rename => {},
        RenameStage::ObserveSource => {},
        RenameStage::ReadTarget => {},
        RenameStage::Finished => {},
    }
}

/// A running check records an outcome only on final evidence: the expected
/// preflight refusal without the capability, a fixture that cannot seed,
/// or the target holding the source's bytes after the move; and it
/// records that outcome for its own check and capability.
pub proof fn law_rename_records_only_final_evidence(p: RenameView, ctx: ContextView, event: RenameEventView)
    requires
        rename_answers(p.stage, event),
        rename_step(p, ctx, event).2 is Finish,
    ensures
        (p.stage == RenameStage::UnsupportedRename && (event matches RenameEventView::Refused(error, state)
            && preflight_refused(error, state, p.capability, p.source, p.target, p.provider))) || ((p.stage
            == RenameStage::SeedSource || p.stage == RenameStage::SeedTarget) && event == RenameEventView::Seeded(
            SeedView::Unsupported,
        )) || (p.stage == RenameStage::ReadTarget && event == RenameEventView::Read(ContentsView::Bytes(source_bytes()))),
        exists|outcome: OutcomeView|
            rename_step(p, ctx, event).1 == with_recorded(ctx, p.id, Some(p.capability), outcome),
{
    match p.stage {
        RenameStage::UnsupportedRename => {
            assert(rename_step(p, ctx, event).1 == with_recorded(ctx, p.id, Some(p.capability), OutcomeView::RejectedAsExpected));
        },
        RenameStage::ReadTarget => {
            assert(rename_step(p, ctx, event).1 == with_recorded(ctx, p.id, Some(p.capability), OutcomeView::Passed));
        },
        RenameStage::SeedSource => {
            let outcome = OutcomeView::Unverified { reason: "rename needs independently prepared source contents"@ };
            assert(rename_step(p, ctx, event).1 == with_recorded(ctx, p.id, Some(p.capability), outcome));
        },
        RenameStage::SeedTarget => {
            let outcome = OutcomeView::Unverified { reason: "rename conflict needs an independently prepared target"@ };
            assert(rename_step(p, ctx, event).1 == with_recorded(ctx, p.id, Some(p.capability), outcome));
        },
        _ => {},
    }
}

/// A conflicting target is replaced only after the default rename was
/// refused and both files were read back unchanged: the overwriting rename
/// follows only the conflict check's reading of the intact old target.
pub proof fn law_rename_overwrites_only_after_refused_conflict(p: RenameView, ctx: ContextView, event: RenameEventView)
    requires
        rename_consistent(p),
        rename_answers(p.stage, event),
        rename_step(p, ctx, event).2 matches RenameRequestView::Rename { overwrite, .. } && overwrite,
    ensures
        p.stage == RenameStage::ConflictReadTarget,
        p.id == ContractCheckId::RenameConflict,
        event == RenameEventView::Read(ContentsView::Bytes(old_target_bytes())),
{
}

impl RenameProbe {
    /// Starts the rename check `id` in the suite context: begins its phase
    /// and returns the probe with its first request. `rename`, `atomic` and
    /// `durable` say whether plain, atomic and durable renames are
    /// advertised.
    pub fn new(
        ctx: &mut ContractContext,
        id: ContractCheckId,
        rename: bool,
        atomic: bool,
        durable: bool,
        provider: String,
    ) -> (started: (RenameProbe, RenameRequest))
        ensures
            (started.0@, final(ctx)@, started.1@) == rename_start(id, rename, atomic, durable, provider@, old(ctx)@),
    {
        ctx.begin(id.as_str());
        let (capability, atomic_required, durable_required, known) = match id {
            ContractCheckId::RenameBasic | ContractCheckId::RenameConflict => (
                FileSystemCapability::Rename,
                false,
                false,
                true,
            ),
            ContractCheckId::RenameAtomic => (FileSystemCapability::AtomicRename, true, false, true),
            ContractCheckId::RenameDurable => (FileSystemCapability::DurableRename, false, true, true),
            _ => (FileSystemCapability::Rename, false, false, false),
        };
        let target_name = ctx.relative_name("rename-target");
        let mut probe = RenameProbe {
            id,
            capability,
            atomic: atomic_required,
            durable: durable_required,
            provider,
            stage: RenameStage::Finished,
            target_name,
            source: String::new(),
            target: String::new(),
        };
        let capable = match capability {
            FileSystemCapability::Rename => rename,
            FileSystemCapability::AtomicRename => atomic,
            _ => durable,
        };
        if !known {
            return (probe, RenameRequest::Fail { message: "selected entry is not a rename check", with_error: false });
        }
        if id == ContractCheckId::RenameConflict && !capable {
            ctx.record_check(
                id,
                Some(capability),
                ContractCheckOutcome::NotApplicable { reason: String::from_str("Rename capability is unavailable") },
            );
            return (probe, RenameRequest::Finish);
        }
        let source_name = ctx.relative_name("rename-source");
        if !capable {
            probe.stage = RenameStage::UnsupportedSource;
            (probe, RenameRequest::ResolvePath { name: source_name })
        } else {
            probe.stage = RenameStage::SeedSource;
            (probe, RenameRequest::SeedFile { name: source_name, contents: "rename source" })
        }
    }

    /// Returns the stage the check waits in.
    pub fn stage(&self) -> (stage: RenameStage)
        ensures
            stage == self@.stage,
    {
        self.stage
    }

    /// Returns whether `event` answers the request the check waits on.
    pub fn expects(&self, event: &RenameEvent) -> (answered: bool)
        ensures
            answered == rename_answers(self@.stage, event@),
    {
        match self.stage {
            RenameStage::UnsupportedSource | RenameStage::UnsupportedTarget | RenameStage::ResolveTarget => matches!(
                event,
                RenameEvent::Resolved(_)
            ),
            RenameStage::UnsupportedRename | RenameStage::ConflictRename | RenameStage::Rename => matches!(
                event,
                RenameEvent::Renamed(_)
            ),
            RenameStage::SeedSource | RenameStage::SeedTarget => matches!(event, RenameEvent::Seeded(_)),
            RenameStage::ObserveTarget | RenameStage::ObserveSource => matches!(event, RenameEvent::Observed(_)),
            RenameStage::Finished => false,
            _ => matches!(event, RenameEvent::Read(_)),
        }
    }

    fn fail(&mut self, message: &'static str, with_error: bool) -> (request: RenameRequest)
        ensures
            final(self)@ == (RenameView { stage: RenameStage::Finished, ..old(self)@ }),
            request@ == (RenameRequestView::Fail { message: message@, with_error }),
    {
        self.stage = RenameStage::Finished;
        RenameRequest::Fail { message, with_error }
    }

    fn record(&mut self, ctx: &mut ContractContext, outcome: ContractCheckOutcome) -> (request: RenameRequest)
        ensures
            (final(self)@, final(ctx)@, request@) == rename_recording(old(self)@, old(ctx)@, outcome@),
    {
        self.stage = RenameStage::Finished;
        ctx.record_check(self.id, Some(self.capability), outcome);
        RenameRequest::Finish
    }

    fn rename(&mut self, stage: RenameStage, overwrite: bool) -> (request: RenameRequest)
        ensures
            final(self)@ == (RenameView { stage, ..old(self)@ }),
            request@ == rename_of(old(self)@, overwrite),
    {
        self.stage = stage;
        RenameRequest::Rename {
            source: self.source.clone(),
            target: self.target.clone(),
            atomic: self.atomic,
            durable: self.durable,
            overwrite,
        }
    }

    fn read(&mut self, stage: RenameStage, path: &String) -> (request: RenameRequest)
        ensures
            final(self)@ == (RenameView { stage, ..old(self)@ }),
            request@ == (RenameRequestView::Read { path: path@ }),
    {
        self.stage = stage;
        RenameRequest::Read { path: path.clone() }
    }

    fn observe(&mut self, stage: RenameStage, path: &String) -> (request: RenameRequest)
        ensures
            final(self)@ == (RenameView { stage, ..old(self)@ }),
            request@ == (RenameRequestView::Observe { path: path@ }),
    {
        self.stage = stage;
        RenameRequest::Observe { path: path.clone() }
    }

    fn after_target(&mut self, ctx: &mut ContractContext, target: String) -> (request: RenameRequest)
        ensures
            (final(self)@, final(ctx)@, request@) == after_target(old(self)@, old(ctx)@, target@),
    {
        self.target = target.clone();
        ctx.record_created(target);
        if self.source == self.target {
            self.fail("rename fixture requires distinct paths", false)
        } else {
            let source = self.source.clone();
            self.read(RenameStage::ReadSource, &source)
        }
    }

    /// Takes the answer to the pending request, records what the step
    /// names in the suite context, and returns the next request.
    pub fn advance(&mut self, ctx: &mut ContractContext, event: RenameEvent) -> (request: RenameRequest)
        requires
            rename_answers(old(self)@.stage, event@),
        ensures
            (final(self)@, final(ctx)@, request@) == rename_step(old(self)@, old(ctx)@, event@),
    {
        match self.stage {
            RenameStage::UnsupportedSource | RenameStage::UnsupportedTarget | RenameStage::UnsupportedRename => self.on_unsupported(ctx, event),
            RenameStage::SeedSource | RenameStage::SeedTarget | RenameStage::ResolveTarget => self.on_prepare(ctx, event),
            RenameStage::ReadSource | RenameStage::ReadTargetInitial | RenameStage::ConflictReadSource
            | RenameStage::ConflictReadTarget | RenameStage::ReadTarget => self.on_read(ctx, event),
            RenameStage::ConflictRename | RenameStage::Rename => self.on_renamed(ctx, event),
            RenameStage::ObserveTarget | RenameStage::ObserveSource => self.on_observed(ctx, event),
            RenameStage::Finished => RenameRequest::Finish,
        }
    }

    fn on_unsupported(&mut self, ctx: &mut ContractContext, event: RenameEvent) -> (request: RenameRequest)
        requires
            old(self)@.stage == RenameStage::UnsupportedSource || old(self)@.stage == RenameStage::UnsupportedTarget
                || old(self)@.stage == RenameStage::UnsupportedRename,
            rename_answers(old(self)@.stage, event@),
        ensures
            (final(self)@, final(ctx)@, request@) == rename_step(old(self)@, old(ctx)@, event@),
    {
        match self.stage {
            RenameStage::UnsupportedSource => match event {
                RenameEvent::Resolved(Some(source)) => {
                    self.source = source;
                    self.stage = RenameStage::UnsupportedTarget;
                    RenameRequest::ResolvePath { name: self.target_name.clone() }
                },
                _ => self.fail("rename source path preparation failed", true),
            },
            RenameStage::UnsupportedTarget => match event {
                RenameEvent::Resolved(Some(target)) => {
                    self.target = target;
                    self.rename(RenameStage::UnsupportedRename, false)
                },
                _ => self.fail("rename target path preparation failed", true),
            },
            _ => match event {
                RenameEvent::Renamed(Err(rejection)) => {
                    let error = &rejection.error;
                    let kind = if self.capability == FileSystemCapability::Rename {
                        ErrorKind::UnsupportedCapability
                    } else {
                        ErrorKind::RequirementNotMet
                    };
                    if error.kind == kind && error.operation == OperationKind::Rename && text_is(
                        &error.path,
                        &self.source,
                    ) && text_is(&error.target, &self.target) && text_is(&error.provider, &self.provider)
                        && capability_is(error.required_capability, self.capability) && rejection.state
                        == RenameState::Unchanged {
                        self.record(ctx, ContractCheckOutcome::RejectedAsExpected)
                    } else {
                        self.fail("rename preflight rejection differs", true)
                    }
                },
                _ => self.fail("unavailable rename requirement succeeded", false),
            },
        }
    }

    fn on_prepare(&mut self, ctx: &mut ContractContext, event: RenameEvent) -> (request: RenameRequest)
        requires
            old(self)@.stage == RenameStage::SeedSource || old(self)@.stage == RenameStage::SeedTarget
                || old(self)@.stage == RenameStage::ResolveTarget,
            rename_answers(old(self)@.stage, event@),
        ensures
            (final(self)@, final(ctx)@, request@) == rename_step(old(self)@, old(ctx)@, event@),
    {
        match self.stage {
            RenameStage::SeedSource => match event {
                RenameEvent::Seeded(SeedOutcome::Supported(source)) => {
                    self.source = source.clone();
                    ctx.record_created(source);
                    if self.id == ContractCheckId::RenameConflict {
                        self.stage = RenameStage::SeedTarget;
                        RenameRequest::SeedFile { name: self.target_name.clone(), contents: "old target" }
                    } else {
                        self.stage = RenameStage::ResolveTarget;
                        RenameRequest::ResolvePath { name: self.target_name.clone() }
                    }
                },
                RenameEvent::Seeded(SeedOutcome::Unsupported) => self.record(
                    ctx,
                    ContractCheckOutcome::Unverified {
                        reason: String::from_str("rename needs independently prepared source contents"),
                    },
                ),
                _ => self.fail("rename source preparation failed", true),
            },
            RenameStage::SeedTarget => match event {
                RenameEvent::Seeded(SeedOutcome::Supported(target)) => self.after_target(ctx, target),
                RenameEvent::Seeded(SeedOutcome::Unsupported) => self.record(
                    ctx,
                    ContractCheckOutcome::Unverified {
                        reason: String::from_str("rename conflict needs an independently prepared target"),
                    },
                ),
                _ => self.fail("rename conflict target preparation failed", true),
            },
            _ => match event {
                RenameEvent::Resolved(Some(target)) => self.after_target(ctx, target),
                _ => self.fail("rename target preparation failed", true),
            },
        }
    }

    fn on_read(&mut self, ctx: &mut ContractContext, event: RenameEvent) -> (request: RenameRequest)
        requires
            old(self)@.stage == RenameStage::ReadSource || old(self)@.stage == RenameStage::ReadTargetInitial
                || old(self)@.stage == RenameStage::ConflictReadSource || old(self)@.stage
                == RenameStage::ConflictReadTarget || old(self)@.stage == RenameStage::ReadTarget,
            rename_answers(old(self)@.stage, event@),
        ensures
            (final(self)@, final(ctx)@, request@) == rename_step(old(self)@, old(ctx)@, event@),
    {
        let contents = match event {
            RenameEvent::Read(contents) => contents,
            _ => {
                return RenameRequest::Finish;
            },
        };
        let failed = matches!(contents, Contents::Failed);
        let source_seen = holds_bytes(&contents, "rename source".as_bytes());
        let old_seen = holds_bytes(&contents, "old target".as_bytes());
        match self.stage {
            RenameStage::ReadSource => if failed {
                self.fail("rename initial source observation failed", true)
            } else if !source_seen {
                self.fail("rename source fixture contents differ", false)
            } else if self.id == ContractCheckId::RenameConflict {
                let target = self.target.clone();
                self.read(RenameStage::ReadTargetInitial, &target)
            } else {
                let target = self.target.clone();
                self.observe(RenameStage::ObserveTarget, &target)
            },
            RenameStage::ReadTargetInitial => if failed {
                self.fail("rename initial target observation failed", true)
            } else if old_seen {
                self.rename(RenameStage::ConflictRename, false)
            } else {
                self.fail("rename conflict target fixture contents differ", false)
            },
            RenameStage::ConflictReadSource => if failed {
                self.fail("rename conflict observation failed", true)
            } else if source_seen {
                let target = self.target.clone();
                self.read(RenameStage::ConflictReadTarget, &target)
            } else {
                self.fail("rename conflict changed source or target", false)
            },
            RenameStage::ConflictReadTarget => if failed {
                self.fail("rename conflict observation failed", true)
            } else if old_seen {
                self.rename(RenameStage::Rename, true)
            } else {
                self.fail("rename conflict changed source or target", false)
            },
            _ => if failed {
                self.fail("rename target content observation failed", true)
            } else if source_seen {
                self.record(ctx, ContractCheckOutcome::Passed)
            } else {
                self.fail("rename/basic: target bytes mismatch", false)
            },
        }
    }

    fn on_renamed(&mut self, ctx: &mut ContractContext, event: RenameEvent) -> (request: RenameRequest)
        requires
            old(self)@.stage == RenameStage::ConflictRename || old(self)@.stage == RenameStage::Rename,
            rename_answers(old(self)@.stage, event@),
        ensures
            (final(self)@, final(ctx)@, request@) == rename_step(old(self)@, old(ctx)@, event@),
    {
        if self.stage == RenameStage::ConflictRename {
            match event {
                RenameEvent::Renamed(Err(rejection)) => {
                    let error = &rejection.error;
                    if rejection.state == RenameState::Unchanged && error.kind == ErrorKind::AlreadyExists
                        && error.operation == OperationKind::Rename && text_is(&error.path, &self.source) && text_is(
                        &error.target,
                        &self.target,
                    ) && text_is(&error.provider, &self.provider) {
                        let source = self.source.clone();
                        self.read(RenameStage::ConflictReadSource, &source)
                    } else {
                        self.fail("rename conflict rejection differs", true)
                    }
                },
                _ => self.fail("rename contract: default conflict replaced target", false),
            }
        } else {
            match event {
                RenameEvent::Renamed(Ok(report)) => {
                    if !(report.source == self.source && report.target == self.target) {
                        self.fail("rename/basic: source context mismatch or target context mismatch", false)
                    } else if self.id == ContractCheckId::RenameAtomic && !report.atomic {
                        self.fail("rename/atomic: required operation reported non-atomic publication", false)
                    } else if self.id == ContractCheckId::RenameDurable && !report.durable {
                        self.fail("rename/durable: required operation reported non-durable publication", false)
                    } else {
                        let source = self.source.clone();
                        self.observe(RenameStage::ObserveSource, &source)
                    }
                },
                _ => self.fail("rename/basic: rename failed", true),
            }
        }
    }

    fn on_observed(&mut self, ctx: &mut ContractContext, event: RenameEvent) -> (request: RenameRequest)
        requires
            old(self)@.stage == RenameStage::ObserveTarget || old(self)@.stage == RenameStage::ObserveSource,
            rename_answers(old(self)@.stage, event@),
        ensures
            (final(self)@, final(ctx)@, request@) == rename_step(old(self)@, old(ctx)@, event@),
    {
        if self.stage == RenameStage::ObserveTarget {
            match event {
                RenameEvent::Observed(Presence::Present(false)) => self.rename(RenameStage::Rename, false),
                RenameEvent::Observed(Presence::Failed) => self.fail("rename initial target observation failed", true),
                _ => self.fail("rename target must initially be absent", false),
            }
        } else {
            match event {
                RenameEvent::Observed(Presence::Present(false)) => {
                    let target = self.target.clone();
                    self.read(RenameStage::ReadTarget, &target)
                },
                RenameEvent::Observed(Presence::Failed) => self.fail("rename source removal observation failed", true),
                _ => self.fail("rename/basic: source remained after success", false),
            }
        }
    }
}

} // verus!
