//! Evidence that a file copy achieves a required atomic or durable
//! publication, as a step machine: the driver performs each request
//! against the file system under test and hands the answer back.
use vstd::prelude::*;
use vstd::string::StringSliceAdditionalSpecFns;

use crate::capability::FileSystemCapability;
use crate::contract_check_id::ContractCheckId;
use crate::contract_check_outcome::ContractCheckOutcome;
use crate::contract_check_outcome::OutcomeView;
use crate::contract_context::ContextView;
use crate::contract_context::ContractContext;
use crate::contract_context::begun;
use crate::contract_context::relative_in;
use crate::contract_context::with_created;
use crate::contract_context::with_recorded;
use crate::fs_facts::Contents;
use crate::fs_facts::ContentsView;
use crate::fs_facts::ErrorFacts;
use crate::fs_facts::ErrorFactsView;
use crate::fs_facts::ErrorKind;
use crate::fs_facts::OperationKind;
use crate::fs_facts::holds_bytes;
use crate::fs_facts::text_is;
use crate::fs_facts::text_of;

verus! {

/// The next thing the driver does for a strong file copy check.
#[derive(Debug, PartialEq, Eq)]
pub enum StrongCopyRequest {
    /// Resolve this fixture-relative name to a provider path.
    ResolvePath {
        /// The fixture-relative name.
        name: String,
    },
    /// Ask the fixture to prepare a file copy between these names with the
    /// UTF-8 bytes of `contents` at the source, requiring atomic
    /// publication when `atomic` holds and durable publication otherwise.
    PrepareCopy {
        /// The fixture-relative source name.
        source: String,
        /// The fixture-relative target name.
        target: String,
        /// The text whose bytes the source holds.
        contents: &'static str,
        /// Whether atomic rather than durable publication is required.
        atomic: bool,
    },
    /// Read the source's bytes, then observe whether the target exists,
    /// both out of band.
    ObserveInitial {
        /// The source path.
        source: String,
        /// The target path.
        target: String,
    },
    /// Copy the file from `source` to `target` with the required
    /// guarantee.
    Copy {
        /// The source path.
        source: String,
        /// The target path.
        target: String,
        /// Whether atomic rather than durable publication is required.
        atomic: bool,
    },
    /// Read the bytes at `path` out of band.
    Read {
        /// The path.
        path: String,
    },
    /// The check was recorded.
    Finish,
    /// The check failed with `message`.
    Fail {
        /// The diagnostic.
        message: &'static str,
        /// Whether the error just answered is attached as the source.
        with_error: bool,
    },
}

/// The abstract form of a strong copy request.
pub enum StrongCopyRequestView {
    /// Resolve a name.
    ResolvePath { name: Seq<char> },
    /// Prepare a copy.
    PrepareCopy { source: Seq<char>, target: Seq<char>, contents: Seq<char>, atomic: bool },
    /// Observe the initial state.
    ObserveInitial { source: Seq<char>, target: Seq<char> },
    /// Copy.
    Copy { source: Seq<char>, target: Seq<char>, atomic: bool },
    /// Read a path.
    Read { path: Seq<char> },
    /// The check was recorded.
    Finish,
    /// The check failed.
    Fail { message: Seq<char>, with_error: bool },
}

impl View for StrongCopyRequest {
    type V = StrongCopyRequestView;

    open spec fn view(&self) -> StrongCopyRequestView {
        match self {
            StrongCopyRequest::ResolvePath { name } => StrongCopyRequestView::ResolvePath { name: name@ },
            StrongCopyRequest::PrepareCopy { source, target, contents, atomic } => StrongCopyRequestView::PrepareCopy {
                source: source@,
                target: target@,
                contents: contents@,
                atomic: *atomic,
            },
            StrongCopyRequest::ObserveInitial { source, target } => StrongCopyRequestView::ObserveInitial {
                source: source@,
                target: target@,
            },
            StrongCopyRequest::Copy { source, target, atomic } => StrongCopyRequestView::Copy {
                source: source@,
                target: target@,
                atomic: *atomic,
            },
            StrongCopyRequest::Read { path } => StrongCopyRequestView::Read { path: path@ },
            StrongCopyRequest::Finish => StrongCopyRequestView::Finish,
            StrongCopyRequest::Fail { message, with_error } => StrongCopyRequestView::Fail {
                message: message@,
                with_error: *with_error,
            },
        }
    }
}

/// What the fixture's strong copy preparation answered.
pub enum StrongPreparation {
    /// The preparation hook failed.
    Failed,
    /// The fixture cannot prepare the copy, for this reason.
    Unavailable(String),
    /// The copy does not apply to the fixture, for this reason.
    NotApplicable(String),
    /// The copy is ready.
    Ready {
        /// The source path.
        source: String,
        /// The target path.
        target: String,
        /// Whether the prepared options are exactly the required ones.
        options_exact: bool,
    },
}

/// What the initial out-of-band observations answered.
pub enum InitialObservation {
    /// Reading the source failed.
    SourceFailed,
    /// Observing the target failed.
    TargetFailed,
    /// The fixture cannot read the source or observe the target.
    Unsupported,
    /// The source's bytes and whether the target exists.
    Observed {
        /// The source's bytes.
        source: Vec<u8>,
        /// Whether the target exists.
        exists: bool,
    },
}

/// A successful copy as the facade reported it.
#[derive(Clone, Copy, Debug, PartialEq, Eq, Structural)]
pub struct StrongCopyFacts {
    /// Whether publication was atomic.
    pub atomic: bool,
    /// Whether publication was durable.
    pub durable: bool,
    /// The bytes copied.
    pub bytes: u64,
    /// The files copied.
    pub files: u64,
    /// The objects copied.
    pub objects: u64,
}

/// A failed copy: the facade error and whether nothing changed.
pub struct StrongCopyRefusal {
    /// The error.
    pub error: ErrorFacts,
    /// Whether the failure state is "unchanged".
    pub unchanged: bool,
}

/// The answer to the pending strong copy request.
pub enum StrongCopyEvent {
    /// The resolved path, or `None` when the fixture could not map it.
    Resolved(Option<String>),
    /// The fixture's preparation answered.
    Prepared(StrongPreparation),
    /// The initial observations answered.
    Initial(InitialObservation),
    /// The copy answered.
    Copied(Result<StrongCopyFacts, StrongCopyRefusal>),
    /// A content observation answered.
    Read(Contents),
}

/// The abstract form of a preparation answer.
pub enum StrongPreparationView {
    /// The hook failed.
    Failed,
    /// The copy cannot be prepared or does not apply, for this reason.
    Skipped(Seq<char>),
    /// The copy is ready.
    Ready { source: Seq<char>, target: Seq<char>, options_exact: bool },
}

/// The abstract form of the initial observations.
pub enum InitialView {
    /// Reading the source failed.
    SourceFailed,
    /// Observing the target failed.
    TargetFailed,
    /// An observation is unsupported.
    Unsupported,
    /// Both observations.
    Observed { source: Seq<u8>, exists: bool },
}

/// The abstract form of a strong copy answer.
pub enum StrongCopyEventView {
    /// A resolved path.
    Resolved(Option<Seq<char>>),
    /// A preparation answer.
    Prepared(StrongPreparationView),
    /// The initial observations.
    Initial(InitialView),
    /// A successful copy.
    Copied(StrongCopyFacts),
    /// A refused copy and whether nothing changed.
    Refused(ErrorFactsView, bool),
    /// A content observation.
    Read(ContentsView),
}

impl View for StrongCopyEvent {
    type V = StrongCopyEventView;

    open spec fn view(&self) -> StrongCopyEventView {
        match self {
            StrongCopyEvent::Resolved(path) => StrongCopyEventView::Resolved(text_of(*path)),
            StrongCopyEvent::Prepared(StrongPreparation::Failed) => StrongCopyEventView::Prepared(
                StrongPreparationView::Failed,
            ),
            StrongCopyEvent::Prepared(StrongPreparation::Unavailable(reason)) => StrongCopyEventView::Prepared(
                StrongPreparationView::Skipped(reason@),
            ),
            StrongCopyEvent::Prepared(StrongPreparation::NotApplicable(reason)) => StrongCopyEventView::Prepared(
                StrongPreparationView::Skipped(reason@),
            ),
            StrongCopyEvent::Prepared(StrongPreparation::Ready { source, target, options_exact }) => StrongCopyEventView::Prepared(
                StrongPreparationView::Ready { source: source@, target: target@, options_exact: *options_exact },
            ),
            StrongCopyEvent::Initial(InitialObservation::SourceFailed) => StrongCopyEventView::Initial(
                InitialView::SourceFailed,
            ),
            StrongCopyEvent::Initial(InitialObservation::TargetFailed) => StrongCopyEventView::Initial(
                InitialView::TargetFailed,
            ),
            StrongCopyEvent::Initial(InitialObservation::Unsupported) => StrongCopyEventView::Initial(
                InitialView::Unsupported,
            ),
            StrongCopyEvent::Initial(InitialObservation::Observed { source, exists }) => StrongCopyEventView::Initial(
                InitialView::Observed { source: source@, exists: *exists },
            ),
            StrongCopyEvent::Copied(Ok(facts)) => StrongCopyEventView::Copied(*facts),
            StrongCopyEvent::Copied(Err(refusal)) => StrongCopyEventView::Refused(refusal.error@, refusal.unchanged),
            StrongCopyEvent::Read(contents) => StrongCopyEventView::Read(contents@),
        }
    }
}

/// The request a strong copy check waits on.
#[derive(Clone, Copy, Debug, PartialEq, Eq, Structural)]
pub enum StrongCopyStage {
    /// The source path of a copy that must be rejected is being resolved.
    ResolveSource,
    /// Its target path is being resolved.
    ResolveTarget,
    /// The copy that must be rejected runs.
    Rejected,
    /// The fixture prepares the copy.
    Prepare,
    /// The initial state is observed.
    Initial,
    /// The copy runs.
    Copy,
    /// The source is read at the end.
    FinalSource,
    /// The target is read at the end.
    FinalTarget,
    /// The check has finished.
    Finished,
}

/// The abstract state of a strong copy check.
pub struct StrongCopyView {
    /// The check.
    pub id: ContractCheckId,
    /// Whether atomic rather than durable publication is required.
    pub atomic: bool,
    /// The provider identity errors must report.
    pub provider: Seq<char>,
    /// The fixture-relative target name.
    pub target_name: Seq<char>,
    /// The source path, once known.
    pub source: Seq<char>,
    /// The target path, once known.
    pub target: Seq<char>,
    /// The stage.
    pub stage: StrongCopyStage,
}

/// Drives one strong file copy check: an unadvertised guarantee must be
/// refused with exact context and no effect; an advertised one must
/// publish the source bytes with that guarantee into an absent target.
pub struct StrongCopyProbe {
    id: ContractCheckId,
    atomic: bool,
    provider: String,
    target_name: String,
    source: String,
    target: String,
    stage: StrongCopyStage,
}

impl View for StrongCopyProbe {
    type V = StrongCopyView;

    closed spec fn view(&self) -> StrongCopyView {
        StrongCopyView {
            id: self.id,
            atomic: self.atomic,
            provider: self.provider@,
            target_name: self.target_name@,
            source: self.source@,
            target: self.target@,
            stage: self.stage,
        }
    }
}

/// The bytes a strong copy moves.
pub open spec fn strong_bytes() -> Seq<u8> {
    "strong copy contents".spec_bytes()
}

/// The guarantee capability a strong copy check exercises.
pub open spec fn guarantee_of(atomic: bool) -> FileSystemCapability {
    if atomic {
        FileSystemCapability::AtomicFileCopy
    } else {
        FileSystemCapability::DurableFileCopy
    }
}

/// The start of a strong copy check over the suite context: the phase
/// begins; a check of another kind fails; without copy the check does not
/// apply; without the guarantee the source of a copy that must be refused
/// is resolved; and otherwise the copy is prepared.
pub open spec fn strong_start(
    id: ContractCheckId,
    copy: bool,
    guarantee: bool,
    provider: Seq<char>,
    ctx: ContextView,
) -> (StrongCopyView, ContextView, StrongCopyRequestView) {
    let ctx = begun(ctx, id.stable_name());
    let atomic = id == ContractCheckId::CopyAtomicFile;
    let source_name = relative_in(ctx, "strong-copy-source"@);
    let target_name = relative_in(ctx, "strong-copy-target"@);
    let p = StrongCopyView {
        id,
        atomic,
        provider,
        target_name,
        source: Seq::empty(),
        target: Seq::empty(),
        stage: StrongCopyStage::Finished,
    };
    if id != ContractCheckId::CopyAtomicFile && id != ContractCheckId::CopyDurableFile {
        (
            p,
            ctx,
            StrongCopyRequestView::Fail { message: "selected check is not a file-copy guarantee"@, with_error: false },
        )
    } else if !copy {
        (
            p,
            with_recorded(
                ctx,
                id,
                Some(guarantee_of(atomic)),
                OutcomeView::NotApplicable { reason: "Copy capability is unavailable"@ },
            ),
            StrongCopyRequestView::Finish,
        )
    } else if !guarantee {
        (
            StrongCopyView { stage: StrongCopyStage::ResolveSource, ..p },
            ctx,
            StrongCopyRequestView::ResolvePath { name: source_name },
        )
    } else {
        (
            StrongCopyView { stage: StrongCopyStage::Prepare, ..p },
            ctx,
            StrongCopyRequestView::PrepareCopy {
                source: source_name,
                target: target_name,
                contents: "strong copy contents"@,
                atomic,
            },
        )
    }
}

/// The kind of answer a stage waits for.
pub open spec fn strong_answers(stage: StrongCopyStage, event: StrongCopyEventView) -> bool {
    match stage {
        StrongCopyStage::ResolveSource | StrongCopyStage::ResolveTarget => event is Resolved,
        StrongCopyStage::Rejected | StrongCopyStage::Copy => event is Copied || event is Refused,
        StrongCopyStage::Prepare => event is Prepared,
        StrongCopyStage::Initial => event is Initial,
        StrongCopyStage::FinalSource | StrongCopyStage::FinalTarget => event is Read,
        StrongCopyStage::Finished => false,
    }
}

/// Whether a refused copy reports exactly the missing guarantee: an unmet
/// requirement of the copy operation naming the guarantee, the source, the
/// target and the provider, with nothing changed.
pub open spec fn guarantee_refusal_exact(error: ErrorFactsView, unchanged: bool, p: StrongCopyView) -> bool {
    &&& error.kind == ErrorKind::RequirementNotMet
    &&& error.operation == OperationKind::Copy
    &&& error.required_capability == Some(guarantee_of(p.atomic))
    &&& error.path == Some(p.source)
    &&& error.target == Some(p.target)
    &&& error.provider == Some(p.provider)
    &&& unchanged
}

/// The first evidence that a successful strong copy contradicts, or `None`
/// when it is consistent: the required guarantee must be achieved and the
/// statistics must count the copied bytes and one entry.
pub open spec fn strong_flaw(facts: StrongCopyFacts, atomic: bool) -> Option<Seq<char>> {
    if !(if atomic {
        facts.atomic
    } else {
        facts.durable
    }) {
        Some("copy did not achieve its required publication guarantee"@)
    } else if facts.bytes != strong_bytes().len() || facts.files + facts.objects != 1 {
        Some("strong copy statistics differ"@)
    } else {
        None
    }
}

/// The transition of a strong copy check at `p.stage` on `event`.
pub open spec fn strong_step(p: StrongCopyView, ctx: ContextView, event: StrongCopyEventView) -> (
    StrongCopyView,
    ContextView,
    StrongCopyRequestView,
) {
    let done = StrongCopyView { stage: StrongCopyStage::Finished, ..p };
    let fail = |message: Seq<char>, with_error: bool| (done, ctx, StrongCopyRequestView::Fail { message, with_error });
    let record = |outcome: OutcomeView| (
        done,
        with_recorded(ctx, p.id, Some(guarantee_of(p.atomic)), outcome),
        StrongCopyRequestView::Finish,
    );
    match (p.stage, event) {
        (StrongCopyStage::ResolveSource, StrongCopyEventView::Resolved(Some(source))) => (
            StrongCopyView { source, stage: StrongCopyStage::ResolveTarget, ..p },
            ctx,
            StrongCopyRequestView::ResolvePath { name: p.target_name },
        ),
        (StrongCopyStage::ResolveSource, _) => fail("strong copy source path failed"@, true),
        (StrongCopyStage::ResolveTarget, StrongCopyEventView::Resolved(Some(target))) => (
            StrongCopyView { target, stage: StrongCopyStage::Rejected, ..p },
            with_created(ctx, target),
            StrongCopyRequestView::Copy { source: p.source, target, atomic: p.atomic },
        ),
        (StrongCopyStage::ResolveTarget, _) => fail("strong copy target path failed"@, true),
        (StrongCopyStage::Rejected, StrongCopyEventView::Refused(error, unchanged)) => if guarantee_refusal_exact(
            error,
            unchanged,
            p,
        ) {
            record(OutcomeView::RejectedAsExpected)
        } else {
            fail("strong copy rejection differs"@, true)
        },
        (StrongCopyStage::Rejected, _) => fail("unavailable copy guarantee succeeded"@, false),
        (StrongCopyStage::Prepare, StrongCopyEventView::Prepared(StrongPreparationView::Skipped(reason))) => record(
            OutcomeView::Unverified { reason },
        ),
        (
            StrongCopyStage::Prepare,
            StrongCopyEventView::Prepared(StrongPreparationView::Ready { source, target, options_exact }),
        ) => {
            let ctx = with_created(with_created(ctx, source), target);
            let p = StrongCopyView { source, target, ..p };
            if source == target || !options_exact {
                (
                    StrongCopyView { stage: StrongCopyStage::Finished, ..p },
                    ctx,
                    StrongCopyRequestView::Fail {
                        message: "strong copy preparation changed required request semantics"@,
                        with_error: false,
                    },
                )
            } else {
                (
                    StrongCopyView { stage: StrongCopyStage::Initial, ..p },
                    ctx,
                    StrongCopyRequestView::ObserveInitial { source, target },
                )
            }
        },
        (StrongCopyStage::Prepare, _) => fail("strong copy preparation failed"@, true),
        (StrongCopyStage::Initial, StrongCopyEventView::Initial(InitialView::Observed { source, exists })) => if source
            == strong_bytes() && !exists {
            (
                StrongCopyView { stage: StrongCopyStage::Copy, ..p },
                ctx,
                StrongCopyRequestView::Copy { source: p.source, target: p.target, atomic: p.atomic },
            )
        } else {
            fail("strong copy initial state differs"@, false)
        },
        (StrongCopyStage::Initial, StrongCopyEventView::Initial(InitialView::Unsupported)) => record(
            OutcomeView::Unverified { reason: "strong copy requires independent source bytes and target absence"@ },
        ),
        (StrongCopyStage::Initial, StrongCopyEventView::Initial(InitialView::SourceFailed)) => fail(
            "strong copy source observation failed"@,
            true,
        ),
        (StrongCopyStage::Initial, _) => fail("strong copy destination observation failed"@, true),
        (StrongCopyStage::Copy, StrongCopyEventView::Copied(facts)) => match strong_flaw(facts, p.atomic) {
            Some(message) => fail(message, false),
            None => (
                StrongCopyView { stage: StrongCopyStage::FinalSource, ..p },
                ctx,
                StrongCopyRequestView::Read { path: p.source },
            ),
        },
        (StrongCopyStage::Copy, _) => fail("strong copy execution failed"@, true),
        (StrongCopyStage::FinalSource, StrongCopyEventView::Read(ContentsView::Failed))
        | (StrongCopyStage::FinalTarget, StrongCopyEventView::Read(ContentsView::Failed)) => fail(
            "strong copy final observation failed"@,
            true,
        ),
        (StrongCopyStage::FinalSource, StrongCopyEventView::Read(contents))
        | (StrongCopyStage::FinalTarget, StrongCopyEventView::Read(contents)) => if contents != ContentsView::Bytes(
            strong_bytes(),
        ) {
            fail("strong copy changed source or published incorrect target contents"@, false)
        } else if p.stage == StrongCopyStage::FinalSource {
            (
                StrongCopyView { stage: StrongCopyStage::FinalTarget, ..p },
                ctx,
                StrongCopyRequestView::Read { path: p.target },
            )
        } else {
            record(OutcomeView::Passed)
        },
        (_, _) => (p, ctx, StrongCopyRequestView::Finish),
    }
}

/// A strong copy check records a pass only after both files were read
/// holding the source bytes at the end; it runs the real copy only after
/// the source was seen holding those bytes and the target absent; and it
/// records an expected rejection only for an exact refusal without effect.
pub proof fn law_strong_copy_passes_only_on_evidence(p: StrongCopyView, ctx: ContextView, event: StrongCopyEventView)
    requires
        strong_answers(p.stage, event),
    ensures
        p.stage == StrongCopyStage::FinalTarget && strong_step(p, ctx, event).2 is Finish ==> event
            == StrongCopyEventView::Read(ContentsView::Bytes(strong_bytes())) && strong_step(p, ctx, event).1
            == with_recorded(ctx, p.id, Some(guarantee_of(p.atomic)), OutcomeView::Passed),
        p.stage == StrongCopyStage::Initial && strong_step(p, ctx, event).2 is Copy ==> event
            == StrongCopyEventView::Initial(InitialView::Observed { source: strong_bytes(), exists: false }),
        p.stage == StrongCopyStage::Rejected && strong_step(p, ctx, event).2 is Finish ==> (
        event matches StrongCopyEventView::Refused(error, unchanged) && guarantee_refusal_exact(error, unchanged, p)),
{
}

/// The check after answering `events` in turn from `state`, stopping at the
/// first event that the pending stage does not wait for.
pub open spec fn strong_trace(
    state: (StrongCopyView, ContextView, StrongCopyRequestView),
    events: Seq<StrongCopyEventView>,
) -> (StrongCopyView, ContextView, StrongCopyRequestView)
    decreases events.len(),
{
    if events.len() == 0 || !strong_answers(state.0.stage, events[0]) {
        state
    } else {
        strong_trace(strong_step(state.0, state.1, events[0]), events.drop_first())
    }
}

/// With copy and the guarantee advertised, a strong copy check reaches the
/// final read of the target only after the whole scenario: the fixture
/// prepared distinct source and target paths with the exact options, the
/// source was seen holding the bytes and the target absent, the copy
/// achieved the guarantee with exact statistics, and the source was read
/// back unchanged. That read of the target then finishes the check,
/// recording a pass, exactly when it returns the bytes; any other read
/// fails it.
pub proof fn law_strong_copy_pass_needs_full_evidence(
    id: ContractCheckId,
    provider: Seq<char>,
    ctx: ContextView,
    events: Seq<StrongCopyEventView>,
    last: ContentsView,
)
    requires
        strong_trace(strong_start(id, true, true, provider, ctx), events).0.stage == StrongCopyStage::FinalTarget,
    ensures
        ({
            let reached = strong_trace(strong_start(id, true, true, provider, ctx), events);
            let answered = strong_step(reached.0, reached.1, StrongCopyEventView::Read(last));
            &&& id == ContractCheckId::CopyAtomicFile || id == ContractCheckId::CopyDurableFile
            &&& events.len() >= 4
            &&& events[0] matches StrongCopyEventView::Prepared(
                StrongPreparationView::Ready { source, target, options_exact },
            ) && source == reached.0.source && target == reached.0.target && source != target && options_exact
            &&& events[1] == StrongCopyEventView::Initial(InitialView::Observed { source: strong_bytes(), exists: false })
            &&& events[2] matches StrongCopyEventView::Copied(facts) && strong_flaw(facts, reached.0.atomic) is None
            &&& events[3] == StrongCopyEventView::Read(ContentsView::Bytes(strong_bytes()))
            &&& (answered.2 is Finish <==> last == ContentsView::Bytes(strong_bytes()))
            &&& answered.2 is Finish ==> answered.1 == with_recorded(
                reached.1,
                id,
                Some(guarantee_of(reached.0.atomic)),
                OutcomeView::Passed,
            )
            &&& !(answered.2 is Finish) ==> answered.2 is Fail
        }),
{
    reveal_with_fuel(strong_trace, 6);
    let start = strong_start(id, true, true, provider, ctx);
    let e1 = events.drop_first();
    let e2 = e1.drop_first();
    let e3 = e2.drop_first();
    assert(events.len() >= 1 && strong_answers(start.0.stage, events[0]));
    let s1 = strong_step(start.0, start.1, events[0]);
    assert(s1.0.stage == StrongCopyStage::Initial);
    assert(e1.len() >= 1 && e1[0] == events[1]);
    let s2 = strong_step(s1.0, s1.1, events[1]);
    assert(s2.0.stage == StrongCopyStage::Copy);
    assert(e2.len() >= 1 && e2[0] == events[2]);
    let s3 = strong_step(s2.0, s2.1, events[2]);
    assert(s3.0.stage == StrongCopyStage::FinalSource);
    assert(e3.len() >= 1 && e3[0] == events[3]);
}

impl StrongCopyProbe {
    /// Starts the strong copy check `id` in the suite context, given
    /// whether copy and the check's guarantee are advertised and the
    /// provider identity; returns the probe with its first request.
    pub fn new(ctx: &mut ContractContext, id: ContractCheckId, copy: bool, guarantee: bool, provider: String) -> (started: (
        StrongCopyProbe,
        StrongCopyRequest,
    ))
        ensures
            (started.0@, final(ctx)@, started.1@) == strong_start(id, copy, guarantee, provider@, old(ctx)@),
    {
        ctx.begin(id.as_str());
        let atomic = id == ContractCheckId::CopyAtomicFile;
        let source_name = ctx.relative_name("strong-copy-source");
        let target_name = ctx.relative_name("strong-copy-target");
        let mut probe = StrongCopyProbe {
            id,
            atomic,
            provider,
            target_name,
            source: String::new(),
            target: String::new(),
            stage: StrongCopyStage::Finished,
        };
        if id != ContractCheckId::CopyAtomicFile && id != ContractCheckId::CopyDurableFile {
            return (
                probe,
                StrongCopyRequest::Fail { message: "selected check is not a file-copy guarantee", with_error: false },
            );
        }
        if !copy {
            let capability = probe.capability();
            ctx.record_check(
                id,
                Some(capability),
                ContractCheckOutcome::NotApplicable { reason: String::from_str("Copy capability is unavailable") },
            );
            return (probe, StrongCopyRequest::Finish);
        }
        if !guarantee {
            probe.stage = StrongCopyStage::ResolveSource;
            return (probe, StrongCopyRequest::ResolvePath { name: source_name });
        }
        probe.stage = StrongCopyStage::Prepare;
        let target = probe.target_name.clone();
        (
            probe,
            StrongCopyRequest::PrepareCopy { source: source_name, target, contents: "strong copy contents", atomic },
        )
    }

    /// Returns the guarantee capability the check exercises.
    fn capability(&self) -> (capability: FileSystemCapability)
        ensures
            capability == guarantee_of(self@.atomic),
    {
        if self.atomic {
            FileSystemCapability::AtomicFileCopy
        } else {
            FileSystemCapability::DurableFileCopy
        }
    }

    /// Returns the stage the check waits in.
    pub fn stage(&self) -> (stage: StrongCopyStage)
        ensures
            stage == self@.stage,
    {
        self.stage
    }

    /// Returns whether `event` answers the request the check waits on.
    pub fn expects(&self, event: &StrongCopyEvent) -> (answered: bool)
        ensures
            answered == strong_answers(self@.stage, event@),
    {
        match self.stage {
            StrongCopyStage::ResolveSource | StrongCopyStage::ResolveTarget => matches!(
                event,
                StrongCopyEvent::Resolved(_)
            ),
            StrongCopyStage::Rejected | StrongCopyStage::Copy => matches!(event, StrongCopyEvent::Copied(_)),
            StrongCopyStage::Prepare => matches!(event, StrongCopyEvent::Prepared(_)),
            StrongCopyStage::Initial => matches!(event, StrongCopyEvent::Initial(_)),
            StrongCopyStage::FinalSource | StrongCopyStage::FinalTarget => matches!(event, StrongCopyEvent::Read(_)),
            StrongCopyStage::Finished => false,
        }
    }

    /// Ends the check with the failure `message`.
    fn fail(&mut self, message: &'static str, with_error: bool) -> (request: StrongCopyRequest)
        ensures
            final(self)@ == (StrongCopyView { stage: StrongCopyStage::Finished, ..old(self)@ }),
            request@ == (StrongCopyRequestView::Fail { message: message@, with_error }),
    {
        self.stage = StrongCopyStage::Finished;
        StrongCopyRequest::Fail { message, with_error }
    }

    /// Ends the check by recording `outcome`.
    fn record(&mut self, ctx: &mut ContractContext, outcome: ContractCheckOutcome) -> (request: StrongCopyRequest)
        ensures
            final(self)@ == (StrongCopyView { stage: StrongCopyStage::Finished, ..old(self)@ }),
            final(ctx)@ == with_recorded(old(ctx)@, old(self)@.id, Some(guarantee_of(old(self)@.atomic)), outcome@),
            request@ == StrongCopyRequestView::Finish,
    {
        self.stage = StrongCopyStage::Finished;
        let capability = self.capability();
        ctx.record_check(self.id, Some(capability), outcome);
        StrongCopyRequest::Finish
    }

    /// Returns whether a refusal reports exactly the missing guarantee.
    fn refusal_matches(&self, refusal: &StrongCopyRefusal) -> (exact: bool)
        ensures
            exact == guarantee_refusal_exact(refusal.error@, refusal.unchanged, self@),
    {
        let error = &refusal.error;
        let operation_ok = match error.operation {
            OperationKind::Copy => true,
            _ => false,
        };
        let capability = self.capability();
        error.kind == ErrorKind::RequirementNotMet && operation_ok && error.required_capability == Some(capability)
            && text_is(&error.path, &self.source) && text_is(&error.target, &self.target) && text_is(
            &error.provider,
            &self.provider,
        ) && refusal.unchanged
    }

    /// Takes the answer to the pending request, records what the step
    /// names in the suite context, and returns the next request.
    pub fn advance(&mut self, ctx: &mut ContractContext, event: StrongCopyEvent) -> (request: StrongCopyRequest)
        requires
            strong_answers(old(self)@.stage, event@),
        ensures
            (final(self)@, final(ctx)@, request@) == strong_step(old(self)@, old(ctx)@, event@),
    {
        match self.stage {
            StrongCopyStage::ResolveSource => match event {
                StrongCopyEvent::Resolved(Some(source)) => {
                    self.source = source;
                    self.stage = StrongCopyStage::ResolveTarget;
                    StrongCopyRequest::ResolvePath { name: self.target_name.clone() }
                },
                _ => self.fail("strong copy source path failed", true),
            },
            StrongCopyStage::ResolveTarget => match event {
                StrongCopyEvent::Resolved(Some(target)) => {
                    ctx.record_created(target.clone());
                    self.target = target;
                    self.stage = StrongCopyStage::Rejected;
                    StrongCopyRequest::Copy {
                        source: self.source.clone(),
                        target: self.target.clone(),
                        atomic: self.atomic,
                    }
                },
                _ => self.fail("strong copy target path failed", true),
            },
            StrongCopyStage::Rejected => match event {
                StrongCopyEvent::Copied(Err(refusal)) => if self.refusal_matches(&refusal) {
                    self.record(ctx, ContractCheckOutcome::RejectedAsExpected)
                } else {
                    self.fail("strong copy rejection differs", true)
                },
                _ => self.fail("unavailable copy guarantee succeeded", false),
            },
            StrongCopyStage::Prepare => match event {
                StrongCopyEvent::Prepared(StrongPreparation::Unavailable(reason))
                | StrongCopyEvent::Prepared(StrongPreparation::NotApplicable(reason)) => self.record(
                    ctx,
                    ContractCheckOutcome::Unverified { reason },
                ),
                StrongCopyEvent::Prepared(StrongPreparation::Ready { source, target, options_exact }) => {
                    ctx.record_created(source.clone());
                    ctx.record_created(target.clone());
                    self.source = source;
                    self.target = target;
                    if self.source == self.target || !options_exact {
                        self.fail("strong copy preparation changed required request semantics", false)
                    } else {
                        self.stage = StrongCopyStage::Initial;
                        StrongCopyRequest::ObserveInitial { source: self.source.clone(), target: self.target.clone() }
                    }
                },
                _ => self.fail("strong copy preparation failed", true),
            },
            StrongCopyStage::Initial => match event {
                StrongCopyEvent::Initial(InitialObservation::Observed { source, exists }) => {
                    let seen = holds_bytes(&Contents::Bytes(source), "strong copy contents".as_bytes());
                    if seen && !exists {
                        self.stage = StrongCopyStage::Copy;
                        StrongCopyRequest::Copy {
                            source: self.source.clone(),
                            target: self.target.clone(),
                            atomic: self.atomic,
                        }
                    } else {
                        self.fail("strong copy initial state differs", false)
                    }
                },
                StrongCopyEvent::Initial(InitialObservation::Unsupported) => self.record(
                    ctx,
                    ContractCheckOutcome::Unverified {
                        reason: String::from_str("strong copy requires independent source bytes and target absence"),
                    },
                ),
                StrongCopyEvent::Initial(InitialObservation::SourceFailed) => self.fail(
                    "strong copy source observation failed",
                    true,
                ),
                _ => self.fail("strong copy destination observation failed", true),
            },
            StrongCopyStage::Copy => match event {
                StrongCopyEvent::Copied(Ok(facts)) => {
                    let achieved = if self.atomic {
                        facts.atomic
                    } else {
                        facts.durable
                    };
                    let expected = "strong copy contents".as_bytes().len() as u64;
                    let one_entry = (facts.files == 1 && facts.objects == 0) || (facts.files == 0 && facts.objects
                        == 1);
                    if !achieved {
                        self.fail("copy did not achieve its required publication guarantee", false)
                    } else if facts.bytes != expected || !one_entry {
                        self.fail("strong copy statistics differ", false)
                    } else {
                        self.stage = StrongCopyStage::FinalSource;
                        StrongCopyRequest::Read { path: self.source.clone() }
                    }
                },
                _ => self.fail("strong copy execution failed", true),
            },
            StrongCopyStage::FinalSource | StrongCopyStage::FinalTarget => {
                let contents = match event {
                    StrongCopyEvent::Read(contents) => contents,
                    _ => {
                        return StrongCopyRequest::Finish;
                    },
                };
                if matches!(contents, Contents::Failed) {
                    self.fail("strong copy final observation failed", true)
                } else if !holds_bytes(&contents, "strong copy contents".as_bytes()) {
                    self.fail("strong copy changed source or published incorrect target contents", false)
                } else if self.stage == StrongCopyStage::FinalSource {
                    self.stage = StrongCopyStage::FinalTarget;
                    StrongCopyRequest::Read { path: self.target.clone() }
                } else {
                    self.record(ctx, ContractCheckOutcome::Passed)
                }
            },
            StrongCopyStage::Finished => StrongCopyRequest::Finish,
        }
    }
}

} // verus!
