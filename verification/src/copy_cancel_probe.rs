//! Copy cancellation evidence and explicit writer recovery, as a step
//! machine: the driver performs each request against the file system under
//! test, runs the copy until the fixture acknowledges the requested stage,
//! and hands the answers back.
use vstd::prelude::*;

use crate::cancellation_stage::AsyncCopyCancellationStage;
use crate::cancellation_stage::copy_cancellation_id;
use crate::capability::FileSystemCapability;
use crate::contract_check_id::ContractCheckId;
use crate::contract_check_outcome::ContractCheckOutcome;
use crate::contract_check_outcome::OutcomeView;
use crate::contract_context::ContextView;
use crate::contract_context::ContractContext;
use crate::contract_context::begun;
use crate::contract_context::relative_in;
use crate::contract_context::with_created;
use crate::contract_context::with_recorded;
use crate::fs_facts::ErrorKind;

verus! {

/// The next thing the driver does for a copy cancellation check.
#[derive(Debug, PartialEq, Eq)]
pub enum CancelRequest {
    /// Ask the fixture for a copy case whose execution it holds at `stage`,
    /// under this fixture-relative name.
    PrepareCancellation {
        /// The stage the fixture holds the copy at.
        stage: AsyncCopyCancellationStage,
        /// The fixture-relative name.
        name: String,
    },
    /// Observe out of band whether `path` exists and, when it does, read
    /// its bytes.
    ObserveFile {
        /// The path.
        path: String,
    },
    /// Begin the prepared copy, then create one execution future and drop
    /// it unpolled.
    BeginCopy,
    /// Execute the copy until the fixture acknowledges the stage, drop the
    /// execution there, and disarm the fixture's hold.
    RunUntilStage,
    /// Execute the cancelled copy once more.
    ExecuteAgain,
    /// Execute the cancelled copy a third time.
    ExecuteThird,
    /// Take the copy's recovery writer and abort it.
    AbortRecovery,
    /// The check was recorded.
    Finish,
    /// The check failed with `message`.
    Fail {
        /// The diagnostic.
        message: &'static str,
        /// Whether the error just answered is attached as the source.
        with_error: bool,
    },
}

/// The abstract form of a cancellation request.
pub enum CancelRequestView {
    /// Prepare a held copy.
    PrepareCancellation { stage: AsyncCopyCancellationStage, name: Seq<char> },
    /// Observe a file.
    ObserveFile { path: Seq<char> },
    /// Begin the copy.
    BeginCopy,
    /// Run until the stage.
    RunUntilStage,
    /// Execute once more.
    ExecuteAgain,
    /// Execute a third time.
    ExecuteThird,
    /// Abort the recovery writer.
    AbortRecovery,
    /// The check was recorded.
    Finish,
    /// The check failed.
    Fail { message: Seq<char>, with_error: bool },
}

impl View for CancelRequest {
    type V = CancelRequestView;

    open spec fn view(&self) -> CancelRequestView {
        match self {
            CancelRequest::PrepareCancellation { stage, name } => CancelRequestView::PrepareCancellation {
                stage: *stage,
                name: name@,
            },
            CancelRequest::ObserveFile { path } => CancelRequestView::ObserveFile { path: path@ },
            CancelRequest::BeginCopy => CancelRequestView::BeginCopy,
            CancelRequest::RunUntilStage => CancelRequestView::RunUntilStage,
            CancelRequest::ExecuteAgain => CancelRequestView::ExecuteAgain,
            CancelRequest::ExecuteThird => CancelRequestView::ExecuteThird,
            CancelRequest::AbortRecovery => CancelRequestView::AbortRecovery,
            CancelRequest::Finish => CancelRequestView::Finish,
            CancelRequest::Fail { message, with_error } => CancelRequestView::Fail {
                message: message@,
                with_error: *with_error,
            },
        }
    }
}

/// What the fixture's cancellation preparation answered.
pub enum CancelPreparation {
    /// The preparation hook failed.
    Failed,
    /// The fixture has no probe for the stage.
    Unsupported,
    /// The copy case is ready between these paths.
    Ready {
        /// The source path.
        source: String,
        /// The target path.
        target: String,
    },
}

/// What an independent file observation answered.
pub enum FileObservation {
    /// Observing existence failed.
    ExistsFailed,
    /// The fixture cannot observe existence.
    NoExistenceEvidence,
    /// The file is absent.
    Absent,
    /// Reading the present file failed.
    ReadFailed,
    /// The fixture cannot read the present file.
    NoByteEvidence,
    /// The file holds these bytes.
    Bytes(Vec<u8>),
}

/// The copy operation's state after an execution future was dropped
/// unpolled.
#[derive(Clone, Copy, Debug, PartialEq, Eq, Structural)]
pub struct UnpolledCopy {
    /// Whether the operation is still ready.
    pub ready: bool,
    /// Whether the operation holds a recovery writer.
    pub recovery: bool,
}

/// How running the copy up to the held stage ended.
#[derive(Clone, Copy, Debug, PartialEq, Eq, Structural)]
pub enum RunEnd {
    /// The copy completed before the stage was acknowledged.
    Completed,
    /// The copy failed before the stage was acknowledged.
    Failed,
    /// The fixture's acknowledgement failed.
    AcknowledgementFailed,
    /// The fixture acknowledged the stage.
    Reached,
}

/// The run up to the held stage and the operation afterwards.
#[derive(Clone, Copy, Debug, PartialEq, Eq, Structural)]
pub struct RunFacts {
    /// How the run ended.
    pub end: RunEnd,
    /// Whether the fixture's hold was disarmed.
    pub disarmed: bool,
    /// Whether the operation reports an indeterminate failure.
    pub indeterminate: bool,
    /// Whether the operation holds a recovery writer.
    pub recovery: bool,
}

/// A refused repeated execution, as the facade reported it.
#[derive(Clone, Copy, Debug, PartialEq, Eq, Structural)]
pub struct RepeatedCopy {
    /// The error's classification.
    pub kind: ErrorKind,
    /// Whether the failure state is indeterminate.
    pub indeterminate: bool,
    /// The bytes the failure reports copied.
    pub progress: u64,
    /// Whether the state and statistics equal those of the previous
    /// refusal.
    pub same_as_previous: bool,
    /// Whether the operation still reports an indeterminate failure.
    pub still_indeterminate: bool,
    /// Whether the operation still holds a recovery writer.
    pub recovery: bool,
}

/// How aborting the recovery writer reported its effect.
#[derive(Clone, Copy, Debug, PartialEq, Eq, Structural)]
pub enum AbortEffect {
    /// Nothing was published.
    NotPublished,
    /// The target was published.
    Published,
    /// The effect is unknown.
    Indeterminate,
}

/// The writer's state after the abort.
#[derive(Clone, Copy, Debug, PartialEq, Eq, Structural)]
pub enum WriterEnd {
    /// The writer is aborted.
    Aborted,
    /// The writer is published.
    Published,
    /// The writer is indeterminate.
    Indeterminate,
    /// The writer is in another state.
    Other,
}

/// What taking and aborting the recovery writer answered.
#[derive(Clone, Copy, Debug, PartialEq, Eq, Structural)]
pub enum RecoveryAnswer {
    /// The recovery holds a rejected provider identity, not a writer.
    Rejected,
    /// The abort failed.
    AbortFailed,
    /// The abort reported this effect and left the writer in this state.
    Aborted(AbortEffect, WriterEnd),
}

/// The answer to the pending cancellation request.
pub enum CancelEvent {
    /// The fixture's preparation answered.
    Prepared(CancelPreparation),
    /// An independent file observation answered.
    Observed(FileObservation),
    /// The copy was admitted and left as this, or `None` when admission
    /// failed.
    Admitted(Option<UnpolledCopy>),
    /// The run up to the held stage answered.
    Ran(RunFacts),
    /// A repeated execution answered: its refusal, or `None` when it
    /// succeeded.
    Repeated(Option<RepeatedCopy>),
    /// The recovery writer's abort answered.
    Recovered(RecoveryAnswer),
}

/// The abstract form of a preparation answer.
pub enum CancelPreparationView {
    /// The hook failed.
    Failed,
    /// No probe for the stage.
    Unsupported,
    /// The case is ready.
    Ready { source: Seq<char>, target: Seq<char> },
}

/// The abstract form of a file observation.
pub enum FileObservationView {
    /// Existence could not be observed.
    ExistsFailed,
    /// No existence evidence.
    NoExistenceEvidence,
    /// Absent.
    Absent,
    /// The bytes could not be read.
    ReadFailed,
    /// No byte evidence.
    NoByteEvidence,
    /// The bytes.
    Bytes(Seq<u8>),
}

/// The abstract form of a cancellation answer.
pub enum CancelEventView {
    /// A preparation answer.
    Prepared(CancelPreparationView),
    /// A file observation.
    Observed(FileObservationView),
    /// An admission answer.
    Admitted(Option<UnpolledCopy>),
    /// A run answer.
    Ran(RunFacts),
    /// A repeated execution answer.
    Repeated(Option<RepeatedCopy>),
    /// A recovery answer.
    Recovered(RecoveryAnswer),
}

/// The abstract form of a file observation.
pub open spec fn observation_view(observation: FileObservation) -> FileObservationView {
    match observation {
        FileObservation::ExistsFailed => FileObservationView::ExistsFailed,
        FileObservation::NoExistenceEvidence => FileObservationView::NoExistenceEvidence,
        FileObservation::Absent => FileObservationView::Absent,
        FileObservation::ReadFailed => FileObservationView::ReadFailed,
        FileObservation::NoByteEvidence => FileObservationView::NoByteEvidence,
        FileObservation::Bytes(bytes) => FileObservationView::Bytes(bytes@),
    }
}

impl View for CancelEvent {
    type V = CancelEventView;

    open spec fn view(&self) -> CancelEventView {
        match self {
            CancelEvent::Prepared(CancelPreparation::Failed) => CancelEventView::Prepared(CancelPreparationView::Failed),
            CancelEvent::Prepared(CancelPreparation::Unsupported) => CancelEventView::Prepared(
                CancelPreparationView::Unsupported,
            ),
            CancelEvent::Prepared(CancelPreparation::Ready { source, target }) => CancelEventView::Prepared(
                CancelPreparationView::Ready { source: source@, target: target@ },
            ),
            CancelEvent::Observed(observation) => CancelEventView::Observed(observation_view(*observation)),
            CancelEvent::Admitted(facts) => CancelEventView::Admitted(*facts),
            CancelEvent::Ran(facts) => CancelEventView::Ran(*facts),
            CancelEvent::Repeated(facts) => CancelEventView::Repeated(*facts),
            CancelEvent::Recovered(answer) => CancelEventView::Recovered(*answer),
        }
    }
}

/// The request a cancellation check waits on.
#[derive(Clone, Copy, Debug, PartialEq, Eq, Structural)]
pub enum CancelStage {
    /// The fixture prepares the held copy.
    Prepare,
    /// The source is observed before the copy.
    SourceBefore,
    /// The target is observed before the copy.
    TargetBefore,
    /// The copy is being admitted.
    Admit,
    /// The copy runs up to the held stage.
    Run,
    /// The cancelled copy executes once more.
    Repeat,
    /// The cancelled copy executes a third time.
    RepeatAgain,
    /// The recovery writer is aborted.
    Recover,
    /// The target is observed after the recovery.
    TargetAfter,
    /// The source is observed at the end.
    SourceAfter,
    /// The check has finished.
    Finished,
}

/// The abstract state of a cancellation check.
pub struct CancelView {
    /// The stage the copy is held at.
    pub held: AsyncCopyCancellationStage,
    /// The source path, once known.
    pub source: Seq<char>,
    /// The target path, once known.
    pub target: Seq<char>,
    /// The source's bytes before the copy.
    pub source_before: Seq<u8>,
    /// The target's bytes before the copy, when it existed.
    pub target_before: Option<Seq<u8>>,
    /// The bytes the first refused repetition reported copied.
    pub progress: u64,
    /// The effect the recovery abort reported, once known.
    pub effect: Option<AbortEffect>,
    /// The stage.
    pub stage: CancelStage,
}

/// Drives one copy cancellation check: a copy dropped at a held stage must
/// become indeterminate, keep a recovery writer exactly when the stage owns
/// one, refuse further executions without changing its facts, and leave
/// the source intact and the target consistent with the recovery's abort.
pub struct CopyCancelProbe {
    held: AsyncCopyCancellationStage,
    source: String,
    target: String,
    source_before: Vec<u8>,
    target_before: Option<Vec<u8>>,
    progress: u64,
    effect: Option<AbortEffect>,
    stage: CancelStage,
}

impl View for CopyCancelProbe {
    type V = CancelView;

    closed spec fn view(&self) -> CancelView {
        CancelView {
            held: self.held,
            source: self.source@,
            target: self.target@,
            source_before: self.source_before@,
            target_before: match self.target_before {
                Some(bytes) => Some(bytes@),
                None => None,
            },
            progress: self.progress,
            effect: self.effect,
            stage: self.stage,
        }
    }
}

/// Whether the held stage owns a writer that recovery must handle.
pub open spec fn owns_writer(held: AsyncCopyCancellationStage) -> bool {
    held == AsyncCopyCancellationStage::Writer || held == AsyncCopyCancellationStage::Commit
}

/// The writer state an abort effect must leave.
pub open spec fn writer_after(effect: AbortEffect) -> WriterEnd {
    match effect {
        AbortEffect::NotPublished => WriterEnd::Aborted,
        AbortEffect::Published => WriterEnd::Published,
        AbortEffect::Indeterminate => WriterEnd::Indeterminate,
    }
}

/// The fixture-relative base name of a held stage.
pub open spec fn held_name(held: AsyncCopyCancellationStage) -> Seq<char> {
    match held {
        AsyncCopyCancellationStage::NativeAttempt => "async-copy-cancel-NativeAttempt"@,
        AsyncCopyCancellationStage::Reader => "async-copy-cancel-Reader"@,
        AsyncCopyCancellationStage::Writer => "async-copy-cancel-Writer"@,
        AsyncCopyCancellationStage::Commit => "async-copy-cancel-Commit"@,
    }
}

/// The held stage of a cancellation check, or `None` for another check.
pub open spec fn held_stage(id: ContractCheckId) -> Option<AsyncCopyCancellationStage> {
    match id {
        ContractCheckId::AsyncCopyCancelNativeAttempt => Some(AsyncCopyCancellationStage::NativeAttempt),
        ContractCheckId::AsyncCopyCancelReader => Some(AsyncCopyCancellationStage::Reader),
        ContractCheckId::AsyncCopyCancelWriter => Some(AsyncCopyCancellationStage::Writer),
        ContractCheckId::AsyncCopyCancelCommit => Some(AsyncCopyCancellationStage::Commit),
        _ => None,
    }
}

/// The start of a cancellation check over the suite context: a check of
/// another kind fails before any phase begins; otherwise the phase begins,
/// and without copy the check does not apply, while with it the fixture is
/// asked for a held copy.
pub open spec fn cancel_start(id: ContractCheckId, copy: bool, ctx: ContextView) -> (
    CancelView,
    ContextView,
    CancelRequestView,
) {
    let held = match held_stage(id) {
        Some(held) => held,
        None => AsyncCopyCancellationStage::NativeAttempt,
    };
    let p = CancelView {
        held,
        source: Seq::empty(),
        target: Seq::empty(),
        source_before: Seq::empty(),
        target_before: None,
        progress: 0,
        effect: None,
        stage: CancelStage::Finished,
    };
    if held_stage(id) is None {
        (p, ctx, CancelRequestView::Fail { message: "selected check is not copy cancellation"@, with_error: false })
    } else {
        let ctx = begun(ctx, id.stable_name());
        if !copy {
            (
                p,
                with_recorded(
                    ctx,
                    id,
                    Some(FileSystemCapability::Copy),
                    OutcomeView::NotApplicable { reason: "basic copy capability is unavailable"@ },
                ),
                CancelRequestView::Finish,
            )
        } else {
            (
                CancelView { stage: CancelStage::Prepare, ..p },
                ctx,
                CancelRequestView::PrepareCancellation { stage: held, name: relative_in(ctx, held_name(held)) },
            )
        }
    }
}

/// The kind of answer a stage waits for.
pub open spec fn cancel_answers(stage: CancelStage, event: CancelEventView) -> bool {
    match stage {
        CancelStage::Prepare => event is Prepared,
        CancelStage::Admit => event is Admitted,
        CancelStage::Run => event is Ran,
        CancelStage::Repeat | CancelStage::RepeatAgain => event is Repeated,
        CancelStage::Recover => event is Recovered,
        CancelStage::Finished => false,
        _ => event is Observed,
    }
}

/// What an observation says of a file: absent, its bytes, or the failure
/// it ends the check with.
pub open spec fn observed_file(observation: FileObservationView) -> Result<Option<Seq<u8>>, (Seq<char>, bool)> {
    match observation {
        FileObservationView::ExistsFailed => Err(("copy independent existence observation failed"@, true)),
        FileObservationView::NoExistenceEvidence => Err(("copy probe has no independent existence evidence"@, false)),
        FileObservationView::Absent => Ok(None),
        FileObservationView::ReadFailed => Err(("copy independent byte observation failed"@, true)),
        FileObservationView::NoByteEvidence => Err(("copy probe has no independent byte evidence"@, false)),
        FileObservationView::Bytes(bytes) => Ok(Some(bytes)),
    }
}

/// The transition of a cancellation check at `p.stage` on `event`.
pub open spec fn cancel_step(p: CancelView, ctx: ContextView, event: CancelEventView) -> (
    CancelView,
    ContextView,
    CancelRequestView,
) {
    let done = CancelView { stage: CancelStage::Finished, ..p };
    let fail = |message: Seq<char>, with_error: bool| (done, ctx, CancelRequestView::Fail { message, with_error });
    let id = copy_cancellation_id(p.held);
    let to = |stage: CancelStage, request: CancelRequestView| (CancelView { stage, ..p }, ctx, request);
    match (p.stage, event) {
        (CancelStage::Prepare, CancelEventView::Prepared(CancelPreparationView::Ready { source, target })) => (
            CancelView { source, target, stage: CancelStage::SourceBefore, ..p },
            with_created(with_created(ctx, source), target),
            CancelRequestView::ObserveFile { path: source },
        ),
        (CancelStage::Prepare, CancelEventView::Prepared(CancelPreparationView::Unsupported)) => (
            done,
            with_recorded(
                ctx,
                id,
                Some(FileSystemCapability::Copy),
                OutcomeView::SkippedOptional { reason: "fixture has no stage acknowledgement probe"@ },
            ),
            CancelRequestView::Finish,
        ),
        (CancelStage::Prepare, _) => fail("copy cancellation preparation failed"@, true),
        (CancelStage::Admit, CancelEventView::Admitted(Some(unpolled))) => if !unpolled.ready {
            fail("unpolled copy execution changed state"@, false)
        } else if unpolled.recovery {
            fail("unpolled copy acquired a writer"@, false)
        } else {
            to(CancelStage::Run, CancelRequestView::RunUntilStage)
        },
        (CancelStage::Admit, _) => fail("copy cancellation request admission failed"@, true),
        (CancelStage::Run, CancelEventView::Ran(run)) => match run.end {
            RunEnd::Failed => fail("copy failed before requested stage acknowledgement"@, true),
            RunEnd::Completed => fail("copy completed before requested stage acknowledgement"@, false),
            RunEnd::AcknowledgementFailed => fail("copy stage acknowledgement failed"@, true),
            RunEnd::Reached => if !run.disarmed {
                fail("probe disarm failed; original cause is retained in cleanup"@, false)
            } else if !run.indeterminate {
                fail("cancelled copy did not become indeterminate"@, false)
            } else if run.recovery != owns_writer(p.held) {
                fail("copy recovery writer responsibility differs"@, false)
            } else {
                to(CancelStage::Repeat, CancelRequestView::ExecuteAgain)
            },
        },
        (CancelStage::Repeat, CancelEventView::Repeated(Some(repeat))) => if repeat.kind != ErrorKind::InvalidState
            || !repeat.indeterminate {
            fail("repeated copy lost cancellation facts"@, true)
        } else if repeat.progress > p.source_before.len() {
            fail("copy progress exceeds independently observed source bytes"@, false)
        } else {
            (
                CancelView { progress: repeat.progress, stage: CancelStage::RepeatAgain, ..p },
                ctx,
                CancelRequestView::ExecuteThird,
            )
        },
        (CancelStage::Repeat, _) => fail("cancelled copy executed twice"@, false),
        (CancelStage::RepeatAgain, CancelEventView::Repeated(Some(repeat))) => if repeat.kind
            != ErrorKind::InvalidState || !repeat.same_as_previous {
            fail("repeated copy changed retained recovery facts"@, true)
        } else if !repeat.still_indeterminate {
            fail("repeat changed cancelled copy state"@, false)
        } else if repeat.recovery != owns_writer(p.held) {
            fail("repeat lost copy recovery writer"@, false)
        } else if repeat.recovery {
            to(CancelStage::Recover, CancelRequestView::AbortRecovery)
        } else {
            to(CancelStage::SourceAfter, CancelRequestView::ObserveFile { path: p.source })
        },
        (CancelStage::RepeatAgain, _) => fail("cancelled copy executed a third time"@, false),
        (CancelStage::Recover, CancelEventView::Recovered(RecoveryAnswer::Aborted(effect, writer))) => if writer
            != writer_after(effect) {
            fail("copy recovery state differs from abort outcome"@, false)
        } else {
            (
                CancelView { effect: Some(effect), stage: CancelStage::TargetAfter, ..p },
                ctx,
                CancelRequestView::ObserveFile { path: p.target },
            )
        },
        (CancelStage::Recover, CancelEventView::Recovered(RecoveryAnswer::Rejected)) => fail(
            "cancellation probe retained a rejected provider identity"@,
            true,
        ),
        (CancelStage::Recover, _) => fail("copy recovery abort failed"@, true),
        (CancelStage::Finished, _) => (p, ctx, CancelRequestView::Finish),
        (_, CancelEventView::Observed(observation)) => match observed_file(observation) {
            Err((message, with_error)) => fail(message, with_error),
            Ok(file) => match p.stage {
                CancelStage::SourceBefore => match file {
                    None => fail("copy cancellation source is absent"@, false),
                    Some(bytes) => (
                        CancelView { source_before: bytes, stage: CancelStage::TargetBefore, ..p },
                        ctx,
                        CancelRequestView::ObserveFile { path: p.target },
                    ),
                },
                CancelStage::TargetBefore => (
                    CancelView { target_before: file, stage: CancelStage::Admit, ..p },
                    ctx,
                    CancelRequestView::BeginCopy,
                ),
                CancelStage::TargetAfter => if p.effect == Some(AbortEffect::NotPublished) && file != p.target_before {
                    fail("NotPublished copy recovery changed target"@, false)
                } else if p.effect == Some(AbortEffect::Published) && file != Some(p.source_before) {
                    fail("published copy recovery differs from source"@, false)
                } else {
                    to(CancelStage::SourceAfter, CancelRequestView::ObserveFile { path: p.source })
                },
                _ => if file != Some(p.source_before) {
                    fail("cancelled copy changed source"@, false)
                } else {
                    (
                        done,
                        with_recorded(ctx, id, Some(FileSystemCapability::Copy), OutcomeView::Passed),
                        CancelRequestView::Finish,
                    )
                },
            },
        },
        (_, _) => (p, ctx, CancelRequestView::Finish),
    }
}

/// A cancellation check records a pass only when the source, observed at
/// the end, still holds the bytes seen before the copy; a recovery writer
/// is aborted only for a stage that owns one; and a recovery that
/// published must leave the source's bytes at the target.
pub proof fn law_cancellation_keeps_the_source(p: CancelView, ctx: ContextView, event: CancelEventView)
    requires
        cancel_answers(p.stage, event),
    ensures
        p.stage == CancelStage::SourceAfter && cancel_step(p, ctx, event).2 is Finish ==> event
            == CancelEventView::Observed(FileObservationView::Bytes(p.source_before)),
        cancel_step(p, ctx, event).2 is AbortRecovery ==> owns_writer(p.held),
        p.stage == CancelStage::TargetAfter && p.effect == Some(AbortEffect::Published) && cancel_step(
            p,
            ctx,
            event,
        ).2 is ObserveFile ==> event == CancelEventView::Observed(FileObservationView::Bytes(p.source_before)),
{
}

/// The check after answering `events` in turn from `state`, stopping at the
/// first event that the pending stage does not wait for.
pub open spec fn cancel_trace(state: (CancelView, ContextView, CancelRequestView), events: Seq<CancelEventView>) -> (
    CancelView,
    ContextView,
    CancelRequestView,
)
    decreases events.len(),
{
    if events.len() == 0 || !cancel_answers(state.0.stage, events[0]) {
        state
    } else {
        cancel_trace(cancel_step(state.0, state.1, events[0]), events.drop_first())
    }
}

/// With copy advertised, a cancellation check reaches the final observation
/// of the source only after the whole scenario: the source was seen holding
/// bytes and the target observed before the copy; the admitted copy stayed
/// ready without a writer until polled; the run reached the held stage, the
/// hold was released, and the copy became indeterminate, holding a recovery
/// writer exactly when the stage owns one; two repeated executions were
/// refused as invalid state, the first reporting no more progress than the
/// source's length and the second the same facts, still indeterminate and
/// with the same writer responsibility; and, for a stage that owns a
/// writer, its abort left the writer as its effect says and the target
/// unchanged when nothing was published, or holding the source's bytes
/// when it was. That final observation then finishes the check, recording
/// a pass, exactly when the source still holds its bytes; any other
/// observation fails it.
pub proof fn law_cancellation_pass_needs_full_evidence(
    id: ContractCheckId,
    ctx: ContextView,
    events: Seq<CancelEventView>,
    last: FileObservationView,
)
    requires
        cancel_trace(cancel_start(id, true, ctx), events).0.stage == CancelStage::SourceAfter,
    ensures
        ({
            let reached = cancel_trace(cancel_start(id, true, ctx), events);
            let p = reached.0;
            let writer = owns_writer(p.held);
            let answered = cancel_step(p, reached.1, CancelEventView::Observed(last));
            &&& held_stage(id) == Some(p.held)
            &&& events.len() >= (if writer {
                9int
            } else {
                7int
            })
            &&& events[0] == CancelEventView::Prepared(
                CancelPreparationView::Ready { source: p.source, target: p.target },
            )
            &&& events[1] == CancelEventView::Observed(FileObservationView::Bytes(p.source_before))
            &&& events[2] matches CancelEventView::Observed(target) && observed_file(target) == Ok::<
                Option<Seq<u8>>,
                (Seq<char>, bool),
            >(p.target_before)
            &&& events[3] matches CancelEventView::Admitted(Some(unpolled)) && unpolled.ready && !unpolled.recovery
            &&& events[4] matches CancelEventView::Ran(run) && run.end == RunEnd::Reached && run.disarmed
                && run.indeterminate && run.recovery == writer
            &&& events[5] matches CancelEventView::Repeated(Some(first)) && first.kind == ErrorKind::InvalidState
                && first.indeterminate && first.progress == p.progress && p.progress <= p.source_before.len()
            &&& events[6] matches CancelEventView::Repeated(Some(second)) && second.kind == ErrorKind::InvalidState
                && second.same_as_previous && second.still_indeterminate && second.recovery == writer
            &&& writer ==> (events[7] matches CancelEventView::Recovered(RecoveryAnswer::Aborted(effect, end))
                && end == writer_after(effect) && p.effect == Some(effect))
            &&& writer ==> (events[8] matches CancelEventView::Observed(target) && (p.effect == Some(
                AbortEffect::NotPublished,
            ) ==> observed_file(target) == Ok::<Option<Seq<u8>>, (Seq<char>, bool)>(p.target_before)) && (p.effect
                == Some(AbortEffect::Published) ==> target == FileObservationView::Bytes(p.source_before)))
            &&& (answered.2 is Finish <==> last == FileObservationView::Bytes(p.source_before))
            &&& answered.2 is Finish ==> answered.1 == with_recorded(
                reached.1,
                id,
                Some(FileSystemCapability::Copy),
                OutcomeView::Passed,
            )
            &&& !(answered.2 is Finish) ==> answered.2 is Fail
        }),
{
    let s0 = cancel_start(id, true, ctx);
    let goal = CancelStage::SourceAfter;
    assert(held_stage(id) is Some);
    lemma_cancel_trace_moves_on(s0, events, goal);
    let s1 = cancel_step(s0.0, s0.1, events[0]);
    let e1 = events.drop_first();
    assert(s1.0.stage == CancelStage::SourceBefore);
    lemma_cancel_trace_moves_on(s1, e1, goal);
    let s2 = cancel_step(s1.0, s1.1, events[1]);
    let e2 = e1.drop_first();
    assert(s2.0.stage == CancelStage::TargetBefore);
    lemma_cancel_trace_moves_on(s2, e2, goal);
    let s3 = cancel_step(s2.0, s2.1, events[2]);
    let e3 = e2.drop_first();
    assert(s3.0.stage == CancelStage::Admit);
    lemma_cancel_trace_moves_on(s3, e3, goal);
    let s4 = cancel_step(s3.0, s3.1, events[3]);
    let e4 = e3.drop_first();
    assert(s4.0.stage == CancelStage::Run);
    lemma_cancel_trace_moves_on(s4, e4, goal);
    let s5 = cancel_step(s4.0, s4.1, events[4]);
    let e5 = e4.drop_first();
    assert(s5.0.stage == CancelStage::Repeat);
    lemma_cancel_trace_moves_on(s5, e5, goal);
    let s6 = cancel_step(s5.0, s5.1, events[5]);
    let e6 = e5.drop_first();
    assert(s6.0.stage == CancelStage::RepeatAgain);
    lemma_cancel_trace_moves_on(s6, e6, goal);
    let s7 = cancel_step(s6.0, s6.1, events[6]);
    let e7 = e6.drop_first();
    if owns_writer(s0.0.held) {
        assert(s7.0.stage == CancelStage::Recover);
        lemma_cancel_trace_moves_on(s7, e7, goal);
        let s8 = cancel_step(s7.0, s7.1, events[7]);
        let e8 = e7.drop_first();
        assert(s8.0.stage == CancelStage::TargetAfter);
        lemma_cancel_trace_moves_on(s8, e8, goal);
        let s9 = cancel_step(s8.0, s8.1, events[8]);
        assert(s9.0.stage == CancelStage::SourceAfter);
        lemma_cancel_trace_ends(s9, e8.drop_first());
    } else {
        assert(s7.0.stage == CancelStage::SourceAfter);
        lemma_cancel_trace_ends(s7, e7);
    }
}

/// A trace from a state that has not yet reached `goal`, and that does reach
/// it, answers its first event and does not finish on it.
proof fn lemma_cancel_trace_moves_on(
    state: (CancelView, ContextView, CancelRequestView),
    events: Seq<CancelEventView>,
    goal: CancelStage,
)
    requires
        cancel_trace(state, events).0.stage == goal,
        goal != CancelStage::Finished,
        state.0.stage != goal,
    ensures
        events.len() >= 1,
        cancel_answers(state.0.stage, events[0]),
        events.drop_first().len() == events.len() - 1,
        forall|i: int| 0 <= i < events.len() - 1 ==> events.drop_first()[i] == events[i + 1],
        cancel_trace(state, events) == cancel_trace(cancel_step(state.0, state.1, events[0]), events.drop_first()),
        cancel_step(state.0, state.1, events[0]).0.stage != CancelStage::Finished,
{
    if events.len() >= 1 && cancel_answers(state.0.stage, events[0]) {
        let next = cancel_step(state.0, state.1, events[0]);
        if next.0.stage == CancelStage::Finished {
            lemma_cancel_trace_stays(next, events.drop_first());
        }
    }
}

/// A trace from a finished check is that check.
proof fn lemma_cancel_trace_stays(state: (CancelView, ContextView, CancelRequestView), events: Seq<CancelEventView>)
    requires
        state.0.stage == CancelStage::Finished,
    ensures
        cancel_trace(state, events) == state,
{
}

/// A trace from a check waiting on the final observation of the source
/// that still waits on it at its end answered nothing.
proof fn lemma_cancel_trace_ends(state: (CancelView, ContextView, CancelRequestView), events: Seq<CancelEventView>)
    requires
        state.0.stage == CancelStage::SourceAfter,
        cancel_trace(state, events).0.stage == CancelStage::SourceAfter,
    ensures
        cancel_trace(state, events) == state,
{
    if events.len() >= 1 && cancel_answers(state.0.stage, events[0]) {
        lemma_cancel_trace_stays(cancel_step(state.0, state.1, events[0]), events.drop_first());
    }
}

impl CopyCancelProbe {
    /// Starts the cancellation check `id` in the suite context, given
    /// whether copy is advertised; returns the probe with its first request.
    pub fn new(ctx: &mut ContractContext, id: ContractCheckId, copy: bool) -> (started: (
        CopyCancelProbe,
        CancelRequest,
    ))
        ensures
            (started.0@, final(ctx)@, started.1@) == cancel_start(id, copy, old(ctx)@),
    {
        let held = match id {
            ContractCheckId::AsyncCopyCancelNativeAttempt => Some(AsyncCopyCancellationStage::NativeAttempt),
            ContractCheckId::AsyncCopyCancelReader => Some(AsyncCopyCancellationStage::Reader),
            ContractCheckId::AsyncCopyCancelWriter => Some(AsyncCopyCancellationStage::Writer),
            ContractCheckId::AsyncCopyCancelCommit => Some(AsyncCopyCancellationStage::Commit),
            _ => None,
        };
        let mut probe = CopyCancelProbe {
            held: match held {
                Some(held) => held,
                None => AsyncCopyCancellationStage::NativeAttempt,
            },
            source: String::new(),
            target: String::new(),
            source_before: Vec::new(),
            target_before: None,
            progress: 0,
            effect: None,
            stage: CancelStage::Finished,
        };
        if held.is_none() {
            return (probe, CancelRequest::Fail { message: "selected check is not copy cancellation", with_error: false });
        }
        ctx.begin(id.as_str());
        if !copy {
            ctx.record_check(
                id,
                Some(FileSystemCapability::Copy),
                ContractCheckOutcome::NotApplicable { reason: String::from_str("basic copy capability is unavailable") },
            );
            return (probe, CancelRequest::Finish);
        }
        let name = match probe.held {
            AsyncCopyCancellationStage::NativeAttempt => ctx.relative_name("async-copy-cancel-NativeAttempt"),
            AsyncCopyCancellationStage::Reader => ctx.relative_name("async-copy-cancel-Reader"),
            AsyncCopyCancellationStage::Writer => ctx.relative_name("async-copy-cancel-Writer"),
            AsyncCopyCancellationStage::Commit => ctx.relative_name("async-copy-cancel-Commit"),
        };
        probe.stage = CancelStage::Prepare;
        let stage = probe.held;
        (probe, CancelRequest::PrepareCancellation { stage, name })
    }

    /// Returns the stage the check waits in.
    pub fn stage(&self) -> (stage: CancelStage)
        ensures
            stage == self@.stage,
    {
        self.stage
    }

    /// Returns whether `event` answers the request the check waits on.
    pub fn expects(&self, event: &CancelEvent) -> (answered: bool)
        ensures
            answered == cancel_answers(self@.stage, event@),
    {
        match self.stage {
            CancelStage::Prepare => matches!(event, CancelEvent::Prepared(_)),
            CancelStage::Admit => matches!(event, CancelEvent::Admitted(_)),
            CancelStage::Run => matches!(event, CancelEvent::Ran(_)),
            CancelStage::Repeat | CancelStage::RepeatAgain => matches!(event, CancelEvent::Repeated(_)),
            CancelStage::Recover => matches!(event, CancelEvent::Recovered(_)),
            CancelStage::Finished => false,
            _ => matches!(event, CancelEvent::Observed(_)),
        }
    }

    /// Ends the check with the failure `message`.
    fn fail(&mut self, message: &'static str, with_error: bool) -> (request: CancelRequest)
        ensures
            final(self)@ == (CancelView { stage: CancelStage::Finished, ..old(self)@ }),
            request@ == (CancelRequestView::Fail { message: message@, with_error }),
    {
        self.stage = CancelStage::Finished;
        CancelRequest::Fail { message, with_error }
    }

    /// Returns whether the held stage owns a writer.
    fn owns_writer(&self) -> (owns: bool)
        ensures
            owns == owns_writer(self@.held),
    {
        match self.held {
            AsyncCopyCancellationStage::Writer | AsyncCopyCancellationStage::Commit => true,
            _ => false,
        }
    }

    /// Returns whether two byte sequences are equal.
    fn same_bytes(left: &Vec<u8>, right: &Vec<u8>) -> (same: bool)
        ensures
            same == (left@ == right@),
    {
        if left.len() != right.len() {
            return false;
        }
        let mut index: usize = 0;
        while index < left.len()
            invariant
                left.len() == right.len(),
                index <= left.len(),
                forall|j: int| 0 <= j < index ==> left@[j] == right@[j],
            decreases left.len() - index,
        {
            if left[index] != right[index] {
                assert(left@[index as int] != right@[index as int]);
                return false;
            }
            index = index + 1;
        }
        assert(left@ =~= right@);
        true
    }

    /// Returns whether an optional observation holds exactly `expected`.
    fn same_file(file: &Option<Vec<u8>>, expected: &Option<Vec<u8>>) -> (same: bool)
        ensures
            same == (match file {
                Some(bytes) => Some(bytes@),
                None => None,
            } == match expected {
                Some(bytes) => Some(bytes@),
                None => None,
            }),
    {
        match (file, expected) {
            (Some(left), Some(right)) => Self::same_bytes(left, right),
            (None, None) => true,
            _ => false,
        }
    }

    /// Settles an independent file observation at one of the observing
    /// stages.
    fn settle_observation(&mut self, ctx: &mut ContractContext, observation: FileObservation) -> (request: CancelRequest)
        requires
            old(self)@.stage == CancelStage::SourceBefore || old(self)@.stage == CancelStage::TargetBefore
                || old(self)@.stage == CancelStage::TargetAfter || old(self)@.stage == CancelStage::SourceAfter,
        ensures
            (final(self)@, final(ctx)@, request@) == cancel_step(
                old(self)@,
                old(ctx)@,
                CancelEventView::Observed(observation_view(observation)),
            ),
    {
        let file = match observation {
            FileObservation::ExistsFailed => {
                return self.fail("copy independent existence observation failed", true);
            },
            FileObservation::NoExistenceEvidence => {
                return self.fail("copy probe has no independent existence evidence", false);
            },
            FileObservation::ReadFailed => {
                return self.fail("copy independent byte observation failed", true);
            },
            FileObservation::NoByteEvidence => {
                return self.fail("copy probe has no independent byte evidence", false);
            },
            FileObservation::Absent => None,
            FileObservation::Bytes(bytes) => Some(bytes),
        };
        match self.stage {
            CancelStage::SourceBefore => match file {
                None => self.fail("copy cancellation source is absent", false),
                Some(bytes) => {
                    self.source_before = bytes;
                    self.stage = CancelStage::TargetBefore;
                    CancelRequest::ObserveFile { path: self.target.clone() }
                },
            },
            CancelStage::TargetBefore => {
                self.target_before = file;
                self.stage = CancelStage::Admit;
                CancelRequest::BeginCopy
            },
            CancelStage::TargetAfter => {
                let not_published = match self.effect {
                    Some(AbortEffect::NotPublished) => true,
                    _ => false,
                };
                let published = match self.effect {
                    Some(AbortEffect::Published) => true,
                    _ => false,
                };
                let source = Some(self.source_before.clone());
                if not_published && !Self::same_file(&file, &self.target_before) {
                    self.fail("NotPublished copy recovery changed target", false)
                } else if published && !Self::same_file(&file, &source) {
                    self.fail("published copy recovery differs from source", false)
                } else {
                    self.stage = CancelStage::SourceAfter;
                    CancelRequest::ObserveFile { path: self.source.clone() }
                }
            },
            _ => {
                let source = Some(self.source_before.clone());
                if !Self::same_file(&file, &source) {
                    self.fail("cancelled copy changed source", false)
                } else {
                    self.stage = CancelStage::Finished;
                    let id = crate::cancellation_stage::cancellation_check_id(self.held);
                    ctx.record_check(id, Some(FileSystemCapability::Copy), ContractCheckOutcome::Passed);
                    CancelRequest::Finish
                }
            },
        }
    }

    /// Takes the answer to the pending request, records what the step
    /// names in the suite context, and returns the next request.
    pub fn advance(&mut self, ctx: &mut ContractContext, event: CancelEvent) -> (request: CancelRequest)
        requires
            cancel_answers(old(self)@.stage, event@),
        ensures
            (final(self)@, final(ctx)@, request@) == cancel_step(old(self)@, old(ctx)@, event@),
    {
        match self.stage {
            CancelStage::Prepare => match event {
                CancelEvent::Prepared(CancelPreparation::Ready { source, target }) => {
                    ctx.record_created(source.clone());
                    ctx.record_created(target.clone());
                    self.source = source;
                    self.target = target;
                    self.stage = CancelStage::SourceBefore;
                    CancelRequest::ObserveFile { path: self.source.clone() }
                },
                CancelEvent::Prepared(CancelPreparation::Unsupported) => {
                    self.stage = CancelStage::Finished;
                    let id = crate::cancellation_stage::cancellation_check_id(self.held);
                    ctx.record_check(
                        id,
                        Some(FileSystemCapability::Copy),
                        ContractCheckOutcome::SkippedOptional {
                            reason: String::from_str("fixture has no stage acknowledgement probe"),
                        },
                    );
                    CancelRequest::Finish
                },
                _ => self.fail("copy cancellation preparation failed", true),
            },
            CancelStage::Admit => match event {
                CancelEvent::Admitted(Some(unpolled)) => if !unpolled.ready {
                    self.fail("unpolled copy execution changed state", false)
                } else if unpolled.recovery {
                    self.fail("unpolled copy acquired a writer", false)
                } else {
                    self.stage = CancelStage::Run;
                    CancelRequest::RunUntilStage
                },
                _ => self.fail("copy cancellation request admission failed", true),
            },
            CancelStage::Run => match event {
                CancelEvent::Ran(run) => match run.end {
                    RunEnd::Failed => self.fail("copy failed before requested stage acknowledgement", true),
                    RunEnd::Completed => self.fail("copy completed before requested stage acknowledgement", false),
                    RunEnd::AcknowledgementFailed => self.fail("copy stage acknowledgement failed", true),
                    RunEnd::Reached => if !run.disarmed {
                        self.fail("probe disarm failed; original cause is retained in cleanup", false)
                    } else if !run.indeterminate {
                        self.fail("cancelled copy did not become indeterminate", false)
                    } else if run.recovery != self.owns_writer() {
                        self.fail("copy recovery writer responsibility differs", false)
                    } else {
                        self.stage = CancelStage::Repeat;
                        CancelRequest::ExecuteAgain
                    },
                },
                _ => CancelRequest::Finish,
            },
            CancelStage::Repeat => match event {
                CancelEvent::Repeated(Some(repeat)) => if repeat.kind != ErrorKind::InvalidState
                    || !repeat.indeterminate {
                    self.fail("repeated copy lost cancellation facts", true)
                } else if repeat.progress > self.source_before.len() as u64 {
                    self.fail("copy progress exceeds independently observed source bytes", false)
                } else {
                    self.progress = repeat.progress;
                    self.stage = CancelStage::RepeatAgain;
                    CancelRequest::ExecuteThird
                },
                _ => self.fail("cancelled copy executed twice", false),
            },
            CancelStage::RepeatAgain => match event {
                CancelEvent::Repeated(Some(repeat)) => if repeat.kind != ErrorKind::InvalidState
                    || !repeat.same_as_previous {
                    self.fail("repeated copy changed retained recovery facts", true)
                } else if !repeat.still_indeterminate {
                    self.fail("repeat changed cancelled copy state", false)
                } else if repeat.recovery != self.owns_writer() {
                    self.fail("repeat lost copy recovery writer", false)
                } else if repeat.recovery {
                    self.stage = CancelStage::Recover;
                    CancelRequest::AbortRecovery
                } else {
                    self.stage = CancelStage::SourceAfter;
                    CancelRequest::ObserveFile { path: self.source.clone() }
                },
                _ => self.fail("cancelled copy executed a third time", false),
            },
            CancelStage::Recover => match event {
                CancelEvent::Recovered(RecoveryAnswer::Aborted(effect, writer)) => {
                    let expected = match effect {
                        AbortEffect::NotPublished => WriterEnd::Aborted,
                        AbortEffect::Published => WriterEnd::Published,
                        AbortEffect::Indeterminate => WriterEnd::Indeterminate,
                    };
                    if writer != expected {
                        self.fail("copy recovery state differs from abort outcome", false)
                    } else {
                        self.effect = Some(effect);
                        self.stage = CancelStage::TargetAfter;
                        CancelRequest::ObserveFile { path: self.target.clone() }
                    }
                },
                CancelEvent::Recovered(RecoveryAnswer::Rejected) => self.fail(
                    "cancellation probe retained a rejected provider identity",
                    true,
                ),
                _ => self.fail("copy recovery abort failed", true),
            },
            CancelStage::Finished => CancelRequest::Finish,
            _ => match event {
                CancelEvent::Observed(observation) => self.settle_observation(ctx, observation),
                _ => CancelRequest::Finish,
            },
        }
    }
}

} // verus!
