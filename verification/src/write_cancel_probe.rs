//! Write cancellation evidence, as a step machine: a write dropped at a
//! held stage must become indeterminate with the confirmed bytes and the
//! recovery writer that stage implies, refuse another execution without
//! changing those facts, and keep them through the recovery writer's abort.
use vstd::prelude::*;

use crate::cancellation_stage::AsyncWriteCancellationStage;
use crate::cancellation_stage::write_cancellation_id;
use crate::capability::FileSystemCapability;
use crate::contract_check_id::ContractCheckId;
use crate::contract_check_outcome::ContractCheckOutcome;
use crate::contract_check_outcome::OutcomeView;
use crate::contract_context::ContextView;
use crate::contract_context::ContractContext;
use crate::contract_context::relative_in;
use crate::contract_context::with_created;
use crate::contract_context::with_recorded;
use crate::copy_cancel_probe::AbortEffect;
use crate::copy_cancel_probe::WriterEnd;
use crate::copy_cancel_probe::writer_after;
use crate::fs_facts::ErrorKind;

verus! {

/// The next thing the driver does for a write cancellation check. Once the
/// fixture's hold exists, the driver releases it before it reports the
/// check's end, whichever end that is.
#[derive(Debug, PartialEq, Eq)]
pub enum WriteCancelRequest {
    /// Ask the fixture for a write held at `stage`, named after `name`.
    Prepare {
        /// The held stage.
        stage: AsyncWriteCancellationStage,
        /// The fixture-relative name.
        name: String,
    },
    /// Begin the held write and poll it until the fixture acknowledges the
    /// stage, then drop the execution.
    RunUntilStage,
    /// Execute the cancelled write once more.
    ExecuteAgain,
    /// Release the fixture's hold.
    Disarm,
    /// Abort the recovery writer, when there is one, and observe the
    /// operation afterwards.
    Recover,
    /// The check was recorded.
    Finish,
    /// The check failed with `message`.
    Fail {
        /// The diagnostic.
        message: &'static str,
        /// Whether the error just answered is attached as the source.
        with_error: bool,
    },
}

/// The abstract form of a write cancellation request.
pub enum WriteCancelRequestView {
    /// Prepare a held write.
    Prepare { stage: AsyncWriteCancellationStage, name: Seq<char> },
    /// Run to the stage.
    RunUntilStage,
    /// Execute again.
    ExecuteAgain,
    /// Release the hold.
    Disarm,
    /// Recover.
    Recover,
    /// The check was recorded.
    Finish,
    /// The check failed.
    Fail { message: Seq<char>, with_error: bool },
}

impl View for WriteCancelRequest {
    type V = WriteCancelRequestView;

    open spec fn view(&self) -> WriteCancelRequestView {
        match self {
            WriteCancelRequest::Prepare { stage, name } => WriteCancelRequestView::Prepare {
                stage: *stage,
                name: name@,
            },
            WriteCancelRequest::RunUntilStage => WriteCancelRequestView::RunUntilStage,
            WriteCancelRequest::ExecuteAgain => WriteCancelRequestView::ExecuteAgain,
            WriteCancelRequest::Disarm => WriteCancelRequestView::Disarm,
            WriteCancelRequest::Recover => WriteCancelRequestView::Recover,
            WriteCancelRequest::Finish => WriteCancelRequestView::Finish,
            WriteCancelRequest::Fail { message, with_error } => WriteCancelRequestView::Fail {
                message: message@,
                with_error: *with_error,
            },
        }
    }
}

/// What the fixture's preparation of a held write answered.
pub enum WriteCancelPreparation {
    /// The hook failed.
    Failed,
    /// The fixture has no stage-aware hold.
    Unsupported,
    /// The held write targets this path with a payload of this length.
    Ready {
        /// The target path.
        path: String,
        /// The payload's length.
        len: u64,
    },
}

/// How running the held write to its stage ended.
#[derive(Clone, Copy, Debug, PartialEq, Eq, Structural)]
pub enum WriteRunEnd {
    /// The write was refused at preflight.
    PreflightFailed,
    /// The execution ended before the stage was acknowledged.
    EndedEarly,
    /// The fixture's acknowledgement failed.
    AcknowledgementFailed,
    /// The stage was acknowledged and the execution dropped; the operation
    /// then reported these facts.
    Reached {
        /// Whether the operation reports an indeterminate failure.
        indeterminate: bool,
        /// The bytes the operation confirms written.
        confirmed: u64,
        /// Whether the operation holds a recovery writer.
        recovery: bool,
    },
}

/// A refused repeated execution, as the facade reported it.
#[derive(Clone, Copy, Debug, PartialEq, Eq, Structural)]
pub struct RepeatedWriteFacts {
    /// The error's classification.
    pub kind: ErrorKind,
    /// Whether the failure state is indeterminate.
    pub indeterminate: bool,
    /// The bytes the failure reports written.
    pub written: u64,
}

/// What aborting the recovery writer answered.
#[derive(Clone, Copy, Debug, PartialEq, Eq, Structural)]
pub enum RecoveryAbort {
    /// The operation held no recovery writer.
    NoWriter,
    /// The abort failed.
    Failed,
    /// The abort reported this effect and left the writer in this state.
    Aborted(AbortEffect, WriterEnd),
}

/// The operation after the recovery step.
#[derive(Clone, Copy, Debug, PartialEq, Eq, Structural)]
pub struct RecoveredWrite {
    /// What aborting the recovery writer answered.
    pub abort: RecoveryAbort,
    /// The bytes the operation confirms written afterwards.
    pub written: u64,
    /// Whether the operation still reports an indeterminate failure.
    pub indeterminate: bool,
}

/// The answer to the pending write cancellation request.
pub enum WriteCancelEvent {
    /// The fixture's preparation answered.
    Prepared(WriteCancelPreparation),
    /// The run to the stage answered.
    Ran(WriteRunEnd),
    /// The repeated execution answered: its refusal, or `None` when it
    /// succeeded.
    Repeated(Option<RepeatedWriteFacts>),
    /// Releasing the hold answered whether it succeeded.
    Disarmed(bool),
    /// The recovery step answered.
    Recovered(RecoveredWrite),
}

/// The abstract form of a preparation answer.
pub enum WriteCancelPreparationView {
    /// Failed.
    Failed,
    /// Unsupported.
    Unsupported,
    /// Ready.
    Ready { path: Seq<char>, len: u64 },
}

/// The abstract form of a write cancellation answer.
pub enum WriteCancelEventView {
    /// A preparation answer.
    Prepared(WriteCancelPreparationView),
    /// A run answer.
    Ran(WriteRunEnd),
    /// A repeated execution answer.
    Repeated(Option<RepeatedWriteFacts>),
    /// A release answer.
    Disarmed(bool),
    /// A recovery answer.
    Recovered(RecoveredWrite),
}

impl View for WriteCancelEvent {
    type V = WriteCancelEventView;

    open spec fn view(&self) -> WriteCancelEventView {
        match self {
            WriteCancelEvent::Prepared(WriteCancelPreparation::Failed) => WriteCancelEventView::Prepared(
                WriteCancelPreparationView::Failed,
            ),
            WriteCancelEvent::Prepared(WriteCancelPreparation::Unsupported) => WriteCancelEventView::Prepared(
                WriteCancelPreparationView::Unsupported,
            ),
            WriteCancelEvent::Prepared(WriteCancelPreparation::Ready { path, len }) => WriteCancelEventView::Prepared(
                WriteCancelPreparationView::Ready { path: path@, len: *len },
            ),
            WriteCancelEvent::Ran(end) => WriteCancelEventView::Ran(*end),
            WriteCancelEvent::Repeated(repeat) => WriteCancelEventView::Repeated(*repeat),
            WriteCancelEvent::Disarmed(ok) => WriteCancelEventView::Disarmed(*ok),
            WriteCancelEvent::Recovered(recovered) => WriteCancelEventView::Recovered(*recovered),
        }
    }
}

/// The request a write cancellation check waits on.
#[derive(Clone, Copy, Debug, PartialEq, Eq, Structural)]
pub enum WriteCancelStage {
    /// The fixture prepares the held write.
    Prepare,
    /// The write runs to the held stage.
    Run,
    /// The cancelled write executes again.
    Repeat,
    /// The hold is released.
    Disarm,
    /// The recovery writer is aborted.
    Recover,
    /// The check has finished.
    Finished,
}

/// The abstract state of a write cancellation check.
pub struct WriteCancelView {
    /// The held stage.
    pub held: AsyncWriteCancellationStage,
    /// The payload's length.
    pub expected: u64,
    /// The bytes the cancelled operation confirmed.
    pub confirmed: u64,
    /// The stage.
    pub stage: WriteCancelStage,
}

/// Drives one write cancellation check.
pub struct WriteCancelProbe {
    held: AsyncWriteCancellationStage,
    expected: u64,
    confirmed: u64,
    stage: WriteCancelStage,
}

impl View for WriteCancelProbe {
    type V = WriteCancelView;

    closed spec fn view(&self) -> WriteCancelView {
        WriteCancelView { held: self.held, expected: self.expected, confirmed: self.confirmed, stage: self.stage }
    }
}

/// The held stage of a write cancellation check, or `None` for another
/// check.
pub open spec fn held_write_stage(id: ContractCheckId) -> Option<AsyncWriteCancellationStage> {
    match id {
        ContractCheckId::WriteCancelOpen => Some(AsyncWriteCancellationStage::Open),
        ContractCheckId::WriteCancelWrite => Some(AsyncWriteCancellationStage::Write),
        ContractCheckId::WriteCancelFlush => Some(AsyncWriteCancellationStage::Flush),
        ContractCheckId::WriteCancelCommit => Some(AsyncWriteCancellationStage::Commit),
        _ => None,
    }
}

/// Whether the facts of a write cancelled at `held` are those the stage
/// implies: nothing confirmed and no writer when opening; at most the
/// payload confirmed and a writer while writing; the whole payload
/// confirmed and a writer when flushing or committing.
pub open spec fn stage_facts_hold(held: AsyncWriteCancellationStage, expected: u64, confirmed: u64, recovery: bool) -> bool {
    match held {
        AsyncWriteCancellationStage::Open => confirmed == 0 && !recovery,
        AsyncWriteCancellationStage::Write => confirmed <= expected && recovery,
        _ => confirmed == expected && recovery,
    }
}

/// The capability a write cancellation check is recorded under.
pub open spec fn write_cancel_capability() -> Option<FileSystemCapability> {
    Some(FileSystemCapability::Write)
}

/// The start of a write cancellation check over the suite context, in the
/// current phase: a check of another kind fails; without write the check
/// does not apply; otherwise the fixture is asked for a held write.
pub open spec fn write_cancel_start(id: ContractCheckId, write: bool, ctx: ContextView) -> (
    WriteCancelView,
    ContextView,
    WriteCancelRequestView,
) {
    let held = match held_write_stage(id) {
        Some(held) => held,
        None => AsyncWriteCancellationStage::Open,
    };
    let p = WriteCancelView { held, expected: 0, confirmed: 0, stage: WriteCancelStage::Finished };
    if held_write_stage(id) is None {
        (p, ctx, WriteCancelRequestView::Fail { message: "selected check is not write cancellation"@, with_error: false })
    } else if !write {
        (
            p,
            with_recorded(
                ctx,
                id,
                write_cancel_capability(),
                OutcomeView::NotApplicable { reason: "write capability unavailable"@ },
            ),
            WriteCancelRequestView::Finish,
        )
    } else {
        (
            WriteCancelView { stage: WriteCancelStage::Prepare, ..p },
            ctx,
            WriteCancelRequestView::Prepare { stage: held, name: relative_in(ctx, id.stable_name()) },
        )
    }
}

/// The kind of answer a stage waits for.
pub open spec fn write_cancel_answers(stage: WriteCancelStage, event: WriteCancelEventView) -> bool {
    match stage {
        WriteCancelStage::Prepare => event is Prepared,
        WriteCancelStage::Run => event is Ran,
        WriteCancelStage::Repeat => event is Repeated,
        WriteCancelStage::Disarm => event is Disarmed,
        WriteCancelStage::Recover => event is Recovered,
        WriteCancelStage::Finished => false,
    }
}

/// The transition of a write cancellation check at `p.stage` on `event`.
pub open spec fn write_cancel_step(p: WriteCancelView, ctx: ContextView, event: WriteCancelEventView) -> (
    WriteCancelView,
    ContextView,
    WriteCancelRequestView,
) {
    let done = WriteCancelView { stage: WriteCancelStage::Finished, ..p };
    let fail = |message: Seq<char>, with_error: bool| (
        done,
        ctx,
        WriteCancelRequestView::Fail { message, with_error },
    );
    let id = write_cancellation_id(p.held);
    let record = |outcome: OutcomeView| (
        done,
        with_recorded(ctx, id, write_cancel_capability(), outcome),
        WriteCancelRequestView::Finish,
    );
    match (p.stage, event) {
        (WriteCancelStage::Prepare, WriteCancelEventView::Prepared(WriteCancelPreparationView::Ready { path, len })) => (
            WriteCancelView { expected: len, stage: WriteCancelStage::Run, ..p },
            with_created(ctx, path),
            WriteCancelRequestView::RunUntilStage,
        ),
        (WriteCancelStage::Prepare, WriteCancelEventView::Prepared(WriteCancelPreparationView::Unsupported)) => record(
            OutcomeView::Unverified { reason: "provider did not supply a stage-aware write cancellation probe"@ },
        ),
        (WriteCancelStage::Prepare, _) => fail("write cancellation: probe setup failed"@, true),
        (WriteCancelStage::Run, WriteCancelEventView::Ran(end)) => match end {
            WriteRunEnd::PreflightFailed => fail("write cancellation: preflight failed"@, true),
            WriteRunEnd::EndedEarly => fail("write cancellation: execution ended before stage acknowledgement"@, false),
            WriteRunEnd::AcknowledgementFailed => fail("write cancellation: stage acknowledgement failed"@, true),
            WriteRunEnd::Reached { indeterminate, confirmed, recovery } => if !indeterminate {
                fail("write cancellation: cancelled write did not become indeterminate"@, false)
            } else if !stage_facts_hold(p.held, p.expected, confirmed, recovery) {
                fail("write cancellation: confirmed bytes or recovery writer differ from the stage"@, false)
            } else {
                (
                    WriteCancelView { confirmed, stage: WriteCancelStage::Repeat, ..p },
                    ctx,
                    WriteCancelRequestView::ExecuteAgain,
                )
            },
        },
        (WriteCancelStage::Repeat, WriteCancelEventView::Repeated(Some(repeat))) => if repeat.kind
            != ErrorKind::InvalidState || !repeat.indeterminate || repeat.written != p.confirmed {
            fail("write cancellation: repeated execution changed cancellation facts"@, true)
        } else {
            (WriteCancelView { stage: WriteCancelStage::Disarm, ..p }, ctx, WriteCancelRequestView::Disarm)
        },
        (WriteCancelStage::Repeat, _) => fail("write cancellation: repeated execution accepted"@, false),
        (WriteCancelStage::Disarm, WriteCancelEventView::Disarmed(ok)) => if ok {
            (WriteCancelView { stage: WriteCancelStage::Recover, ..p }, ctx, WriteCancelRequestView::Recover)
        } else {
            fail("write cancellation: gate disarm failed"@, true)
        },
        (WriteCancelStage::Recover, WriteCancelEventView::Recovered(recovered)) => match recovered.abort {
            RecoveryAbort::Failed => fail("write cancellation: writer recovery failed"@, true),
            RecoveryAbort::Aborted(effect, end) if end != writer_after(effect) => fail(
                "write cancellation: writer state differs from abort outcome"@,
                false,
            ),
            _ => if recovered.written != p.confirmed {
                fail("write cancellation: recovery changed confirmed bytes"@, false)
            } else if !recovered.indeterminate {
                fail("write cancellation: recovery changed the operation state"@, false)
            } else {
                record(OutcomeView::Passed)
            },
        },
        (_, _) => (p, ctx, WriteCancelRequestView::Finish),
    }
}

/// A write cancellation check passes only at the recovery step, after a
/// refused repetition that kept the confirmed bytes, when the recovery kept
/// them and the indeterminate state; it repeats the execution only once the
/// cancelled operation showed the facts its stage implies.
pub proof fn law_write_cancellation_passes_only_on_kept_facts(
    p: WriteCancelView,
    ctx: ContextView,
    event: WriteCancelEventView,
)
    requires
        write_cancel_answers(p.stage, event),
    ensures
        write_cancel_step(p, ctx, event).2 is Finish && p.stage != WriteCancelStage::Prepare ==> p.stage
            == WriteCancelStage::Recover && (event matches WriteCancelEventView::Recovered(recovered)
            && recovered.written == p.confirmed && recovered.indeterminate) && write_cancel_step(p, ctx, event).1
            == with_recorded(ctx, write_cancellation_id(p.held), write_cancel_capability(), OutcomeView::Passed),
        write_cancel_step(p, ctx, event).2 is ExecuteAgain ==> (event matches WriteCancelEventView::Ran(
            WriteRunEnd::Reached { indeterminate, confirmed, recovery },
        ) && indeterminate && stage_facts_hold(p.held, p.expected, confirmed, recovery)),
        write_cancel_step(p, ctx, event).2 is Disarm ==> (event matches WriteCancelEventView::Repeated(Some(repeat))
            && repeat.kind == ErrorKind::InvalidState && repeat.written == p.confirmed),
{
}

impl WriteCancelProbe {
    /// Starts the write cancellation check `id` in the suite context, given
    /// whether write is advertised; returns the probe with its first
    /// request.
    pub fn new(ctx: &mut ContractContext, id: ContractCheckId, write: bool) -> (started: (
        WriteCancelProbe,
        WriteCancelRequest,
    ))
        ensures
            (started.0@, final(ctx)@, started.1@) == write_cancel_start(id, write, old(ctx)@),
    {
        let held = match id {
            ContractCheckId::WriteCancelOpen => Some(AsyncWriteCancellationStage::Open),
            ContractCheckId::WriteCancelWrite => Some(AsyncWriteCancellationStage::Write),
            ContractCheckId::WriteCancelFlush => Some(AsyncWriteCancellationStage::Flush),
            ContractCheckId::WriteCancelCommit => Some(AsyncWriteCancellationStage::Commit),
            _ => None,
        };
        let mut probe = WriteCancelProbe {
            held: match held {
                Some(held) => held,
                None => AsyncWriteCancellationStage::Open,
            },
            expected: 0,
            confirmed: 0,
            stage: WriteCancelStage::Finished,
        };
        match held {
            None => (
                probe,
                WriteCancelRequest::Fail { message: "selected check is not write cancellation", with_error: false },
            ),
            Some(held) => if !write {
                ctx.record_check(
                    id,
                    Some(FileSystemCapability::Write),
                    ContractCheckOutcome::NotApplicable { reason: String::from_str("write capability unavailable") },
                );
                (probe, WriteCancelRequest::Finish)
            } else {
                probe.stage = WriteCancelStage::Prepare;
                let name = ctx.relative_name(id.as_str());
                (probe, WriteCancelRequest::Prepare { stage: held, name })
            },
        }
    }

    /// Returns the request the check waits on.
    pub fn stage(&self) -> (stage: WriteCancelStage)
        ensures
            stage == self@.stage,
    {
        self.stage
    }

    /// Returns whether `event` is the kind of answer the check waits for.
    pub fn expects(&self, event: &WriteCancelEvent) -> (answered: bool)
        ensures
            answered == write_cancel_answers(self@.stage, event@),
    {
        match self.stage {
            WriteCancelStage::Prepare => matches!(event, WriteCancelEvent::Prepared(_)),
            WriteCancelStage::Run => matches!(event, WriteCancelEvent::Ran(_)),
            WriteCancelStage::Repeat => matches!(event, WriteCancelEvent::Repeated(_)),
            WriteCancelStage::Disarm => matches!(event, WriteCancelEvent::Disarmed(_)),
            WriteCancelStage::Recover => matches!(event, WriteCancelEvent::Recovered(_)),
            WriteCancelStage::Finished => false,
        }
    }

    /// Ends the check with the failure `message`.
    fn fail(&mut self, message: &'static str, with_error: bool) -> (request: WriteCancelRequest)
        ensures
            final(self)@ == (WriteCancelView { stage: WriteCancelStage::Finished, ..old(self)@ }),
            request@ == (WriteCancelRequestView::Fail { message: message@, with_error }),
    {
        self.stage = WriteCancelStage::Finished;
        WriteCancelRequest::Fail { message, with_error }
    }

    /// Ends the check by recording `outcome`.
    fn record(&mut self, ctx: &mut ContractContext, outcome: ContractCheckOutcome) -> (request: WriteCancelRequest)
        ensures
            final(self)@ == (WriteCancelView { stage: WriteCancelStage::Finished, ..old(self)@ }),
            final(ctx)@ == with_recorded(
                old(ctx)@,
                write_cancellation_id(old(self)@.held),
                write_cancel_capability(),
                outcome@,
            ),
            request@ == WriteCancelRequestView::Finish,
    {
        self.stage = WriteCancelStage::Finished;
        let id = match self.held {
            AsyncWriteCancellationStage::Open => ContractCheckId::WriteCancelOpen,
            AsyncWriteCancellationStage::Write => ContractCheckId::WriteCancelWrite,
            AsyncWriteCancellationStage::Flush => ContractCheckId::WriteCancelFlush,
            AsyncWriteCancellationStage::Commit => ContractCheckId::WriteCancelCommit,
        };
        ctx.record_check(id, Some(FileSystemCapability::Write), outcome);
        WriteCancelRequest::Finish
    }

    /// Takes the answer to the pending request, records what the step
    /// names in the suite context, and returns the next request.
    pub fn advance(&mut self, ctx: &mut ContractContext, event: WriteCancelEvent) -> (request: WriteCancelRequest)
        requires
            write_cancel_answers(old(self)@.stage, event@),
        ensures
            (final(self)@, final(ctx)@, request@) == write_cancel_step(old(self)@, old(ctx)@, event@),
    {
        match self.stage {
            WriteCancelStage::Prepare => match event {
                WriteCancelEvent::Prepared(WriteCancelPreparation::Ready { path, len }) => {
                    ctx.record_created(path);
                    self.expected = len;
                    self.stage = WriteCancelStage::Run;
                    WriteCancelRequest::RunUntilStage
                },
                WriteCancelEvent::Prepared(WriteCancelPreparation::Unsupported) => self.record(
                    ctx,
                    ContractCheckOutcome::Unverified {
                        reason: String::from_str("provider did not supply a stage-aware write cancellation probe"),
                    },
                ),
                _ => self.fail("write cancellation: probe setup failed", true),
            },
            WriteCancelStage::Run => match event {
                WriteCancelEvent::Ran(WriteRunEnd::PreflightFailed) => self.fail(
                    "write cancellation: preflight failed",
                    true,
                ),
                WriteCancelEvent::Ran(WriteRunEnd::EndedEarly) => self.fail(
                    "write cancellation: execution ended before stage acknowledgement",
                    false,
                ),
                WriteCancelEvent::Ran(WriteRunEnd::AcknowledgementFailed) => self.fail(
                    "write cancellation: stage acknowledgement failed",
                    true,
                ),
                WriteCancelEvent::Ran(WriteRunEnd::Reached { indeterminate, confirmed, recovery }) => {
                    let facts_hold = match self.held {
                        AsyncWriteCancellationStage::Open => confirmed == 0 && !recovery,
                        AsyncWriteCancellationStage::Write => confirmed <= self.expected && recovery,
                        _ => confirmed == self.expected && recovery,
                    };
                    if !indeterminate {
                        self.fail("write cancellation: cancelled write did not become indeterminate", false)
                    } else if !facts_hold {
                        self.fail("write cancellation: confirmed bytes or recovery writer differ from the stage", false)
                    } else {
                        self.confirmed = confirmed;
                        self.stage = WriteCancelStage::Repeat;
                        WriteCancelRequest::ExecuteAgain
                    }
                },
                _ => self.fail("write cancellation: preflight failed", true),
            },
            WriteCancelStage::Repeat => match event {
                WriteCancelEvent::Repeated(Some(repeat)) => if repeat.kind != ErrorKind::InvalidState
                    || !repeat.indeterminate || repeat.written != self.confirmed {
                    self.fail("write cancellation: repeated execution changed cancellation facts", true)
                } else {
                    self.stage = WriteCancelStage::Disarm;
                    WriteCancelRequest::Disarm
                },
                _ => self.fail("write cancellation: repeated execution accepted", false),
            },
            WriteCancelStage::Disarm => match event {
                WriteCancelEvent::Disarmed(true) => {
                    self.stage = WriteCancelStage::Recover;
                    WriteCancelRequest::Recover
                },
                _ => self.fail("write cancellation: gate disarm failed", true),
            },
            WriteCancelStage::Recover => match event {
                WriteCancelEvent::Recovered(recovered) => {
                    let abort_state_ok = match recovered.abort {
                        RecoveryAbort::Aborted(effect, end) => match effect {
                            AbortEffect::NotPublished => end == WriterEnd::Aborted,
                            AbortEffect::Published => end == WriterEnd::Published,
                            AbortEffect::Indeterminate => end == WriterEnd::Indeterminate,
                        },
                        _ => true,
                    };
                    if recovered.abort == RecoveryAbort::Failed {
                        self.fail("write cancellation: writer recovery failed", true)
                    } else if !abort_state_ok {
                        self.fail("write cancellation: writer state differs from abort outcome", false)
                    } else if recovered.written != self.confirmed {
                        self.fail("write cancellation: recovery changed confirmed bytes", false)
                    } else if !recovered.indeterminate {
                        self.fail("write cancellation: recovery changed the operation state", false)
                    } else {
                        self.record(ctx, ContractCheckOutcome::Passed)
                    }
                },
                _ => self.fail("write cancellation: writer recovery failed", true),
            },
            WriteCancelStage::Finished => WriteCancelRequest::Finish,
        }
    }
}

} // verus!
