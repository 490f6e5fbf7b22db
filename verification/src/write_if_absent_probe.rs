//! Creation evidence for the If-Absent write check, as a step machine: a
//! conditional creation must publish once, and a second one under the same
//! condition must be refused without changing the published bytes.
use vstd::prelude::*;
use vstd::string::StringSliceAdditionalSpecFns;

use crate::capability::FileSystemCapability;
use crate::contract_check_id::ContractCheckId;
use crate::contract_check_outcome::ContractCheckOutcome;
use crate::contract_check_outcome::OutcomeView;
use crate::contract_context::ContextView;
use crate::contract_context::ContractContext;
use crate::contract_context::relative_in;
use crate::contract_context::with_created;
use crate::contract_context::with_recorded;
use crate::fs_facts::Contents;
use crate::fs_facts::ContentsView;
use crate::fs_facts::ErrorFacts;
use crate::fs_facts::ErrorFactsView;
use crate::fs_facts::ErrorKind;
use crate::fs_facts::OperationKind;
use crate::fs_facts::holds_bytes;
use crate::fs_facts::text_is;
use crate::fs_facts::text_of;
use crate::write_basic_probe::bounded_payload;
use crate::write_basic_probe::payload_under;
use crate::write_if_match_probe::requirement_refusal_exact;
use crate::write_if_match_probe::stale_refusal_exact;

verus! {

/// The next thing the driver does for the If-Absent write check.
#[derive(Debug, PartialEq, Eq)]
pub enum IfAbsentRequest {
    /// Resolve this fixture-relative name to a provider path.
    ResolvePath {
        /// The fixture-relative name.
        name: String,
    },
    /// Open a writer at `path` that requires the target to be absent, which
    /// must be rejected.
    OpenRejectedWriter {
        /// The path.
        path: String,
    },
    /// Ask the fixture to prepare a conditional creation of `bytes` under
    /// this name.
    PrepareWrite {
        /// The fixture-relative name.
        name: String,
        /// The bytes to write.
        bytes: Vec<u8>,
    },
    /// Write `bytes` to `path` with the prepared options and commit.
    WriteFile {
        /// The path.
        path: String,
        /// The bytes to write.
        bytes: Vec<u8>,
    },
    /// Read the bytes at `path` out of band.
    Read {
        /// The path.
        path: String,
    },
    /// The check was recorded.
    Finish,
    /// The check failed with `message`.
    Fail {
        /// The diagnostic.
        message: &'static str,
        /// Whether the error just answered is attached as the source.
        with_error: bool,
    },
}

/// The abstract form of an If-Absent request.
pub enum IfAbsentRequestView {
    /// Resolve a name.
    ResolvePath { name: Seq<char> },
    /// Open a writer that must be rejected.
    OpenRejectedWriter { path: Seq<char> },
    /// Prepare a conditional creation.
    PrepareWrite { name: Seq<char>, bytes: Seq<u8> },
    /// Write and commit.
    WriteFile { path: Seq<char>, bytes: Seq<u8> },
    /// Read a path.
    Read { path: Seq<char> },
    /// The check was recorded.
    Finish,
    /// The check failed.
    Fail { message: Seq<char>, with_error: bool },
}

impl View for IfAbsentRequest {
    type V = IfAbsentRequestView;

    open spec fn view(&self) -> IfAbsentRequestView {
        match self {
            IfAbsentRequest::ResolvePath { name } => IfAbsentRequestView::ResolvePath { name: name@ },
            IfAbsentRequest::OpenRejectedWriter { path } => IfAbsentRequestView::OpenRejectedWriter { path: path@ },
            IfAbsentRequest::PrepareWrite { name, bytes } => IfAbsentRequestView::PrepareWrite {
                name: name@,
                bytes: bytes@,
            },
            IfAbsentRequest::WriteFile { path, bytes } => IfAbsentRequestView::WriteFile { path: path@, bytes: bytes@ },
            IfAbsentRequest::Read { path } => IfAbsentRequestView::Read { path: path@ },
            IfAbsentRequest::Finish => IfAbsentRequestView::Finish,
            IfAbsentRequest::Fail { message, with_error } => IfAbsentRequestView::Fail {
                message: message@,
                with_error: *with_error,
            },
        }
    }
}

/// What the fixture's conditional creation preparation answered.
pub enum IfAbsentPreparation {
    /// The preparation hook failed.
    Failed,
    /// The creation cannot be prepared or does not apply, for this reason.
    Skipped(String),
    /// The creation is ready.
    Ready {
        /// The path to write.
        path: String,
        /// The bytes the case writes.
        bytes: Vec<u8>,
        /// Whether the case's options require the target to be absent.
        if_absent: bool,
        /// Whether the case's disposition is create-or-replace.
        replaces: bool,
    },
}

/// The answer to the pending If-Absent request.
pub enum IfAbsentEvent {
    /// The resolved path, or `None` when the fixture could not map it.
    Resolved(Option<String>),
    /// The writer that had to be rejected: its error, or `None` when it
    /// opened.
    OpenRejected(Option<ErrorFacts>),
    /// The fixture's preparation answered.
    Prepared(IfAbsentPreparation),
    /// Writing and committing answered: success, or the error.
    Written(Result<(), ErrorFacts>),
    /// A content observation answered.
    Read(Contents),
}

/// The abstract form of a preparation answer.
pub enum IfAbsentPreparationView {
    /// The hook failed.
    Failed,
    /// Skipped, for this reason.
    Skipped(Seq<char>),
    /// Ready.
    Ready { path: Seq<char>, bytes: Seq<u8>, if_absent: bool, replaces: bool },
}

/// The abstract form of an If-Absent answer.
pub enum IfAbsentEventView {
    /// A resolved path.
    Resolved(Option<Seq<char>>),
    /// An open rejection, or `None` for an opened writer.
    OpenRejected(Option<ErrorFactsView>),
    /// A preparation answer.
    Prepared(IfAbsentPreparationView),
    /// A successful write.
    Written,
    /// A refused write.
    Refused(ErrorFactsView),
    /// A content observation.
    Read(ContentsView),
}

impl View for IfAbsentEvent {
    type V = IfAbsentEventView;

    open spec fn view(&self) -> IfAbsentEventView {
        match self {
            IfAbsentEvent::Resolved(path) => IfAbsentEventView::Resolved(text_of(*path)),
            IfAbsentEvent::OpenRejected(None) => IfAbsentEventView::OpenRejected(None),
            IfAbsentEvent::OpenRejected(Some(error)) => IfAbsentEventView::OpenRejected(Some(error@)),
            IfAbsentEvent::Prepared(IfAbsentPreparation::Failed) => IfAbsentEventView::Prepared(
                IfAbsentPreparationView::Failed,
            ),
            IfAbsentEvent::Prepared(IfAbsentPreparation::Skipped(reason)) => IfAbsentEventView::Prepared(
                IfAbsentPreparationView::Skipped(reason@),
            ),
            IfAbsentEvent::Prepared(IfAbsentPreparation::Ready { path, bytes, if_absent, replaces }) => IfAbsentEventView::Prepared(
                IfAbsentPreparationView::Ready {
                    path: path@,
                    bytes: bytes@,
                    if_absent: *if_absent,
                    replaces: *replaces,
                },
            ),
            IfAbsentEvent::Written(Ok(())) => IfAbsentEventView::Written,
            IfAbsentEvent::Written(Err(error)) => IfAbsentEventView::Refused(error@),
            IfAbsentEvent::Read(contents) => IfAbsentEventView::Read(contents@),
        }
    }
}

/// The request the If-Absent check waits on.
#[derive(Clone, Copy, Debug, PartialEq, Eq, Structural)]
pub enum IfAbsentStage {
    /// The path of a writer that must be rejected is being resolved.
    ResolveRejected,
    /// The writer that must be rejected is opening.
    Rejected,
    /// The fixture prepares the creation.
    Prepare,
    /// The first conditional creation runs.
    First,
    /// The first publication is read.
    ReadFirst,
    /// The second conditional creation runs.
    Retry,
    /// The target is read after the refused creation.
    ReadAfter,
    /// The check has finished.
    Finished,
}

/// The abstract state of the If-Absent check.
pub struct IfAbsentView {
    /// The provider identity errors must report.
    pub provider: Seq<char>,
    /// The bytes the first creation publishes.
    pub payload: Seq<u8>,
    /// The bytes the refused creation sends.
    pub unexpected: Seq<u8>,
    /// The target path, once known.
    pub path: Seq<char>,
    /// The stage.
    pub stage: IfAbsentStage,
}

/// Drives the If-Absent write check.
pub struct WriteIfAbsentProbe {
    provider: String,
    payload: Vec<u8>,
    unexpected: Vec<u8>,
    path: String,
    stage: IfAbsentStage,
}

impl View for WriteIfAbsentProbe {
    type V = IfAbsentView;

    closed spec fn view(&self) -> IfAbsentView {
        IfAbsentView {
            provider: self.provider@,
            payload: self.payload@,
            unexpected: self.unexpected@,
            path: self.path@,
            stage: self.stage,
        }
    }
}

/// The capability the If-Absent check is recorded under.
pub open spec fn if_absent_capability() -> Option<FileSystemCapability> {
    Some(FileSystemCapability::ConditionalWrite)
}

/// The start of the If-Absent check over the suite context, in the current
/// phase: without conditional write the rejected path is resolved, and
/// otherwise a conditional creation of the bounded payload is prepared.
pub open spec fn if_absent_start(conditional: bool, limit: Option<u64>, provider: Seq<char>, ctx: ContextView) -> (
    IfAbsentView,
    ContextView,
    IfAbsentRequestView,
) {
    let name = relative_in(ctx, "write-conditional"@);
    let p = IfAbsentView {
        provider,
        payload: payload_under(limit, "conditional".spec_bytes(), 99u8),
        unexpected: payload_under(limit, "unexpected".spec_bytes(), 117u8),
        path: Seq::empty(),
        stage: IfAbsentStage::Finished,
    };
    if !conditional {
        (IfAbsentView { stage: IfAbsentStage::ResolveRejected, ..p }, ctx, IfAbsentRequestView::ResolvePath { name })
    } else {
        (
            IfAbsentView { stage: IfAbsentStage::Prepare, ..p },
            ctx,
            IfAbsentRequestView::PrepareWrite { name, bytes: p.payload },
        )
    }
}

/// The kind of answer a stage waits for.
pub open spec fn if_absent_answers(stage: IfAbsentStage, event: IfAbsentEventView) -> bool {
    match stage {
        IfAbsentStage::ResolveRejected => event is Resolved,
        IfAbsentStage::Rejected => event is OpenRejected,
        IfAbsentStage::Prepare => event is Prepared,
        IfAbsentStage::First | IfAbsentStage::Retry => event is Written || event is Refused,
        IfAbsentStage::ReadFirst | IfAbsentStage::ReadAfter => event is Read,
        IfAbsentStage::Finished => false,
    }
}

/// The transition of the If-Absent check at `p.stage` on `event`.
pub open spec fn if_absent_step(p: IfAbsentView, ctx: ContextView, event: IfAbsentEventView) -> (
    IfAbsentView,
    ContextView,
    IfAbsentRequestView,
) {
    let done = IfAbsentView { stage: IfAbsentStage::Finished, ..p };
    let fail = |message: Seq<char>, with_error: bool| (done, ctx, IfAbsentRequestView::Fail { message, with_error });
    let record = |outcome: OutcomeView| (
        done,
        with_recorded(ctx, ContractCheckId::WriteIfAbsent, if_absent_capability(), outcome),
        IfAbsentRequestView::Finish,
    );
    match (p.stage, event) {
        (IfAbsentStage::ResolveRejected, IfAbsentEventView::Resolved(Some(path))) => (
            IfAbsentView { path, stage: IfAbsentStage::Rejected, ..p },
            ctx,
            IfAbsentRequestView::OpenRejectedWriter { path },
        ),
        (IfAbsentStage::ResolveRejected, _) => fail("conditional write path failed"@, true),
        (IfAbsentStage::Rejected, IfAbsentEventView::OpenRejected(Some(error))) => if requirement_refusal_exact(
            error,
            p.path,
            p.provider,
        ) {
            record(OutcomeView::RejectedAsExpected)
        } else {
            fail("conditional write error context differs"@, true)
        },
        (IfAbsentStage::Rejected, _) => fail("unavailable conditional write succeeded"@, false),
        (IfAbsentStage::Prepare, IfAbsentEventView::Prepared(IfAbsentPreparationView::Skipped(reason))) => record(
            OutcomeView::Unverified { reason },
        ),
        (
            IfAbsentStage::Prepare,
            IfAbsentEventView::Prepared(IfAbsentPreparationView::Ready { path, bytes, if_absent, replaces }),
        ) => if bytes != p.payload || !if_absent || !replaces {
            fail("fixture changed If-Absent request semantics"@, false)
        } else {
            (
                IfAbsentView { path, stage: IfAbsentStage::First, ..p },
                with_created(ctx, path),
                IfAbsentRequestView::WriteFile { path, bytes: p.payload },
            )
        },
        (IfAbsentStage::Prepare, _) => fail("If-Absent preparation failed"@, true),
        (IfAbsentStage::First, IfAbsentEventView::Written) => (
            IfAbsentView { stage: IfAbsentStage::ReadFirst, ..p },
            ctx,
            IfAbsentRequestView::Read { path: p.path },
        ),
        (IfAbsentStage::First, _) => fail("conditional write first publication failed"@, true),
        (IfAbsentStage::ReadFirst, IfAbsentEventView::Read(ContentsView::Failed)) => fail(
            "conditional write initial observation failed"@,
            true,
        ),
        (IfAbsentStage::ReadFirst, IfAbsentEventView::Read(contents)) => if contents == ContentsView::Bytes(p.payload) {
            (
                IfAbsentView { stage: IfAbsentStage::Retry, ..p },
                ctx,
                IfAbsentRequestView::WriteFile { path: p.path, bytes: p.unexpected },
            )
        } else {
            fail("conditional write first publication differs or evidence is unavailable"@, false)
        },
        (IfAbsentStage::Retry, IfAbsentEventView::Refused(error)) => if stale_refusal_exact(error, p.path, p.provider) {
            (IfAbsentView { stage: IfAbsentStage::ReadAfter, ..p }, ctx, IfAbsentRequestView::Read { path: p.path })
        } else {
            fail("conditional write rejection differs"@, true)
        },
        (IfAbsentStage::Retry, _) => fail("conditional write replaced an existing target"@, false),
        (IfAbsentStage::ReadAfter, IfAbsentEventView::Read(ContentsView::Failed)) => fail(
            "conditional write rejection observation failed"@,
            true,
        ),
        (IfAbsentStage::ReadAfter, IfAbsentEventView::Read(contents)) => if contents == ContentsView::Bytes(p.payload) {
            record(OutcomeView::Passed)
        } else {
            fail("conditional write rejection changed target bytes or evidence is unavailable"@, false)
        },
        (_, _) => (p, ctx, IfAbsentRequestView::Finish),
    }
}

/// The check after answering `events` in turn from `state`, stopping at the
/// first event that the pending stage does not wait for.
pub open spec fn if_absent_trace(
    state: (IfAbsentView, ContextView, IfAbsentRequestView),
    events: Seq<IfAbsentEventView>,
) -> (IfAbsentView, ContextView, IfAbsentRequestView)
    decreases events.len(),
{
    if events.len() == 0 || !if_absent_answers(state.0.stage, events[0]) {
        state
    } else {
        if_absent_trace(if_absent_step(state.0, state.1, events[0]), events.drop_first())
    }
}

/// With conditional write advertised, the If-Absent check reaches the final
/// read only after the whole scenario: the fixture prepared an If-Absent
/// create-or-replace of exactly the payload, the first creation succeeded
/// and was read back holding the payload, and the second creation was
/// refused as a failed precondition on the path. That final read then
/// passes the check exactly when it still returns the payload; any other
/// read fails it.
pub proof fn law_if_absent_pass_needs_full_evidence(
    limit: Option<u64>,
    provider: Seq<char>,
    ctx: ContextView,
    events: Seq<IfAbsentEventView>,
    last: ContentsView,
)
    requires
        if_absent_trace(if_absent_start(true, limit, provider, ctx), events).0.stage == IfAbsentStage::ReadAfter,
    ensures
        ({
            let reached = if_absent_trace(if_absent_start(true, limit, provider, ctx), events);
            let payload = reached.0.payload;
            let answered = if_absent_step(reached.0, reached.1, IfAbsentEventView::Read(last));
            &&& payload == payload_under(limit, "conditional".spec_bytes(), 99u8)
            &&& events.len() >= 4
            &&& events[0] == IfAbsentEventView::Prepared(
                IfAbsentPreparationView::Ready { path: reached.0.path, bytes: payload, if_absent: true, replaces: true },
            )
            &&& events[1] == IfAbsentEventView::Written
            &&& events[2] == IfAbsentEventView::Read(ContentsView::Bytes(payload))
            &&& events[3] matches IfAbsentEventView::Refused(error) && stale_refusal_exact(
                error,
                reached.0.path,
                provider,
            )
            &&& (answered.2 is Finish <==> last == ContentsView::Bytes(payload))
            &&& answered.2 is Finish ==> answered.1 == with_recorded(
                reached.1,
                ContractCheckId::WriteIfAbsent,
                if_absent_capability(),
                OutcomeView::Passed,
            )
            &&& !(answered.2 is Finish) ==> answered.2 is Fail
        }),
{
    reveal_with_fuel(if_absent_trace, 6);
    let start = if_absent_start(true, limit, provider, ctx);
    let e1 = events.drop_first();
    let e2 = e1.drop_first();
    let e3 = e2.drop_first();
    assert(events.len() >= 1 && if_absent_answers(start.0.stage, events[0]));
    let s1 = if_absent_step(start.0, start.1, events[0]);
    assert(s1.0.stage == IfAbsentStage::First);
    assert(e1.len() >= 1 && e1[0] == events[1]);
    let s2 = if_absent_step(s1.0, s1.1, events[1]);
    assert(s2.0.stage == IfAbsentStage::ReadFirst);
    assert(e2.len() >= 1 && e2[0] == events[2]);
    let s3 = if_absent_step(s2.0, s2.1, events[2]);
    assert(s3.0.stage == IfAbsentStage::Retry);
    assert(e3.len() >= 1 && e3[0] == events[3]);
}

impl WriteIfAbsentProbe {
    /// Starts the If-Absent check in the suite context, given whether
    /// conditional write is advertised, the declared largest write, and the
    /// provider identity; returns the probe with its first request.
    pub fn new(ctx: &mut ContractContext, conditional: bool, limit: Option<u64>, provider: String) -> (started: (
        WriteIfAbsentProbe,
        IfAbsentRequest,
    ))
        ensures
            (started.0@, final(ctx)@, started.1@) == if_absent_start(conditional, limit, provider@, old(ctx)@),
    {
        let name = ctx.relative_name("write-conditional");
        let mut probe = WriteIfAbsentProbe {
            provider,
            payload: bounded_payload(limit, "conditional".as_bytes(), 99u8),
            unexpected: bounded_payload(limit, "unexpected".as_bytes(), 117u8),
            path: String::new(),
            stage: IfAbsentStage::Finished,
        };
        if !conditional {
            probe.stage = IfAbsentStage::ResolveRejected;
            (probe, IfAbsentRequest::ResolvePath { name })
        } else {
            probe.stage = IfAbsentStage::Prepare;
            let bytes = probe.payload.clone();
            (probe, IfAbsentRequest::PrepareWrite { name, bytes })
        }
    }

    /// Returns the request the check waits on.
    pub fn stage(&self) -> (stage: IfAbsentStage)
        ensures
            stage == self@.stage,
    {
        self.stage
    }

    /// Returns whether `event` is the kind of answer the check waits for.
    pub fn expects(&self, event: &IfAbsentEvent) -> (answered: bool)
        ensures
            answered == if_absent_answers(self@.stage, event@),
    {
        match self.stage {
            IfAbsentStage::ResolveRejected => matches!(event, IfAbsentEvent::Resolved(_)),
            IfAbsentStage::Rejected => matches!(event, IfAbsentEvent::OpenRejected(_)),
            IfAbsentStage::Prepare => matches!(event, IfAbsentEvent::Prepared(_)),
            IfAbsentStage::First | IfAbsentStage::Retry => matches!(event, IfAbsentEvent::Written(_)),
            IfAbsentStage::ReadFirst | IfAbsentStage::ReadAfter => matches!(event, IfAbsentEvent::Read(_)),
            IfAbsentStage::Finished => false,
        }
    }

    /// Ends the check with the failure `message`.
    fn fail(&mut self, message: &'static str, with_error: bool) -> (request: IfAbsentRequest)
        ensures
            final(self)@ == (IfAbsentView { stage: IfAbsentStage::Finished, ..old(self)@ }),
            request@ == (IfAbsentRequestView::Fail { message: message@, with_error }),
    {
        self.stage = IfAbsentStage::Finished;
        IfAbsentRequest::Fail { message, with_error }
    }

    /// Ends the check by recording `outcome`.
    fn record(&mut self, ctx: &mut ContractContext, outcome: ContractCheckOutcome) -> (request: IfAbsentRequest)
        ensures
            final(self)@ == (IfAbsentView { stage: IfAbsentStage::Finished, ..old(self)@ }),
            final(ctx)@ == with_recorded(old(ctx)@, ContractCheckId::WriteIfAbsent, if_absent_capability(), outcome@),
            request@ == IfAbsentRequestView::Finish,
    {
        self.stage = IfAbsentStage::Finished;
        ctx.record_check(ContractCheckId::WriteIfAbsent, Some(FileSystemCapability::ConditionalWrite), outcome);
        IfAbsentRequest::Finish
    }

    /// Takes the answer to the pending request, records what the step
    /// names in the suite context, and returns the next request.
    pub fn advance(&mut self, ctx: &mut ContractContext, event: IfAbsentEvent) -> (request: IfAbsentRequest)
        requires
            if_absent_answers(old(self)@.stage, event@),
        ensures
            (final(self)@, final(ctx)@, request@) == if_absent_step(old(self)@, old(ctx)@, event@),
    {
        match self.stage {
            IfAbsentStage::ResolveRejected => match event {
                IfAbsentEvent::Resolved(Some(path)) => {
                    self.path = path;
                    self.stage = IfAbsentStage::Rejected;
                    IfAbsentRequest::OpenRejectedWriter { path: self.path.clone() }
                },
                _ => self.fail("conditional write path failed", true),
            },
            IfAbsentStage::Rejected => match event {
                IfAbsentEvent::OpenRejected(Some(error)) => {
                    let operation_ok = match error.operation {
                        OperationKind::OpenWriter => true,
                        _ => false,
                    };
                    let capability_ok = match error.required_capability {
                        Some(FileSystemCapability::ConditionalWrite) => true,
                        _ => false,
                    };
                    let exact = error.kind == ErrorKind::RequirementNotMet && operation_ok && text_is(
                        &error.path,
                        &self.path,
                    ) && text_is(&error.provider, &self.provider) && capability_ok;
                    if exact {
                        self.record(ctx, ContractCheckOutcome::RejectedAsExpected)
                    } else {
                        self.fail("conditional write error context differs", true)
                    }
                },
                _ => self.fail("unavailable conditional write succeeded", false),
            },
            IfAbsentStage::Prepare => match event {
                IfAbsentEvent::Prepared(IfAbsentPreparation::Skipped(reason)) => self.record(
                    ctx,
                    ContractCheckOutcome::Unverified { reason },
                ),
                IfAbsentEvent::Prepared(IfAbsentPreparation::Ready { path, bytes, if_absent, replaces }) => {
                    let same = holds_bytes(&Contents::Bytes(bytes), self.payload.as_slice());
                    if !same || !if_absent || !replaces {
                        return self.fail("fixture changed If-Absent request semantics", false);
                    }
                    ctx.record_created(path.clone());
                    self.path = path;
                    self.stage = IfAbsentStage::First;
                    IfAbsentRequest::WriteFile { path: self.path.clone(), bytes: self.payload.clone() }
                },
                _ => self.fail("If-Absent preparation failed", true),
            },
            IfAbsentStage::First => match event {
                IfAbsentEvent::Written(Ok(())) => {
                    self.stage = IfAbsentStage::ReadFirst;
                    IfAbsentRequest::Read { path: self.path.clone() }
                },
                _ => self.fail("conditional write first publication failed", true),
            },
            IfAbsentStage::ReadFirst => match event {
                IfAbsentEvent::Read(Contents::Failed) => self.fail(
                    "conditional write initial observation failed",
                    true,
                ),
                IfAbsentEvent::Read(contents) => if holds_bytes(&contents, self.payload.as_slice()) {
                    self.stage = IfAbsentStage::Retry;
                    IfAbsentRequest::WriteFile { path: self.path.clone(), bytes: self.unexpected.clone() }
                } else {
                    self.fail("conditional write first publication differs or evidence is unavailable", false)
                },
                _ => self.fail("conditional write initial observation failed", true),
            },
            IfAbsentStage::Retry => match event {
                IfAbsentEvent::Written(Err(error)) => {
                    let operation_ok = match error.operation {
                        OperationKind::OpenWriter | OperationKind::CommitWriter => true,
                        _ => false,
                    };
                    let exact = error.kind == ErrorKind::PreconditionFailed && operation_ok && text_is(
                        &error.path,
                        &self.path,
                    ) && text_is(&error.provider, &self.provider);
                    if exact {
                        self.stage = IfAbsentStage::ReadAfter;
                        IfAbsentRequest::Read { path: self.path.clone() }
                    } else {
                        self.fail("conditional write rejection differs", true)
                    }
                },
                _ => self.fail("conditional write replaced an existing target", false),
            },
            IfAbsentStage::ReadAfter => match event {
                IfAbsentEvent::Read(Contents::Failed) => self.fail(
                    "conditional write rejection observation failed",
                    true,
                ),
                IfAbsentEvent::Read(contents) => if holds_bytes(&contents, self.payload.as_slice()) {
                    self.record(ctx, ContractCheckOutcome::Passed)
                } else {
                    self.fail("conditional write rejection changed target bytes or evidence is unavailable", false)
                },
                _ => self.fail("conditional write rejection observation failed", true),
            },
            IfAbsentStage::Finished => IfAbsentRequest::Finish,
        }
    }
}

} // verus!
