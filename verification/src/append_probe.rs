//! Append evidence for the append check, as a step machine: an append to a
//! file with nonempty contents must keep them and add exactly the payload,
//! so an overwrite cannot pass as an append.
use vstd::prelude::*;
use vstd::string::StringSliceAdditionalSpecFns;

use crate::capability::FileSystemCapability;
use crate::contract_check_id::ContractCheckId;
use crate::contract_check_outcome::ContractCheckOutcome;
use crate::contract_check_outcome::OutcomeView;
use crate::contract_context::ContextView;
use crate::contract_context::ContractContext;
use crate::contract_context::begun;
use crate::contract_context::relative_in;
use crate::contract_context::with_created;
use crate::contract_context::with_recorded;
use crate::fs_facts::Contents;
use crate::fs_facts::ContentsView;
use crate::fs_facts::ErrorFacts;
use crate::fs_facts::ErrorFactsView;
use crate::fs_facts::ErrorKind;
use crate::fs_facts::OperationKind;
use crate::fs_facts::holds_bytes;
use crate::fs_facts::text_is;
use crate::fs_facts::text_of;
use crate::write_basic_probe::WriteAnswer;
use crate::write_basic_probe::WriteAnswerView;
use crate::write_basic_probe::bounded_payload;
use crate::write_basic_probe::payload_under;

verus! {

/// The next thing the driver does for the append check.
#[derive(Debug, PartialEq, Eq)]
pub enum AppendRequest {
    /// Resolve this fixture-relative name to a provider path.
    ResolvePath {
        /// The fixture-relative name.
        name: String,
    },
    /// Open an appending writer at `path`, which must be rejected.
    OpenRejectedWriter {
        /// The path.
        path: String,
    },
    /// Ask the fixture to prepare an append of `bytes` under this name.
    PrepareWrite {
        /// The fixture-relative name.
        name: String,
        /// The bytes to write.
        bytes: Vec<u8>,
    },
    /// Read the bytes at `path` out of band.
    Read {
        /// The path.
        path: String,
    },
    /// Open a writer at `path` with the prepared options, write `bytes`
    /// fully and commit.
    WriteFile {
        /// The path.
        path: String,
        /// The bytes to write.
        bytes: Vec<u8>,
    },
    /// The check was recorded.
    Finish,
    /// The check failed with `message`.
    Fail {
        /// The diagnostic.
        message: &'static str,
        /// Whether the error just answered is attached as the source.
        with_error: bool,
    },
}

/// The abstract form of an append request.
pub enum AppendRequestView {
    /// Resolve a name.
    ResolvePath { name: Seq<char> },
    /// Open an appending writer that must be rejected.
    OpenRejectedWriter { path: Seq<char> },
    /// Prepare an append.
    PrepareWrite { name: Seq<char>, bytes: Seq<u8> },
    /// Read a path.
    Read { path: Seq<char> },
    /// Write and commit.
    WriteFile { path: Seq<char>, bytes: Seq<u8> },
    /// The check was recorded.
    Finish,
    /// The check failed.
    Fail { message: Seq<char>, with_error: bool },
}

impl View for AppendRequest {
    type V = AppendRequestView;

    open spec fn view(&self) -> AppendRequestView {
        match self {
            AppendRequest::ResolvePath { name } => AppendRequestView::ResolvePath { name: name@ },
            AppendRequest::OpenRejectedWriter { path } => AppendRequestView::OpenRejectedWriter { path: path@ },
            AppendRequest::PrepareWrite { name, bytes } => AppendRequestView::PrepareWrite {
                name: name@,
                bytes: bytes@,
            },
            AppendRequest::Read { path } => AppendRequestView::Read { path: path@ },
            AppendRequest::WriteFile { path, bytes } => AppendRequestView::WriteFile { path: path@, bytes: bytes@ },
            AppendRequest::Finish => AppendRequestView::Finish,
            AppendRequest::Fail { message, with_error } => AppendRequestView::Fail {
                message: message@,
                with_error: *with_error,
            },
        }
    }
}

/// What the fixture's append preparation answered.
pub enum AppendPreparation {
    /// The preparation hook failed.
    Failed,
    /// The append cannot be prepared or does not apply, for this reason.
    Skipped(String),
    /// The append is ready.
    Ready {
        /// The path to write.
        path: String,
        /// The bytes the case writes.
        bytes: Vec<u8>,
        /// Whether the case's disposition is append.
        appends: bool,
    },
}

/// The answer to the pending append request.
pub enum AppendEvent {
    /// The resolved path, or `None` when the fixture could not map it.
    Resolved(Option<String>),
    /// The writer that had to be rejected: its error, or `None` when it
    /// opened.
    OpenRejected(Option<ErrorFacts>),
    /// The fixture's preparation answered.
    Prepared(AppendPreparation),
    /// A content observation answered.
    Read(Contents),
    /// Writing and committing answered.
    Written(WriteAnswer),
}

/// The abstract form of a preparation answer.
pub enum AppendPreparationView {
    /// The hook failed.
    Failed,
    /// Skipped, for this reason.
    Skipped(Seq<char>),
    /// Ready.
    Ready { path: Seq<char>, bytes: Seq<u8>, appends: bool },
}

/// The abstract form of an append answer.
pub enum AppendEventView {
    /// A resolved path.
    Resolved(Option<Seq<char>>),
    /// An open rejection, or `None` for an opened writer.
    OpenRejected(Option<ErrorFactsView>),
    /// A preparation answer.
    Prepared(AppendPreparationView),
    /// A content observation.
    Read(ContentsView),
    /// A write answer.
    Written(WriteAnswerView),
}

impl View for AppendEvent {
    type V = AppendEventView;

    open spec fn view(&self) -> AppendEventView {
        match self {
            AppendEvent::Resolved(path) => AppendEventView::Resolved(text_of(*path)),
            AppendEvent::OpenRejected(None) => AppendEventView::OpenRejected(None),
            AppendEvent::OpenRejected(Some(error)) => AppendEventView::OpenRejected(Some(error@)),
            AppendEvent::Prepared(AppendPreparation::Failed) => AppendEventView::Prepared(
                AppendPreparationView::Failed,
            ),
            AppendEvent::Prepared(AppendPreparation::Skipped(reason)) => AppendEventView::Prepared(
                AppendPreparationView::Skipped(reason@),
            ),
            AppendEvent::Prepared(AppendPreparation::Ready { path, bytes, appends }) => AppendEventView::Prepared(
                AppendPreparationView::Ready { path: path@, bytes: bytes@, appends: *appends },
            ),
            AppendEvent::Read(contents) => AppendEventView::Read(contents@),
            AppendEvent::Written(WriteAnswer::OpenFailed) => AppendEventView::Written(WriteAnswerView::OpenFailed),
            AppendEvent::Written(WriteAnswer::WriteFailed) => AppendEventView::Written(WriteAnswerView::WriteFailed),
            AppendEvent::Written(WriteAnswer::CommitFailed) => AppendEventView::Written(
                WriteAnswerView::CommitFailed,
            ),
            AppendEvent::Written(WriteAnswer::Committed(count)) => AppendEventView::Written(
                WriteAnswerView::Committed(*count),
            ),
        }
    }
}

/// The request the append check waits on.
#[derive(Clone, Copy, Debug, PartialEq, Eq, Structural)]
pub enum AppendStage {
    /// The path of an appending writer that must be rejected is being
    /// resolved.
    ResolveRejected,
    /// The appending writer that must be rejected is opening.
    Rejected,
    /// The fixture prepares the append.
    Prepare,
    /// The initial contents are read.
    Before,
    /// The payload is appended and committed.
    Write,
    /// The published contents are read.
    After,
    /// The check has finished.
    Finished,
}

/// The abstract state of the append check.
pub struct AppendView {
    /// The provider identity errors must report.
    pub provider: Seq<char>,
    /// The appended bytes.
    pub payload: Seq<u8>,
    /// The contents the file must hold after the append, once known.
    pub expected: Seq<u8>,
    /// The target path, once known.
    pub path: Seq<char>,
    /// The stage.
    pub stage: AppendStage,
}

/// Drives the append check.
pub struct AppendProbe {
    provider: String,
    payload: Vec<u8>,
    expected: Vec<u8>,
    path: String,
    stage: AppendStage,
}

impl View for AppendProbe {
    type V = AppendView;

    closed spec fn view(&self) -> AppendView {
        AppendView {
            provider: self.provider@,
            payload: self.payload@,
            expected: self.expected@,
            path: self.path@,
            stage: self.stage,
        }
    }
}

/// The capability the append check is recorded under.
pub open spec fn append_capability() -> Option<FileSystemCapability> {
    Some(FileSystemCapability::Append)
}

/// The start of the append check over the suite context: the append phase
/// begins; without append the rejected path is resolved, and otherwise an
/// append of the bounded payload is prepared.
pub open spec fn append_start(append: bool, limit: Option<u64>, provider: Seq<char>, ctx: ContextView) -> (
    AppendView,
    ContextView,
    AppendRequestView,
) {
    let ctx = begun(ctx, "append"@);
    let name = relative_in(ctx, "append-target"@);
    let payload = payload_under(limit, "-after".spec_bytes(), 97u8);
    let p = AppendView {
        provider,
        payload,
        expected: Seq::empty(),
        path: Seq::empty(),
        stage: AppendStage::Finished,
    };
    if !append {
        (AppendView { stage: AppendStage::ResolveRejected, ..p }, ctx, AppendRequestView::ResolvePath { name })
    } else {
        (
            AppendView { stage: AppendStage::Prepare, ..p },
            ctx,
            AppendRequestView::PrepareWrite { name, bytes: payload },
        )
    }
}

/// Whether an appending writer was refused exactly for lack of append: an
/// unmet requirement of the open-writer operation on the path, naming the
/// provider and append.
pub open spec fn append_refusal_exact(error: ErrorFactsView, path: Seq<char>, provider: Seq<char>) -> bool {
    &&& error.kind == ErrorKind::RequirementNotMet
    &&& error.operation == OperationKind::OpenWriter
    &&& error.path == Some(path)
    &&& error.provider == Some(provider)
    &&& error.required_capability == append_capability()
}

/// The kind of answer a stage waits for.
pub open spec fn append_answers(stage: AppendStage, event: AppendEventView) -> bool {
    match stage {
        AppendStage::ResolveRejected => event is Resolved,
        AppendStage::Rejected => event is OpenRejected,
        AppendStage::Prepare => event is Prepared,
        AppendStage::Before | AppendStage::After => event is Read,
        AppendStage::Write => event is Written,
        AppendStage::Finished => false,
    }
}

/// The transition of the append check at `p.stage` on `event`.
pub open spec fn append_step(p: AppendView, ctx: ContextView, event: AppendEventView) -> (
    AppendView,
    ContextView,
    AppendRequestView,
) {
    let done = AppendView { stage: AppendStage::Finished, ..p };
    let fail = |message: Seq<char>, with_error: bool| (done, ctx, AppendRequestView::Fail { message, with_error });
    let record = |outcome: OutcomeView| (
        done,
        with_recorded(ctx, ContractCheckId::AppendBasic, append_capability(), outcome),
        AppendRequestView::Finish,
    );
    match (p.stage, event) {
        (AppendStage::ResolveRejected, AppendEventView::Resolved(Some(path))) => (
            AppendView { path, stage: AppendStage::Rejected, ..p },
            ctx,
            AppendRequestView::OpenRejectedWriter { path },
        ),
        (AppendStage::ResolveRejected, _) => fail("append path preparation failed"@, true),
        (AppendStage::Rejected, AppendEventView::OpenRejected(Some(error))) => if append_refusal_exact(
            error,
            p.path,
            p.provider,
        ) {
            record(OutcomeView::RejectedAsExpected)
        } else {
            fail("append error context differs"@, true)
        },
        (AppendStage::Rejected, _) => fail("unavailable append request succeeded"@, false),
        (AppendStage::Prepare, AppendEventView::Prepared(AppendPreparationView::Skipped(reason))) => record(
            OutcomeView::Unverified { reason },
        ),
        (AppendStage::Prepare, AppendEventView::Prepared(AppendPreparationView::Ready { path, bytes, appends })) => {
            let ctx = with_created(ctx, path);
            let p = AppendView { path, ..p };
            if bytes != p.payload || !appends {
                (
                    AppendView { stage: AppendStage::Finished, ..p },
                    ctx,
                    AppendRequestView::Fail {
                        message: "append fixture changed request semantics"@,
                        with_error: false,
                    },
                )
            } else {
                (AppendView { stage: AppendStage::Before, ..p }, ctx, AppendRequestView::Read { path })
            }
        },
        (AppendStage::Prepare, _) => fail("append scenario preparation failed"@, true),
        (AppendStage::Before, AppendEventView::Read(ContentsView::Bytes(before))) => if before.len() > 0 {
            (
                AppendView { expected: before + p.payload, stage: AppendStage::Write, ..p },
                ctx,
                AppendRequestView::WriteFile { path: p.path, bytes: p.payload },
            )
        } else {
            fail("append fixture requires nonempty initial contents"@, false)
        },
        (AppendStage::Before, AppendEventView::Read(ContentsView::Unsupported)) => record(
            OutcomeView::Unverified { reason: "append initial content unavailable"@ },
        ),
        (AppendStage::Before, _) => fail("append initial observation failed"@, true),
        (AppendStage::Write, AppendEventView::Written(WriteAnswerView::Committed(count))) => if count is Some
            && count != Some(p.payload.len() as u64) {
            fail("append byte count must describe only the appended payload"@, false)
        } else {
            (AppendView { stage: AppendStage::After, ..p }, ctx, AppendRequestView::Read { path: p.path })
        },
        (AppendStage::Write, _) => fail("append publication failed"@, true),
        (AppendStage::After, AppendEventView::Read(ContentsView::Failed)) => fail(
            "append publication observation failed"@,
            true,
        ),
        (AppendStage::After, AppendEventView::Read(contents)) => if contents == ContentsView::Bytes(p.expected) {
            record(OutcomeView::Passed)
        } else {
            fail("append/basic: initial or appended bytes were not retained"@, false)
        },
        (_, _) => (p, ctx, AppendRequestView::Finish),
    }
}

/// The check after answering `events` in turn from `state`, stopping at the
/// first event that the pending stage does not wait for.
pub open spec fn append_trace(
    state: (AppendView, ContextView, AppendRequestView),
    events: Seq<AppendEventView>,
) -> (AppendView, ContextView, AppendRequestView)
    decreases events.len(),
{
    if events.len() == 0 || !append_answers(state.0.stage, events[0]) {
        state
    } else {
        append_trace(append_step(state.0, state.1, events[0]), events.drop_first())
    }
}

/// With append advertised, the append check reaches the final read only
/// after the whole scenario: the fixture prepared an append of exactly the
/// payload, the file held nonempty contents before, and the commit
/// reported no byte count or the payload's length. That read then passes
/// the check exactly when it returns the earlier contents followed by the
/// payload, so an overwrite fails it.
pub proof fn law_append_pass_needs_kept_contents(
    limit: Option<u64>,
    provider: Seq<char>,
    ctx: ContextView,
    events: Seq<AppendEventView>,
    last: ContentsView,
)
    requires
        append_trace(append_start(true, limit, provider, ctx), events).0.stage == AppendStage::After,
    ensures
        ({
            let reached = append_trace(append_start(true, limit, provider, ctx), events);
            let payload = reached.0.payload;
            let answered = append_step(reached.0, reached.1, AppendEventView::Read(last));
            &&& payload == payload_under(limit, "-after".spec_bytes(), 97u8)
            &&& events.len() >= 3
            &&& events[0] == AppendEventView::Prepared(
                AppendPreparationView::Ready { path: reached.0.path, bytes: payload, appends: true },
            )
            &&& events[1] matches AppendEventView::Read(ContentsView::Bytes(before)) && before.len() > 0
                && reached.0.expected == before + payload
            &&& events[2] matches AppendEventView::Written(WriteAnswerView::Committed(count)) && (count is None
                || count == Some(payload.len() as u64))
            &&& (answered.2 is Finish <==> last == ContentsView::Bytes(reached.0.expected))
            &&& answered.2 is Finish ==> answered.1 == with_recorded(
                reached.1,
                ContractCheckId::AppendBasic,
                append_capability(),
                OutcomeView::Passed,
            )
            &&& !(answered.2 is Finish) ==> answered.2 is Fail
        }),
{
    reveal_with_fuel(append_trace, 5);
    let start = append_start(true, limit, provider, ctx);
    assert(events.len() >= 1 && append_answers(start.0.stage, events[0]));
    let s1 = append_step(start.0, start.1, events[0]);
    assert(s1.0.stage == AppendStage::Before);
    let e1 = events.drop_first();
    assert(e1.len() >= 1 && e1[0] == events[1]);
    let s2 = append_step(s1.0, s1.1, events[1]);
    assert(s2.0.stage == AppendStage::Write);
    let e2 = e1.drop_first();
    assert(e2.len() >= 1 && e2[0] == events[2]);
}

impl AppendProbe {
    /// Starts the append check in the suite context, given whether append
    /// is advertised, the declared largest write and the provider identity;
    /// returns the probe with its first request.
    pub fn new(ctx: &mut ContractContext, append: bool, limit: Option<u64>, provider: String) -> (started: (
        AppendProbe,
        AppendRequest,
    ))
        ensures
            (started.0@, final(ctx)@, started.1@) == append_start(append, limit, provider@, old(ctx)@),
    {
        ctx.begin("append");
        let name = ctx.relative_name("append-target");
        let payload = bounded_payload(limit, "-after".as_bytes(), 97u8);
        let mut probe = AppendProbe {
            provider,
            payload,
            expected: Vec::new(),
            path: String::new(),
            stage: AppendStage::Finished,
        };
        if !append {
            probe.stage = AppendStage::ResolveRejected;
            return (probe, AppendRequest::ResolvePath { name });
        }
        probe.stage = AppendStage::Prepare;
        let bytes = probe.payload.clone();
        (probe, AppendRequest::PrepareWrite { name, bytes })
    }

    /// Returns the request the check waits on.
    pub fn stage(&self) -> (stage: AppendStage)
        ensures
            stage == self@.stage,
    {
        self.stage
    }

    /// Returns whether `event` is the kind of answer the check waits for.
    pub fn expects(&self, event: &AppendEvent) -> (answered: bool)
        ensures
            answered == append_answers(self@.stage, event@),
    {
        match self.stage {
            AppendStage::ResolveRejected => matches!(event, AppendEvent::Resolved(_)),
            AppendStage::Rejected => matches!(event, AppendEvent::OpenRejected(_)),
            AppendStage::Prepare => matches!(event, AppendEvent::Prepared(_)),
            AppendStage::Before | AppendStage::After => matches!(event, AppendEvent::Read(_)),
            AppendStage::Write => matches!(event, AppendEvent::Written(_)),
            AppendStage::Finished => false,
        }
    }

    /// Ends the check with the failure `message`.
    fn fail(&mut self, message: &'static str, with_error: bool) -> (request: AppendRequest)
        ensures
            final(self)@ == (AppendView { stage: AppendStage::Finished, ..old(self)@ }),
            request@ == (AppendRequestView::Fail { message: message@, with_error }),
    {
        self.stage = AppendStage::Finished;
        AppendRequest::Fail { message, with_error }
    }

    /// Ends the check by recording `outcome`.
    fn record(&mut self, ctx: &mut ContractContext, outcome: ContractCheckOutcome) -> (request: AppendRequest)
        ensures
            final(self)@ == (AppendView { stage: AppendStage::Finished, ..old(self)@ }),
            final(ctx)@ == with_recorded(old(ctx)@, ContractCheckId::AppendBasic, append_capability(), outcome@),
            request@ == AppendRequestView::Finish,
    {
        self.stage = AppendStage::Finished;
        ctx.record_check(ContractCheckId::AppendBasic, Some(FileSystemCapability::Append), outcome);
        AppendRequest::Finish
    }

    /// Takes the answer to the pending request, records what the step
    /// names in the suite context, and returns the next request.
    pub fn advance(&mut self, ctx: &mut ContractContext, event: AppendEvent) -> (request: AppendRequest)
        requires
            append_answers(old(self)@.stage, event@),
        ensures
            (final(self)@, final(ctx)@, request@) == append_step(old(self)@, old(ctx)@, event@),
    {
        match self.stage {
            AppendStage::ResolveRejected => match event {
                AppendEvent::Resolved(Some(path)) => {
                    self.path = path;
                    self.stage = AppendStage::Rejected;
                    AppendRequest::OpenRejectedWriter { path: self.path.clone() }
                },
                _ => self.fail("append path preparation failed", true),
            },
            AppendStage::Rejected => match event {
                AppendEvent::OpenRejected(Some(error)) => {
                    let operation_ok = match error.operation {
                        OperationKind::OpenWriter => true,
                        _ => false,
                    };
                    let capability_ok = match error.required_capability {
                        Some(FileSystemCapability::Append) => true,
                        _ => false,
                    };
                    let exact = error.kind == ErrorKind::RequirementNotMet && operation_ok && text_is(
                        &error.path,
                        &self.path,
                    ) && text_is(&error.provider, &self.provider) && capability_ok;
                    if exact {
                        self.record(ctx, ContractCheckOutcome::RejectedAsExpected)
                    } else {
                        self.fail("append error context differs", true)
                    }
                },
                _ => self.fail("unavailable append request succeeded", false),
            },
            AppendStage::Prepare => match event {
                AppendEvent::Prepared(AppendPreparation::Skipped(reason)) => self.record(
                    ctx,
                    ContractCheckOutcome::Unverified { reason },
                ),
                AppendEvent::Prepared(AppendPreparation::Ready { path, bytes, appends }) => {
                    ctx.record_created(path.clone());
                    self.path = path;
                    let same = holds_bytes(&Contents::Bytes(bytes), self.payload.as_slice());
                    if !same || !appends {
                        return self.fail("append fixture changed request semantics", false);
                    }
                    self.stage = AppendStage::Before;
                    AppendRequest::Read { path: self.path.clone() }
                },
                _ => self.fail("append scenario preparation failed", true),
            },
            AppendStage::Before => match event {
                AppendEvent::Read(Contents::Bytes(before)) => if before.len() > 0 {
                    let mut expected = before;
                    let mut tail = self.payload.clone();
                    expected.append(&mut tail);
                    self.expected = expected;
                    self.stage = AppendStage::Write;
                    AppendRequest::WriteFile { path: self.path.clone(), bytes: self.payload.clone() }
                } else {
                    self.fail("append fixture requires nonempty initial contents", false)
                },
                AppendEvent::Read(Contents::Unsupported) => self.record(
                    ctx,
                    ContractCheckOutcome::Unverified {
                        reason: String::from_str("append initial content unavailable"),
                    },
                ),
                _ => self.fail("append initial observation failed", true),
            },
            AppendStage::Write => match event {
                AppendEvent::Written(WriteAnswer::Committed(count)) => {
                    let mismatch = match count {
                        Some(count) => count != self.payload.len() as u64,
                        None => false,
                    };
                    if mismatch {
                        self.fail("append byte count must describe only the appended payload", false)
                    } else {
                        self.stage = AppendStage::After;
                        AppendRequest::Read { path: self.path.clone() }
                    }
                },
                _ => self.fail("append publication failed", true),
            },
            AppendStage::After => match event {
                AppendEvent::Read(Contents::Failed) => self.fail("append publication observation failed", true),
                AppendEvent::Read(contents) => if holds_bytes(&contents, self.expected.as_slice()) {
                    self.record(ctx, ContractCheckOutcome::Passed)
                } else {
                    self.fail("append/basic: initial or appended bytes were not retained", false)
                },
                _ => self.fail("append publication observation failed", true),
            },
            AppendStage::Finished => AppendRequest::Finish,
        }
    }
}

} // verus!
