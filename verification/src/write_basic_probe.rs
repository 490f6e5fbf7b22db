//! Creation evidence for the basic write check, as a step machine: the
//! driver performs each request against the file system under test and
//! hands the answer back.
use vstd::prelude::*;
use vstd::string::StringSliceAdditionalSpecFns;

use crate::capability::FileSystemCapability;
use crate::contract_check_id::ContractCheckId;
use crate::contract_check_outcome::ContractCheckOutcome;
use crate::contract_check_outcome::OutcomeView;
use crate::contract_context::ContextView;
use crate::contract_context::ContractContext;
use crate::contract_context::begun;
use crate::contract_context::relative_in;
use crate::contract_context::with_created;
use crate::contract_context::with_recorded;
use crate::fs_facts::Contents;
use crate::fs_facts::ContentsView;
use crate::fs_facts::ErrorFactsView;
use crate::fs_facts::ErrorKind;
use crate::fs_facts::OpenRejection;
use crate::fs_facts::OpenStage;
use crate::fs_facts::OperationKind;
use crate::fs_facts::text_is;
use crate::fs_facts::text_of;

verus! {

/// The payload a write check sends under a declared write limit: the
/// preferred bytes when they fit, and otherwise as many `fill` bytes as the
/// limit allows.
pub open spec fn payload_under(limit: Option<u64>, preferred: Seq<u8>, fill: u8) -> Seq<u8> {
    let length: int = match limit {
        Some(maximum) => if maximum < preferred.len() {
            maximum as int
        } else {
            preferred.len() as int
        },
        None => preferred.len() as int,
    };
    if length == preferred.len() {
        preferred
    } else {
        Seq::new(length as nat, |i: int| fill)
    }
}

/// Selects a write payload that fits the declared provider limit.
pub fn bounded_payload(limit: Option<u64>, preferred: &[u8], fill: u8) -> (payload: Vec<u8>)
    ensures
        payload@ == payload_under(limit, preferred@, fill),
{
    let length: usize = match limit {
        Some(maximum) => if maximum < preferred.len() as u64 {
            maximum as usize
        } else {
            preferred.len()
        },
        None => preferred.len(),
    };
    if length == preferred.len() {
        let mut copy: Vec<u8> = Vec::new();
        let mut index: usize = 0;
        while index < preferred.len()
            invariant
                index <= preferred.len(),
                copy@ == preferred@.subrange(0, index as int),
            decreases preferred.len() - index,
        {
            copy.push(preferred[index]);
            index = index + 1;
        }
        assert(copy@ =~= preferred@);
        copy
    } else {
        let mut filled: Vec<u8> = Vec::new();
        while filled.len() < length
            invariant
                filled.len() <= length,
                forall|i: int| 0 <= i < filled.len() ==> filled@[i] == fill,
            decreases length - filled.len(),
        {
            filled.push(fill);
        }
        assert(filled@ =~= Seq::new(length as nat, |i: int| fill));
        filled
    }
}

/// The next thing the driver does for the basic write check.
#[derive(Debug, PartialEq, Eq)]
pub enum WriteRequest {
    /// Resolve this fixture-relative name to a provider path.
    ResolvePath {
        /// The fixture-relative name.
        name: String,
    },
    /// Open a writer at `path` with default options, which must be
    /// rejected.
    OpenRejectedWriter {
        /// The path.
        path: String,
    },
    /// Ask the fixture to prepare a creation of `bytes` under this name.
    PrepareWrite {
        /// The fixture-relative name.
        name: String,
        /// The bytes to write.
        bytes: Vec<u8>,
    },
    /// Open a writer at `path` with the prepared options, write `bytes`
    /// fully and commit.
    WriteFile {
        /// The path.
        path: String,
        /// The bytes to write.
        bytes: Vec<u8>,
    },
    /// Read the bytes at `path` out of band.
    Read {
        /// The path.
        path: String,
    },
    /// The check was recorded.
    Finish,
    /// The check failed with `message`.
    Fail {
        /// The diagnostic.
        message: &'static str,
        /// Whether the error just answered is attached as the source.
        with_error: bool,
    },
}

/// The abstract form of a basic write request.
pub enum WriteRequestView {
    /// Resolve a name.
    ResolvePath { name: Seq<char> },
    /// Open a writer that must be rejected.
    OpenRejectedWriter { path: Seq<char> },
    /// Prepare a creation.
    PrepareWrite { name: Seq<char>, bytes: Seq<u8> },
    /// Write and commit.
    WriteFile { path: Seq<char>, bytes: Seq<u8> },
    /// Read a path.
    Read { path: Seq<char> },
    /// The check was recorded.
    Finish,
    /// The check failed.
    Fail { message: Seq<char>, with_error: bool },
}

impl View for WriteRequest {
    type V = WriteRequestView;

    open spec fn view(&self) -> WriteRequestView {
        match self {
            WriteRequest::ResolvePath { name } => WriteRequestView::ResolvePath { name: name@ },
            WriteRequest::OpenRejectedWriter { path } => WriteRequestView::OpenRejectedWriter { path: path@ },
            WriteRequest::PrepareWrite { name, bytes } => WriteRequestView::PrepareWrite { name: name@, bytes: bytes@ },
            WriteRequest::WriteFile { path, bytes } => WriteRequestView::WriteFile { path: path@, bytes: bytes@ },
            WriteRequest::Read { path } => WriteRequestView::Read { path: path@ },
            WriteRequest::Finish => WriteRequestView::Finish,
            WriteRequest::Fail { message, with_error } => WriteRequestView::Fail {
                message: message@,
                with_error: *with_error,
            },
        }
    }
}

/// What the fixture's write preparation answered.
pub enum WritePreparation {
    /// The preparation hook failed.
    Failed,
    /// The fixture cannot prepare the creation, for this reason.
    Unavailable(String),
    /// The creation does not apply to the fixture, for this reason.
    NotApplicable(String),
    /// The creation is ready.
    Ready {
        /// The path to write.
        path: String,
        /// The bytes the case writes.
        bytes: Vec<u8>,
        /// Whether the case's disposition creates the file (create-new or
        /// create-or-replace).
        creates: bool,
    },
}

/// How writing and committing ended.
pub enum WriteAnswer {
    /// The writer could not be opened.
    OpenFailed,
    /// The writer rejected the bytes.
    WriteFailed,
    /// The commit failed.
    CommitFailed,
    /// The commit succeeded, reporting this many bytes when it says.
    Committed(Option<u64>),
}

/// The answer to the pending basic write request.
pub enum WriteEvent {
    /// The resolved path, or `None` when the fixture could not map it.
    Resolved(Option<String>),
    /// The writer that had to be rejected: its rejection, or `None` when it
    /// opened.
    OpenRejected(Option<OpenRejection>),
    /// The fixture's preparation answered.
    Prepared(WritePreparation),
    /// Writing and committing answered.
    Written(WriteAnswer),
    /// A content observation answered.
    Read(Contents),
}

/// The abstract form of a preparation answer.
pub enum WritePreparationView {
    /// The hook failed.
    Failed,
    /// The creation cannot be prepared or does not apply, for this reason.
    Skipped(Seq<char>),
    /// The creation is ready.
    Ready { path: Seq<char>, bytes: Seq<u8>, creates: bool },
}

/// The abstract form of how writing ended.
pub enum WriteAnswerView {
    /// Opening failed.
    OpenFailed,
    /// Writing failed.
    WriteFailed,
    /// Committing failed.
    CommitFailed,
    /// Committed.
    Committed(Option<u64>),
}

/// The abstract form of a basic write answer.
pub enum WriteEventView {
    /// A resolved path.
    Resolved(Option<Seq<char>>),
    /// An open rejection, or `None` for an opened writer.
    OpenRejected(Option<(ErrorFactsView, OpenStage, bool)>),
    /// A preparation answer.
    Prepared(WritePreparationView),
    /// A write answer.
    Written(WriteAnswerView),
    /// A content observation.
    Read(ContentsView),
}

impl View for WriteEvent {
    type V = WriteEventView;

    open spec fn view(&self) -> WriteEventView {
        match self {
            WriteEvent::Resolved(path) => WriteEventView::Resolved(text_of(*path)),
            WriteEvent::OpenRejected(None) => WriteEventView::OpenRejected(None),
            WriteEvent::OpenRejected(Some(rejection)) => WriteEventView::OpenRejected(
                Some((rejection.error@, rejection.stage, rejection.recovery)),
            ),
            WriteEvent::Prepared(WritePreparation::Failed) => WriteEventView::Prepared(WritePreparationView::Failed),
            WriteEvent::Prepared(WritePreparation::Unavailable(reason)) => WriteEventView::Prepared(
                WritePreparationView::Skipped(reason@),
            ),
            WriteEvent::Prepared(WritePreparation::NotApplicable(reason)) => WriteEventView::Prepared(
                WritePreparationView::Skipped(reason@),
            ),
            WriteEvent::Prepared(WritePreparation::Ready { path, bytes, creates }) => WriteEventView::Prepared(
                WritePreparationView::Ready { path: path@, bytes: bytes@, creates: *creates },
            ),
            WriteEvent::Written(WriteAnswer::OpenFailed) => WriteEventView::Written(WriteAnswerView::OpenFailed),
            WriteEvent::Written(WriteAnswer::WriteFailed) => WriteEventView::Written(WriteAnswerView::WriteFailed),
            WriteEvent::Written(WriteAnswer::CommitFailed) => WriteEventView::Written(WriteAnswerView::CommitFailed),
            WriteEvent::Written(WriteAnswer::Committed(count)) => WriteEventView::Written(
                WriteAnswerView::Committed(*count),
            ),
            WriteEvent::Read(contents) => WriteEventView::Read(contents@),
        }
    }
}

/// The request the basic write check waits on.
#[derive(Clone, Copy, Debug, PartialEq, Eq, Structural)]
pub enum WriteStage {
    /// The path of a writer that must be rejected is being resolved.
    ResolveRejected,
    /// The writer that must be rejected is opening.
    Rejected,
    /// The fixture prepares the creation.
    Prepare,
    /// The payload is written and committed.
    Write,
    /// The published file is read.
    Read,
    /// The check has finished.
    Finished,
}

/// The abstract state of the basic write check.
pub struct WriteView {
    /// The provider identity errors must report.
    pub provider: Seq<char>,
    /// The payload.
    pub payload: Seq<u8>,
    /// The target path, once known.
    pub path: Seq<char>,
    /// The stage.
    pub stage: WriteStage,
}

/// Drives the basic write check: without write, opening a writer must be
/// rejected at preflight with exact context; with it, an independently
/// prepared creation must publish exactly the payload.
pub struct WriteBasicProbe {
    provider: String,
    payload: Vec<u8>,
    path: String,
    stage: WriteStage,
}

impl View for WriteBasicProbe {
    type V = WriteView;

    closed spec fn view(&self) -> WriteView {
        WriteView { provider: self.provider@, payload: self.payload@, path: self.path@, stage: self.stage }
    }
}

/// The payload the basic write check prefers.
pub open spec fn preferred_write_bytes() -> Seq<u8> {
    "async written".spec_bytes()
}

/// The start of the basic write check over the suite context: the phase
/// begins; without write the rejected path is resolved, and otherwise a
/// creation of the bounded payload is prepared.
pub open spec fn write_start(write: bool, limit: Option<u64>, provider: Seq<char>, ctx: ContextView) -> (
    WriteView,
    ContextView,
    WriteRequestView,
) {
    let ctx = begun(ctx, ContractCheckId::WriteBasic.stable_name());
    let payload = payload_under(limit, preferred_write_bytes(), 97u8);
    let p = WriteView { provider, payload, path: Seq::empty(), stage: WriteStage::Finished };
    if !write {
        (
            WriteView { stage: WriteStage::ResolveRejected, ..p },
            ctx,
            WriteRequestView::ResolvePath { name: relative_in(ctx, "write-unavailable"@) },
        )
    } else {
        (
            WriteView { stage: WriteStage::Prepare, ..p },
            ctx,
            WriteRequestView::PrepareWrite { name: relative_in(ctx, "write-create"@), bytes: payload },
        )
    }
}

/// The kind of answer a stage waits for.
pub open spec fn write_answers(stage: WriteStage, event: WriteEventView) -> bool {
    match stage {
        WriteStage::ResolveRejected => event is Resolved,
        WriteStage::Rejected => event is OpenRejected,
        WriteStage::Prepare => event is Prepared,
        WriteStage::Write => event is Written,
        WriteStage::Read => event is Read,
        WriteStage::Finished => false,
    }
}

/// Whether an open rejection is exactly the preflight refusal of a writer
/// for lack of write: no recovery handle, an unsupported capability of the
/// open-writer operation on the path, naming the provider and write.
pub open spec fn open_refusal_exact(
    error: ErrorFactsView,
    stage: OpenStage,
    recovery: bool,
    path: Seq<char>,
    provider: Seq<char>,
) -> bool {
    &&& !recovery
    &&& stage == OpenStage::Preflight
    &&& error.kind == ErrorKind::UnsupportedCapability
    &&& error.operation == OperationKind::OpenWriter
    &&& error.path == Some(path)
    &&& error.provider == Some(provider)
    &&& error.required_capability == Some(FileSystemCapability::Write)
}

/// The transition of the basic write check at `p.stage` on `event`.
pub open spec fn write_step(p: WriteView, ctx: ContextView, event: WriteEventView) -> (
    WriteView,
    ContextView,
    WriteRequestView,
) {
    let done = WriteView { stage: WriteStage::Finished, ..p };
    let fail = |message: Seq<char>, with_error: bool| (done, ctx, WriteRequestView::Fail { message, with_error });
    let record = |outcome: OutcomeView| (
        done,
        with_recorded(ctx, ContractCheckId::WriteBasic, Some(FileSystemCapability::Write), outcome),
        WriteRequestView::Finish,
    );
    match (p.stage, event) {
        (WriteStage::ResolveRejected, WriteEventView::Resolved(Some(path))) => (
            WriteView { path, stage: WriteStage::Rejected, ..p },
            ctx,
            WriteRequestView::OpenRejectedWriter { path },
        ),
        (WriteStage::ResolveRejected, _) => fail("write/basic: path preparation failed"@, true),
        (WriteStage::Rejected, WriteEventView::OpenRejected(Some((error, stage, recovery)))) => if open_refusal_exact(
            error,
            stage,
            recovery,
            p.path,
            p.provider,
        ) {
            record(OutcomeView::RejectedAsExpected)
        } else {
            fail("write/basic: writer open rejection context differs"@, true)
        },
        (WriteStage::Rejected, _) => fail("write/basic: unavailable writer opened"@, false),
        (WriteStage::Prepare, WriteEventView::Prepared(WritePreparationView::Skipped(reason))) => record(
            OutcomeView::Unverified { reason: "declared Write requires a positive scenario: "@ + reason },
        ),
        (WriteStage::Prepare, WriteEventView::Prepared(WritePreparationView::Ready { path, bytes, creates })) => if bytes
            != p.payload || !creates {
            fail("write/basic: fixture changed the requested creation semantics"@, false)
        } else {
            (
                WriteView { path, stage: WriteStage::Write, ..p },
                with_created(ctx, path),
                WriteRequestView::WriteFile { path, bytes: p.payload },
            )
        },
        (WriteStage::Prepare, _) => fail("write/basic: scenario preparation failed"@, true),
        (WriteStage::Write, WriteEventView::Written(WriteAnswerView::Committed(count))) => if count is Some && count
            != Some(p.payload.len() as u64) {
            fail("write/basic: published byte count mismatch"@, false)
        } else {
            (WriteView { stage: WriteStage::Read, ..p }, ctx, WriteRequestView::Read { path: p.path })
        },
        (WriteStage::Write, WriteEventView::Written(WriteAnswerView::OpenFailed)) => fail(
            "write/basic: write contract: writer open failed"@,
            true,
        ),
        (WriteStage::Write, WriteEventView::Written(WriteAnswerView::WriteFailed)) => fail(
            "write/basic: write contract: writer rejected bytes"@,
            true,
        ),
        (WriteStage::Write, _) => fail("write/basic: write contract: writer commit failed"@, true),
        (WriteStage::Read, WriteEventView::Read(ContentsView::Bytes(bytes))) => if bytes == p.payload {
            record(OutcomeView::Passed)
        } else {
            fail("write/basic: writer contract: write was not published"@, false)
        },
        (WriteStage::Read, WriteEventView::Read(ContentsView::Unsupported)) => fail(
            "write/basic: fixture.read_file support is required"@,
            false,
        ),
        (WriteStage::Read, _) => fail("write/basic: fixture observation failed"@, true),
        (_, _) => (p, ctx, WriteRequestView::Finish),
    }
}

/// The basic write check records a pass only when the published file holds
/// exactly the payload, writes only the payload it chose under the limit,
/// and records an expected rejection only for an exact preflight refusal.
pub proof fn law_write_passes_only_on_published_payload(p: WriteView, ctx: ContextView, event: WriteEventView)
    requires
        write_answers(p.stage, event),
    ensures
        p.stage == WriteStage::Read && write_step(p, ctx, event).2 is Finish ==> event == WriteEventView::Read(
            ContentsView::Bytes(p.payload),
        ) && write_step(p, ctx, event).1 == with_recorded(
            ctx,
            ContractCheckId::WriteBasic,
            Some(FileSystemCapability::Write),
            OutcomeView::Passed,
        ),
        write_step(p, ctx, event).2 matches WriteRequestView::WriteFile { bytes, .. } ==> bytes == p.payload,
        p.stage == WriteStage::Rejected && write_step(p, ctx, event).2 is Finish ==> (
        event matches WriteEventView::OpenRejected(Some((error, stage, recovery))) && open_refusal_exact(
            error,
            stage,
            recovery,
            p.path,
            p.provider,
        )),
{
}

/// The check after answering `events` in turn from `state`, stopping at the
/// first event that the pending stage does not wait for.
pub open spec fn write_trace(state: (WriteView, ContextView, WriteRequestView), events: Seq<WriteEventView>) -> (
    WriteView,
    ContextView,
    WriteRequestView,
)
    decreases events.len(),
{
    if events.len() == 0 || !write_answers(state.0.stage, events[0]) {
        state
    } else {
        write_trace(write_step(state.0, state.1, events[0]), events.drop_first())
    }
}

/// With write advertised, the basic write check reaches the read of the
/// published file only after the whole scenario: the fixture prepared a
/// creation of exactly the payload at the path that is then read, and the
/// commit reported no byte count or the payload's length. That read then
/// finishes the check, recording a pass, exactly when it returns the
/// payload; any other read fails it.
pub proof fn law_write_pass_needs_full_evidence(
    limit: Option<u64>,
    provider: Seq<char>,
    ctx: ContextView,
    events: Seq<WriteEventView>,
    last: ContentsView,
)
    requires
        write_trace(write_start(true, limit, provider, ctx), events).0.stage == WriteStage::Read,
    ensures
        ({
            let payload = payload_under(limit, preferred_write_bytes(), 97u8);
            let reached = write_trace(write_start(true, limit, provider, ctx), events);
            let answered = write_step(reached.0, reached.1, WriteEventView::Read(last));
            &&& events.len() >= 2
            &&& events[0] matches WriteEventView::Prepared(WritePreparationView::Ready { path, bytes, creates })
                && path == reached.0.path && bytes == payload && creates
            &&& events[1] matches WriteEventView::Written(WriteAnswerView::Committed(count)) && (count is None
                || count == Some(payload.len() as u64))
            &&& (answered.2 is Finish <==> last == ContentsView::Bytes(payload))
            &&& answered.2 is Finish ==> answered.1 == with_recorded(
                reached.1,
                ContractCheckId::WriteBasic,
                Some(FileSystemCapability::Write),
                OutcomeView::Passed,
            )
            &&& !(answered.2 is Finish) ==> answered.2 is Fail
        }),
{
    reveal_with_fuel(write_trace, 4);
    let start = write_start(true, limit, provider, ctx);
    assert(events.len() >= 1 && write_answers(start.0.stage, events[0]));
    let first = write_step(start.0, start.1, events[0]);
    assert(write_trace(start, events) == write_trace(first, events.drop_first()));
    assert(first.0.stage == WriteStage::Write);
    assert(events.drop_first().len() >= 1);
    assert(events.drop_first()[0] == events[1]);
}

impl WriteBasicProbe {
    /// Starts the basic write check in the suite context, given whether
    /// write is advertised, the declared largest write, and the provider
    /// identity; returns the probe with its first request.
    pub fn new(ctx: &mut ContractContext, write: bool, limit: Option<u64>, provider: String) -> (started: (
        WriteBasicProbe,
        WriteRequest,
    ))
        ensures
            (started.0@, final(ctx)@, started.1@) == write_start(write, limit, provider@, old(ctx)@),
    {
        ctx.begin(ContractCheckId::WriteBasic.as_str());
        let payload = bounded_payload(limit, "async written".as_bytes(), 97u8);
        let mut probe = WriteBasicProbe { provider, payload, path: String::new(), stage: WriteStage::Finished };
        if !write {
            probe.stage = WriteStage::ResolveRejected;
            let name = ctx.relative_name("write-unavailable");
            (probe, WriteRequest::ResolvePath { name })
        } else {
            probe.stage = WriteStage::Prepare;
            let name = ctx.relative_name("write-create");
            let bytes = probe.payload.clone();
            (probe, WriteRequest::PrepareWrite { name, bytes })
        }
    }

    /// Returns the stage the check waits in.
    pub fn stage(&self) -> (stage: WriteStage)
        ensures
            stage == self@.stage,
    {
        self.stage
    }

    /// Returns whether `event` answers the request the check waits on.
    pub fn expects(&self, event: &WriteEvent) -> (answered: bool)
        ensures
            answered == write_answers(self@.stage, event@),
    {
        match self.stage {
            WriteStage::ResolveRejected => matches!(event, WriteEvent::Resolved(_)),
            WriteStage::Rejected => matches!(event, WriteEvent::OpenRejected(_)),
            WriteStage::Prepare => matches!(event, WriteEvent::Prepared(_)),
            WriteStage::Write => matches!(event, WriteEvent::Written(_)),
            WriteStage::Read => matches!(event, WriteEvent::Read(_)),
            WriteStage::Finished => false,
        }
    }

    /// Ends the check with the failure `message`.
    fn fail(&mut self, message: &'static str, with_error: bool) -> (request: WriteRequest)
        ensures
            final(self)@ == (WriteView { stage: WriteStage::Finished, ..old(self)@ }),
            request@ == (WriteRequestView::Fail { message: message@, with_error }),
    {
        self.stage = WriteStage::Finished;
        WriteRequest::Fail { message, with_error }
    }

    /// Ends the check by recording `outcome`.
    fn record(&mut self, ctx: &mut ContractContext, outcome: ContractCheckOutcome) -> (request: WriteRequest)
        ensures
            final(self)@ == (WriteView { stage: WriteStage::Finished, ..old(self)@ }),
            final(ctx)@ == with_recorded(
                old(ctx)@,
                ContractCheckId::WriteBasic,
                Some(FileSystemCapability::Write),
                outcome@,
            ),
            request@ == WriteRequestView::Finish,
    {
        self.stage = WriteStage::Finished;
        ctx.record_check(ContractCheckId::WriteBasic, Some(FileSystemCapability::Write), outcome);
        WriteRequest::Finish
    }

    /// Returns whether two byte sequences are equal.
    fn same_bytes(left: &Vec<u8>, right: &Vec<u8>) -> (same: bool)
        ensures
            same == (left@ == right@),
    {
        if left.len() != right.len() {
            return false;
        }
        let mut index: usize = 0;
        while index < left.len()
            invariant
                left.len() == right.len(),
                index <= left.len(),
                forall|j: int| 0 <= j < index ==> left@[j] == right@[j],
            decreases left.len() - index,
        {
            if left[index] != right[index] {
                assert(left@[index as int] != right@[index as int]);
                return false;
            }
            index = index + 1;
        }
        assert(left@ =~= right@);
        true
    }

    /// Takes the answer to the pending request, records what the step
    /// names in the suite context, and returns the next request.
    pub fn advance(&mut self, ctx: &mut ContractContext, event: WriteEvent) -> (request: WriteRequest)
        requires
            write_answers(old(self)@.stage, event@),
        ensures
            (final(self)@, final(ctx)@, request@) == write_step(old(self)@, old(ctx)@, event@),
    {
        match self.stage {
            WriteStage::ResolveRejected => match event {
                WriteEvent::Resolved(Some(path)) => {
                    self.path = path;
                    self.stage = WriteStage::Rejected;
                    WriteRequest::OpenRejectedWriter { path: self.path.clone() }
                },
                _ => self.fail("write/basic: path preparation failed", true),
            },
            WriteStage::Rejected => match event {
                WriteEvent::OpenRejected(Some(rejection)) => {
                    let operation_ok = match rejection.error.operation {
                        OperationKind::OpenWriter => true,
                        _ => false,
                    };
                    let stage_ok = match rejection.stage {
                        OpenStage::Preflight => true,
                        _ => false,
                    };
                    let capability_ok = match rejection.error.required_capability {
                        Some(FileSystemCapability::Write) => true,
                        _ => false,
                    };
                    let exact = !rejection.recovery && stage_ok && rejection.error.kind
                        == ErrorKind::UnsupportedCapability && operation_ok && text_is(
                        &rejection.error.path,
                        &self.path,
                    ) && text_is(&rejection.error.provider, &self.provider) && capability_ok;
                    if exact {
                        self.record(ctx, ContractCheckOutcome::RejectedAsExpected)
                    } else {
                        self.fail("write/basic: writer open rejection context differs", true)
                    }
                },
                _ => self.fail("write/basic: unavailable writer opened", false),
            },
            WriteStage::Prepare => match event {
                WriteEvent::Prepared(WritePreparation::Unavailable(reason))
                | WriteEvent::Prepared(WritePreparation::NotApplicable(reason)) => {
                    let mut text = String::from_str("declared Write requires a positive scenario: ");
                    text.append(reason.as_str());
                    self.record(ctx, ContractCheckOutcome::Unverified { reason: text })
                },
                WriteEvent::Prepared(WritePreparation::Ready { path, bytes, creates }) => {
                    if !Self::same_bytes(&bytes, &self.payload) || !creates {
                        return self.fail("write/basic: fixture changed the requested creation semantics", false);
                    }
                    ctx.record_created(path.clone());
                    self.path = path;
                    self.stage = WriteStage::Write;
                    WriteRequest::WriteFile { path: self.path.clone(), bytes: self.payload.clone() }
                },
                _ => self.fail("write/basic: scenario preparation failed", true),
            },
            WriteStage::Write => match event {
                WriteEvent::Written(WriteAnswer::Committed(count)) => {
                    let mismatch = match count {
                        Some(count) => count != self.payload.len() as u64,
                        None => false,
                    };
                    if mismatch {
                        self.fail("write/basic: published byte count mismatch", false)
                    } else {
                        self.stage = WriteStage::Read;
                        WriteRequest::Read { path: self.path.clone() }
                    }
                },
                WriteEvent::Written(WriteAnswer::OpenFailed) => self.fail(
                    "write/basic: write contract: writer open failed",
                    true,
                ),
                WriteEvent::Written(WriteAnswer::WriteFailed) => self.fail(
                    "write/basic: write contract: writer rejected bytes",
                    true,
                ),
                _ => self.fail("write/basic: write contract: writer commit failed", true),
            },
            WriteStage::Read => match event {
                WriteEvent::Read(Contents::Bytes(bytes)) => if Self::same_bytes(&bytes, &self.payload) {
                    self.record(ctx, ContractCheckOutcome::Passed)
                } else {
                    self.fail("write/basic: writer contract: write was not published", false)
                },
                WriteEvent::Read(Contents::Unsupported) => self.fail(
                    "write/basic: fixture.read_file support is required",
                    false,
                ),
                _ => self.fail("write/basic: fixture observation failed", true),
            },
            WriteStage::Finished => WriteRequest::Finish,
        }
    }
}

} // verus!
