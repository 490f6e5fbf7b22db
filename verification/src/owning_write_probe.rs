//! Publication, unpolled-drop and repeated-execution evidence for owning
//! write operations, as a step machine: the driver performs each request
//! against the file system under test and hands the answer back.
use vstd::prelude::*;
use vstd::string::StringSliceAdditionalSpecFns;

use crate::capability::FileSystemCapability;
use crate::contract_check_id::ContractCheckId;
use crate::contract_check_outcome::ContractCheckOutcome;
use crate::contract_check_outcome::OutcomeView;
use crate::contract_context::ContextView;
use crate::contract_context::ContractContext;
use crate::contract_context::begun;
use crate::contract_context::relative_in;
use crate::contract_context::with_created;
use crate::contract_context::with_recorded;
use crate::fs_facts::Contents;
use crate::fs_facts::ContentsView;
use crate::fs_facts::ErrorKind;
use crate::fs_facts::holds_bytes;
use crate::fs_facts::text_of;
use crate::write_basic_probe::bounded_payload;
use crate::write_basic_probe::payload_under;

verus! {

/// The next thing the driver does for an owning write check.
#[derive(Debug, PartialEq, Eq)]
pub enum OwningRequest {
    /// Resolve this fixture-relative name to a provider path.
    ResolvePath {
        /// The fixture-relative name.
        name: String,
    },
    /// Write `bytes` to `path` with default options and commit, which must
    /// be rejected.
    RejectedWrite {
        /// The path.
        path: String,
        /// The bytes.
        bytes: Vec<u8>,
    },
    /// Ask the fixture to prepare a creation of `bytes` under this name.
    PrepareWrite {
        /// The fixture-relative name.
        name: String,
        /// The bytes.
        bytes: Vec<u8>,
    },
    /// Begin an owning write of `bytes` to `path` with the prepared
    /// options, then create one execution future and drop it unpolled.
    BeginWriteAll {
        /// The path.
        path: String,
        /// The bytes.
        bytes: Vec<u8>,
    },
    /// Execute the owning write.
    Execute,
    /// Execute the completed owning write once more.
    ExecuteAgain,
    /// Read the bytes at `path` out of band.
    Read {
        /// The path.
        path: String,
    },
    /// The check was recorded.
    Finish,
    /// The check failed with `message`.
    Fail {
        /// The diagnostic.
        message: &'static str,
        /// Whether the error just answered is attached as the source.
        with_error: bool,
    },
}

/// The abstract form of an owning write request.
pub enum OwningRequestView {
    /// Resolve a name.
    ResolvePath { name: Seq<char> },
    /// Write what must be rejected.
    RejectedWrite { path: Seq<char>, bytes: Seq<u8> },
    /// Prepare a creation.
    PrepareWrite { name: Seq<char>, bytes: Seq<u8> },
    /// Begin the owning write.
    BeginWriteAll { path: Seq<char>, bytes: Seq<u8> },
    /// Execute.
    Execute,
    /// Execute once more.
    ExecuteAgain,
    /// Read a path.
    Read { path: Seq<char> },
    /// The check was recorded.
    Finish,
    /// The check failed.
    Fail { message: Seq<char>, with_error: bool },
}

impl View for OwningRequest {
    type V = OwningRequestView;

    open spec fn view(&self) -> OwningRequestView {
        match self {
            OwningRequest::ResolvePath { name } => OwningRequestView::ResolvePath { name: name@ },
            OwningRequest::RejectedWrite { path, bytes } => OwningRequestView::RejectedWrite {
                path: path@,
                bytes: bytes@,
            },
            OwningRequest::PrepareWrite { name, bytes } => OwningRequestView::PrepareWrite {
                name: name@,
                bytes: bytes@,
            },
            OwningRequest::BeginWriteAll { path, bytes } => OwningRequestView::BeginWriteAll {
                path: path@,
                bytes: bytes@,
            },
            OwningRequest::Execute => OwningRequestView::Execute,
            OwningRequest::ExecuteAgain => OwningRequestView::ExecuteAgain,
            OwningRequest::Read { path } => OwningRequestView::Read { path: path@ },
            OwningRequest::Finish => OwningRequestView::Finish,
            OwningRequest::Fail { message, with_error } => OwningRequestView::Fail {
                message: message@,
                with_error: *with_error,
            },
        }
    }
}

/// What the fixture's write preparation answered.
pub enum OwningPreparation {
    /// The preparation hook failed.
    Failed,
    /// The fixture cannot prepare the creation, for this reason.
    Unavailable(String),
    /// The creation does not apply to the fixture, for this reason.
    NotApplicable(String),
    /// The creation is ready.
    Ready {
        /// The path to write.
        path: String,
        /// The bytes the case writes.
        bytes: Vec<u8>,
        /// Whether the case's disposition creates the file.
        creates: bool,
    },
}

/// The owning write's state after an execution future was dropped unpolled.
#[derive(Clone, Copy, Debug, PartialEq, Eq, Structural)]
pub struct UnpolledWrite {
    /// Whether the operation is still ready.
    pub ready: bool,
    /// Whether the operation holds a recovery writer.
    pub recovery: bool,
}

/// A successful owning write as the facade reported it.
#[derive(Clone, Copy, Debug, PartialEq, Eq, Structural)]
pub struct WriteAllFacts {
    /// Whether the operation reports completion afterwards.
    pub completed: bool,
    /// The bytes the operation reports accepted.
    pub written: u64,
}

/// A repeated execution that failed, as the facade reported it.
#[derive(Clone, Copy, Debug, PartialEq, Eq, Structural)]
pub struct RepeatedWrite {
    /// The error's classification.
    pub kind: ErrorKind,
    /// Whether the failure state is "published".
    pub published: bool,
    /// The bytes the failure reports accepted.
    pub written: u64,
    /// Whether the operation still reports completion.
    pub completed: bool,
}

/// The answer to the pending owning write request.
pub enum OwningEvent {
    /// The resolved path, or `None` when the fixture could not map it.
    Resolved(Option<String>),
    /// The write that had to be rejected: the kind of its error, or `None`
    /// when it succeeded.
    Rejected(Option<ErrorKind>),
    /// The fixture's preparation answered.
    Prepared(OwningPreparation),
    /// The owning write was admitted and left as this, or `None` when
    /// admission failed.
    Admitted(Option<UnpolledWrite>),
    /// The execution answered: the outcome, or `None` when it failed.
    Executed(Option<WriteAllFacts>),
    /// The repeated execution answered: its failure, or `None` when it
    /// succeeded.
    Repeated(Option<RepeatedWrite>),
    /// A content observation answered.
    Read(Contents),
}

/// The abstract form of a preparation answer.
pub enum OwningPreparationView {
    /// The hook failed.
    Failed,
    /// The creation cannot be prepared or does not apply, for this reason.
    Skipped(Seq<char>),
    /// The creation is ready.
    Ready { path: Seq<char>, bytes: Seq<u8>, creates: bool },
}

/// The abstract form of an owning write answer.
pub enum OwningEventView {
    /// A resolved path.
    Resolved(Option<Seq<char>>),
    /// A rejection's kind, or `None` for a success.
    Rejected(Option<ErrorKind>),
    /// A preparation answer.
    Prepared(OwningPreparationView),
    /// An admission answer.
    Admitted(Option<UnpolledWrite>),
    /// An execution answer.
    Executed(Option<WriteAllFacts>),
    /// A repeated execution answer.
    Repeated(Option<RepeatedWrite>),
    /// A content observation.
    Read(ContentsView),
}

impl View for OwningEvent {
    type V = OwningEventView;

    open spec fn view(&self) -> OwningEventView {
        match self {
            OwningEvent::Resolved(path) => OwningEventView::Resolved(text_of(*path)),
            OwningEvent::Rejected(kind) => OwningEventView::Rejected(*kind),
            OwningEvent::Prepared(OwningPreparation::Failed) => OwningEventView::Prepared(OwningPreparationView::Failed),
            OwningEvent::Prepared(OwningPreparation::Unavailable(reason)) => OwningEventView::Prepared(
                OwningPreparationView::Skipped(reason@),
            ),
            OwningEvent::Prepared(OwningPreparation::NotApplicable(reason)) => OwningEventView::Prepared(
                OwningPreparationView::Skipped(reason@),
            ),
            OwningEvent::Prepared(OwningPreparation::Ready { path, bytes, creates }) => OwningEventView::Prepared(
                OwningPreparationView::Ready { path: path@, bytes: bytes@, creates: *creates },
            ),
            OwningEvent::Admitted(facts) => OwningEventView::Admitted(*facts),
            OwningEvent::Executed(facts) => OwningEventView::Executed(*facts),
            OwningEvent::Repeated(facts) => OwningEventView::Repeated(*facts),
            OwningEvent::Read(contents) => OwningEventView::Read(contents@),
        }
    }
}

/// The request an owning write check waits on.
#[derive(Clone, Copy, Debug, PartialEq, Eq, Structural)]
pub enum OwningStage {
    /// The path of a write that must be rejected is being resolved.
    ResolveRejected,
    /// The write that must be rejected runs.
    Rejected,
    /// The fixture prepares the creation.
    Prepare,
    /// The owning write is being admitted.
    Admit,
    /// The owning write executes.
    Execute,
    /// The published file is read.
    ReadPublished,
    /// The owning write executes once more.
    Repeat,
    /// The file is read after the repetition.
    ReadRepeated,
    /// The check has finished.
    Finished,
}

/// The abstract state of an owning write check.
pub struct OwningView {
    /// The check.
    pub id: ContractCheckId,
    /// The payload.
    pub payload: Seq<u8>,
    /// The target path, once known.
    pub path: Seq<char>,
    /// The stage.
    pub stage: OwningStage,
}

/// Drives one owning write check: without write the write must be rejected
/// as unsupported; with it, a dropped unpolled execution changes nothing,
/// the execution publishes exactly the payload, and a second execution is
/// refused without losing the published facts.
pub struct OwningWriteProbe {
    id: ContractCheckId,
    payload: Vec<u8>,
    path: String,
    stage: OwningStage,
}

impl View for OwningWriteProbe {
    type V = OwningView;

    closed spec fn view(&self) -> OwningView {
        OwningView { id: self.id, payload: self.payload@, path: self.path@, stage: self.stage }
    }
}

/// Whether a check is one of the owning write checks.
pub open spec fn owning_check(id: ContractCheckId) -> bool {
    id == ContractCheckId::WriteOwningOperation || id == ContractCheckId::WriteRepeatedExecute
}

/// The fixture-relative base name of an owning write check.
pub open spec fn owning_name(id: ContractCheckId) -> Seq<char> {
    if id == ContractCheckId::WriteRepeatedExecute {
        "owning-repeat"@
    } else {
        "owning-write"@
    }
}

/// The start of an owning write check over the suite context: a check of
/// another kind fails before any phase begins; otherwise the phase begins,
/// and without write the repeated check does not apply while the owning
/// check resolves a path for a write that must be rejected; with write a
/// creation of the bounded payload is prepared.
pub open spec fn owning_start(id: ContractCheckId, write: bool, limit: Option<u64>, ctx: ContextView) -> (
    OwningView,
    ContextView,
    OwningRequestView,
) {
    let p = OwningView {
        id,
        payload: payload_under(limit, "owning write".spec_bytes(), 111u8),
        path: Seq::empty(),
        stage: OwningStage::Finished,
    };
    if !owning_check(id) {
        (p, ctx, OwningRequestView::Fail { message: "selected entry is not an owning write check"@, with_error: false })
    } else {
        let ctx = begun(ctx, id.stable_name());
        let name = relative_in(ctx, owning_name(id));
        if !write && id == ContractCheckId::WriteRepeatedExecute {
            (
                p,
                with_recorded(
                    ctx,
                    id,
                    Some(FileSystemCapability::Write),
                    OutcomeView::NotApplicable { reason: "Write capability is unavailable"@ },
                ),
                OwningRequestView::Finish,
            )
        } else if !write {
            (OwningView { stage: OwningStage::ResolveRejected, ..p }, ctx, OwningRequestView::ResolvePath { name })
        } else {
            (
                OwningView { stage: OwningStage::Prepare, ..p },
                ctx,
                OwningRequestView::PrepareWrite { name, bytes: p.payload },
            )
        }
    }
}

/// The kind of answer a stage waits for.
pub open spec fn owning_answers(stage: OwningStage, event: OwningEventView) -> bool {
    match stage {
        OwningStage::ResolveRejected => event is Resolved,
        OwningStage::Rejected => event is Rejected,
        OwningStage::Prepare => event is Prepared,
        OwningStage::Admit => event is Admitted,
        OwningStage::Execute => event is Executed,
        OwningStage::Repeat => event is Repeated,
        OwningStage::ReadPublished | OwningStage::ReadRepeated => event is Read,
        OwningStage::Finished => false,
    }
}

/// The transition of an owning write check at `p.stage` on `event`.
pub open spec fn owning_step(p: OwningView, ctx: ContextView, event: OwningEventView) -> (
    OwningView,
    ContextView,
    OwningRequestView,
) {
    let done = OwningView { stage: OwningStage::Finished, ..p };
    let fail = |message: Seq<char>, with_error: bool| (done, ctx, OwningRequestView::Fail { message, with_error });
    let record = |outcome: OutcomeView| (
        done,
        with_recorded(ctx, p.id, Some(FileSystemCapability::Write), outcome),
        OwningRequestView::Finish,
    );
    match (p.stage, event) {
        (OwningStage::ResolveRejected, OwningEventView::Resolved(Some(path))) => (
            OwningView { path, stage: OwningStage::Rejected, ..p },
            ctx,
            OwningRequestView::RejectedWrite { path, bytes: p.payload },
        ),
        (OwningStage::ResolveRejected, _) => fail("owning write path preparation failed"@, true),
        (OwningStage::Rejected, OwningEventView::Rejected(Some(kind))) => if kind == ErrorKind::UnsupportedCapability {
            record(OutcomeView::RejectedAsExpected)
        } else {
            fail("owning write rejection kind differs"@, true)
        },
        (OwningStage::Rejected, _) => fail("unsupported owning write succeeded"@, false),
        (OwningStage::Prepare, OwningEventView::Prepared(OwningPreparationView::Skipped(reason))) => record(
            OutcomeView::Unverified { reason },
        ),
        (OwningStage::Prepare, OwningEventView::Prepared(OwningPreparationView::Ready { path, bytes, creates })) => if bytes
            == p.payload && creates {
            (
                OwningView { path, stage: OwningStage::Admit, ..p },
                with_created(ctx, path),
                OwningRequestView::BeginWriteAll { path, bytes: p.payload },
            )
        } else {
            fail("owning write fixture changed creation semantics"@, false)
        },
        (OwningStage::Prepare, _) => fail("owning write scenario preparation failed"@, true),
        (OwningStage::Admit, OwningEventView::Admitted(Some(unpolled))) => if !unpolled.ready {
            fail("unpolled future changed state"@, false)
        } else if unpolled.recovery {
            fail("unpolled future acquired a writer"@, false)
        } else {
            (OwningView { stage: OwningStage::Execute, ..p }, ctx, OwningRequestView::Execute)
        },
        (OwningStage::Admit, _) => fail("owning write request preparation failed"@, true),
        (OwningStage::Execute, OwningEventView::Executed(Some(facts))) => if !facts.completed {
            fail("success did not complete the operation"@, false)
        } else if facts.written != p.payload.len() {
            fail("accepted byte count mismatch"@, false)
        } else {
            (OwningView { stage: OwningStage::ReadPublished, ..p }, ctx, OwningRequestView::Read { path: p.path })
        },
        (OwningStage::Execute, _) => fail("owning write execution failed"@, true),
        (OwningStage::ReadPublished, OwningEventView::Read(ContentsView::Failed)) => fail(
            "owning write observation failed"@,
            true,
        ),
        (OwningStage::ReadPublished, OwningEventView::Read(contents)) => if contents != ContentsView::Bytes(p.payload) {
            fail("independent publication evidence is missing or differs"@, false)
        } else if p.id == ContractCheckId::WriteOwningOperation {
            record(OutcomeView::Passed)
        } else {
            (OwningView { stage: OwningStage::Repeat, ..p }, ctx, OwningRequestView::ExecuteAgain)
        },
        (OwningStage::Repeat, OwningEventView::Repeated(Some(repeat))) => if repeat.kind != ErrorKind::InvalidState
            || !repeat.published || repeat.written != p.payload.len() {
            fail("repeated owning write lost its completed facts"@, true)
        } else if !repeat.completed {
            fail("repeat changed completed state"@, false)
        } else {
            (OwningView { stage: OwningStage::ReadRepeated, ..p }, ctx, OwningRequestView::Read { path: p.path })
        },
        (OwningStage::Repeat, _) => fail("owning write executed twice"@, false),
        (OwningStage::ReadRepeated, OwningEventView::Read(ContentsView::Failed)) => fail(
            "repeated owning write observation failed"@,
            true,
        ),
        (OwningStage::ReadRepeated, OwningEventView::Read(contents)) => if contents == ContentsView::Bytes(p.payload) {
            record(OutcomeView::Passed)
        } else {
            fail("repeat changed published bytes or evidence is missing"@, false)
        },
        (_, _) => (p, ctx, OwningRequestView::Finish),
    }
}

/// An owning write check records a pass only after the published file was
/// read holding exactly the payload, at the end of the check's own path:
/// right after publication for the owning check, after a refused
/// repetition for the repeated check.
pub proof fn law_owning_write_passes_only_on_published_payload(p: OwningView, ctx: ContextView, event: OwningEventView)
    requires
        owning_answers(p.stage, event),
    ensures
        owning_step(p, ctx, event).1 == with_recorded(ctx, p.id, Some(FileSystemCapability::Write), OutcomeView::Passed)
            && owning_step(p, ctx, event).2 is Finish && (p.stage == OwningStage::ReadPublished || p.stage
            == OwningStage::ReadRepeated) ==> event == OwningEventView::Read(ContentsView::Bytes(p.payload)) && (
        p.stage == OwningStage::ReadPublished ==> p.id == ContractCheckId::WriteOwningOperation),
        owning_step(p, ctx, event).2 is ExecuteAgain ==> p.stage == OwningStage::ReadPublished && p.id
            != ContractCheckId::WriteOwningOperation && event == OwningEventView::Read(ContentsView::Bytes(p.payload)),
{
}

/// The stages an owning write check can reach: only the repeated check
/// executes twice, and only the owning check attempts a write that must be
/// rejected.
pub open spec fn owning_consistent(p: OwningView) -> bool {
    &&& (p.stage == OwningStage::Repeat || p.stage == OwningStage::ReadRepeated) ==> p.id
        == ContractCheckId::WriteRepeatedExecute
    &&& (p.stage == OwningStage::ResolveRejected || p.stage == OwningStage::Rejected) ==> p.id
        == ContractCheckId::WriteOwningOperation
    &&& p.stage != OwningStage::Finished ==> owning_check(p.id)
}

/// Every owning write check starts in a consistent stage and every step
/// keeps it consistent: a second execution is attempted only by the
/// repeated check.
pub proof fn law_owning_stages_consistent(
    id: ContractCheckId,
    write: bool,
    limit: Option<u64>,
    p: OwningView,
    ctx: ContextView,
    event: OwningEventView,
)
    ensures
        owning_consistent(owning_start(id, write, limit, ctx).0),
        owning_consistent(p) && owning_answers(p.stage, event) ==> owning_consistent(owning_step(p, ctx, event).0),
{
}

impl OwningWriteProbe {
    /// Starts the owning write check `id` in the suite context, given
    /// whether write is advertised and the declared largest write; returns
    /// the probe with its first request.
    pub fn new(ctx: &mut ContractContext, id: ContractCheckId, write: bool, limit: Option<u64>) -> (started: (
        OwningWriteProbe,
        OwningRequest,
    ))
        ensures
            (started.0@, final(ctx)@, started.1@) == owning_start(id, write, limit, old(ctx)@),
    {
        let mut probe = OwningWriteProbe {
            id,
            payload: bounded_payload(limit, "owning write".as_bytes(), 111u8),
            path: String::new(),
            stage: OwningStage::Finished,
        };
        let owning = match id {
            ContractCheckId::WriteOwningOperation | ContractCheckId::WriteRepeatedExecute => true,
            _ => false,
        };
        if !owning {
            return (
                probe,
                OwningRequest::Fail { message: "selected entry is not an owning write check", with_error: false },
            );
        }
        ctx.begin(id.as_str());
        let name = if id == ContractCheckId::WriteRepeatedExecute {
            ctx.relative_name("owning-repeat")
        } else {
            ctx.relative_name("owning-write")
        };
        if !write && id == ContractCheckId::WriteRepeatedExecute {
            ctx.record_check(
                id,
                Some(FileSystemCapability::Write),
                ContractCheckOutcome::NotApplicable { reason: String::from_str("Write capability is unavailable") },
            );
            (probe, OwningRequest::Finish)
        } else if !write {
            probe.stage = OwningStage::ResolveRejected;
            (probe, OwningRequest::ResolvePath { name })
        } else {
            probe.stage = OwningStage::Prepare;
            let bytes = probe.payload.clone();
            (probe, OwningRequest::PrepareWrite { name, bytes })
        }
    }

    /// Returns the stage the check waits in.
    pub fn stage(&self) -> (stage: OwningStage)
        ensures
            stage == self@.stage,
    {
        self.stage
    }

    /// Returns whether `event` answers the request the check waits on.
    pub fn expects(&self, event: &OwningEvent) -> (answered: bool)
        ensures
            answered == owning_answers(self@.stage, event@),
    {
        match self.stage {
            OwningStage::ResolveRejected => matches!(event, OwningEvent::Resolved(_)),
            OwningStage::Rejected => matches!(event, OwningEvent::Rejected(_)),
            OwningStage::Prepare => matches!(event, OwningEvent::Prepared(_)),
            OwningStage::Admit => matches!(event, OwningEvent::Admitted(_)),
            OwningStage::Execute => matches!(event, OwningEvent::Executed(_)),
            OwningStage::Repeat => matches!(event, OwningEvent::Repeated(_)),
            OwningStage::ReadPublished | OwningStage::ReadRepeated => matches!(event, OwningEvent::Read(_)),
            OwningStage::Finished => false,
        }
    }

    /// Ends the check with the failure `message`.
    fn fail(&mut self, message: &'static str, with_error: bool) -> (request: OwningRequest)
        ensures
            final(self)@ == (OwningView { stage: OwningStage::Finished, ..old(self)@ }),
            request@ == (OwningRequestView::Fail { message: message@, with_error }),
    {
        self.stage = OwningStage::Finished;
        OwningRequest::Fail { message, with_error }
    }

    /// Ends the check by recording `outcome`.
    fn record(&mut self, ctx: &mut ContractContext, outcome: ContractCheckOutcome) -> (request: OwningRequest)
        ensures
            final(self)@ == (OwningView { stage: OwningStage::Finished, ..old(self)@ }),
            final(ctx)@ == with_recorded(old(ctx)@, old(self)@.id, Some(FileSystemCapability::Write), outcome@),
            request@ == OwningRequestView::Finish,
    {
        self.stage = OwningStage::Finished;
        ctx.record_check(self.id, Some(FileSystemCapability::Write), outcome);
        OwningRequest::Finish
    }

    /// Returns whether an observation saw exactly the payload.
    fn saw_payload(&self, contents: &Contents) -> (seen: bool)
        ensures
            seen == (contents@ == ContentsView::Bytes(self@.payload)),
    {
        holds_bytes(contents, self.payload.as_slice())
    }

    /// Takes the answer to the pending request, records what the step
    /// names in the suite context, and returns the next request.
    pub fn advance(&mut self, ctx: &mut ContractContext, event: OwningEvent) -> (request: OwningRequest)
        requires
            owning_answers(old(self)@.stage, event@),
        ensures
            (final(self)@, final(ctx)@, request@) == owning_step(old(self)@, old(ctx)@, event@),
    {
        match self.stage {
            OwningStage::ResolveRejected => match event {
                OwningEvent::Resolved(Some(path)) => {
                    self.path = path;
                    self.stage = OwningStage::Rejected;
                    OwningRequest::RejectedWrite { path: self.path.clone(), bytes: self.payload.clone() }
                },
                _ => self.fail("owning write path preparation failed", true),
            },
            OwningStage::Rejected => match event {
                OwningEvent::Rejected(Some(kind)) => if kind == ErrorKind::UnsupportedCapability {
                    self.record(ctx, ContractCheckOutcome::RejectedAsExpected)
                } else {
                    self.fail("owning write rejection kind differs", true)
                },
                _ => self.fail("unsupported owning write succeeded", false),
            },
            OwningStage::Prepare => match event {
                OwningEvent::Prepared(OwningPreparation::Unavailable(reason))
                | OwningEvent::Prepared(OwningPreparation::NotApplicable(reason)) => self.record(
                    ctx,
                    ContractCheckOutcome::Unverified { reason },
                ),
                OwningEvent::Prepared(OwningPreparation::Ready { path, bytes, creates }) => {
                    let same = holds_bytes(&Contents::Bytes(bytes), self.payload.as_slice());
                    if same && creates {
                        ctx.record_created(path.clone());
                        self.path = path;
                        self.stage = OwningStage::Admit;
                        OwningRequest::BeginWriteAll { path: self.path.clone(), bytes: self.payload.clone() }
                    } else {
                        self.fail("owning write fixture changed creation semantics", false)
                    }
                },
                _ => self.fail("owning write scenario preparation failed", true),
            },
            OwningStage::Admit => match event {
                OwningEvent::Admitted(Some(unpolled)) => if !unpolled.ready {
                    self.fail("unpolled future changed state", false)
                } else if unpolled.recovery {
                    self.fail("unpolled future acquired a writer", false)
                } else {
                    self.stage = OwningStage::Execute;
                    OwningRequest::Execute
                },
                _ => self.fail("owning write request preparation failed", true),
            },
            OwningStage::Execute => match event {
                OwningEvent::Executed(Some(facts)) => if !facts.completed {
                    self.fail("success did not complete the operation", false)
                } else if facts.written != self.payload.len() as u64 {
                    self.fail("accepted byte count mismatch", false)
                } else {
                    self.stage = OwningStage::ReadPublished;
                    OwningRequest::Read { path: self.path.clone() }
                },
                _ => self.fail("owning write execution failed", true),
            },
            OwningStage::ReadPublished => match event {
                OwningEvent::Read(contents) => if matches!(contents, Contents::Failed) {
                    self.fail("owning write observation failed", true)
                } else if !self.saw_payload(&contents) {
                    self.fail("independent publication evidence is missing or differs", false)
                } else if self.id == ContractCheckId::WriteOwningOperation {
                    self.record(ctx, ContractCheckOutcome::Passed)
                } else {
                    self.stage = OwningStage::Repeat;
                    OwningRequest::ExecuteAgain
                },
                _ => OwningRequest::Finish,
            },
            OwningStage::Repeat => match event {
                OwningEvent::Repeated(Some(repeat)) => if repeat.kind != ErrorKind::InvalidState || !repeat.published
                    || repeat.written != self.payload.len() as u64 {
                    self.fail("repeated owning write lost its completed facts", true)
                } else if !repeat.completed {
                    self.fail("repeat changed completed state", false)
                } else {
                    self.stage = OwningStage::ReadRepeated;
                    OwningRequest::Read { path: self.path.clone() }
                },
                _ => self.fail("owning write executed twice", false),
            },
            OwningStage::ReadRepeated => match event {
                OwningEvent::Read(contents) => if matches!(contents, Contents::Failed) {
                    self.fail("repeated owning write observation failed", true)
                } else if self.saw_payload(&contents) {
                    self.record(ctx, ContractCheckOutcome::Passed)
                } else {
                    self.fail("repeat changed published bytes or evidence is missing", false)
                },
                _ => OwningRequest::Finish,
            },
            OwningStage::Finished => OwningRequest::Finish,
        }
    }
}

} // verus!
