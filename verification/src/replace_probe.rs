//! Replacement evidence for the replace check, as a step machine: a
//! create-or-replace write over longer contents must publish exactly the
//! new bytes, so a missing truncation cannot pass as a replacement.
use vstd::prelude::*;
use vstd::string::StringSliceAdditionalSpecFns;

use crate::capability::FileSystemCapability;
use crate::contract_check_id::ContractCheckId;
use crate::contract_check_outcome::ContractCheckOutcome;
use crate::contract_check_outcome::OutcomeView;
use crate::contract_context::ContextView;
use crate::contract_context::ContractContext;
use crate::contract_context::relative_in;
use crate::contract_context::with_created;
use crate::contract_context::with_recorded;
use crate::fs_facts::Contents;
use crate::fs_facts::ContentsView;
use crate::fs_facts::holds_bytes;
use crate::write_basic_probe::WriteAnswer;
use crate::write_basic_probe::WriteAnswerView;
use crate::write_basic_probe::bounded_payload;
use crate::write_basic_probe::payload_under;

verus! {

/// The next thing the driver does for the replace check.
#[derive(Debug, PartialEq, Eq)]
pub enum ReplaceRequest {
    /// Ask the fixture to prepare a replacement of `bytes` under this name.
    PrepareWrite {
        /// The fixture-relative name.
        name: String,
        /// The bytes to write.
        bytes: Vec<u8>,
    },
    /// Read the bytes at `path` out of band.
    Read {
        /// The path.
        path: String,
    },
    /// Open a writer at `path` with the prepared options, write `bytes`
    /// fully and commit.
    WriteFile {
        /// The path.
        path: String,
        /// The bytes to write.
        bytes: Vec<u8>,
    },
    /// The check was recorded.
    Finish,
    /// The check failed with `message`.
    Fail {
        /// The diagnostic.
        message: &'static str,
        /// Whether the error just answered is attached as the source.
        with_error: bool,
    },
}

/// The abstract form of a replace request.
pub enum ReplaceRequestView {
    /// Prepare a replacement.
    PrepareWrite { name: Seq<char>, bytes: Seq<u8> },
    /// Read a path.
    Read { path: Seq<char> },
    /// Write and commit.
    WriteFile { path: Seq<char>, bytes: Seq<u8> },
    /// The check was recorded.
    Finish,
    /// The check failed.
    Fail { message: Seq<char>, with_error: bool },
}

impl View for ReplaceRequest {
    type V = ReplaceRequestView;

    open spec fn view(&self) -> ReplaceRequestView {
        match self {
            ReplaceRequest::PrepareWrite { name, bytes } => ReplaceRequestView::PrepareWrite {
                name: name@,
                bytes: bytes@,
            },
            ReplaceRequest::Read { path } => ReplaceRequestView::Read { path: path@ },
            ReplaceRequest::WriteFile { path, bytes } => ReplaceRequestView::WriteFile { path: path@, bytes: bytes@ },
            ReplaceRequest::Finish => ReplaceRequestView::Finish,
            ReplaceRequest::Fail { message, with_error } => ReplaceRequestView::Fail {
                message: message@,
                with_error: *with_error,
            },
        }
    }
}

/// What the fixture's replacement preparation answered.
pub enum ReplacePreparation {
    /// The preparation hook failed.
    Failed,
    /// The replacement cannot be prepared or does not apply, for this
    /// reason.
    Skipped(String),
    /// The replacement is ready.
    Ready {
        /// The path to write.
        path: String,
        /// The bytes the case writes.
        bytes: Vec<u8>,
        /// Whether the case's disposition is create-or-replace.
        replaces: bool,
    },
}

/// The answer to the pending replace request.
pub enum ReplaceEvent {
    /// The fixture's preparation answered.
    Prepared(ReplacePreparation),
    /// A content observation answered.
    Read(Contents),
    /// Writing and committing answered.
    Written(WriteAnswer),
}

/// The abstract form of a preparation answer.
pub enum ReplacePreparationView {
    /// The hook failed.
    Failed,
    /// Skipped, for this reason.
    Skipped(Seq<char>),
    /// Ready.
    Ready { path: Seq<char>, bytes: Seq<u8>, replaces: bool },
}

/// The abstract form of a replace answer.
pub enum ReplaceEventView {
    /// A preparation answer.
    Prepared(ReplacePreparationView),
    /// A content observation.
    Read(ContentsView),
    /// A write answer.
    Written(WriteAnswerView),
}

impl View for ReplaceEvent {
    type V = ReplaceEventView;

    open spec fn view(&self) -> ReplaceEventView {
        match self {
            ReplaceEvent::Prepared(ReplacePreparation::Failed) => ReplaceEventView::Prepared(
                ReplacePreparationView::Failed,
            ),
            ReplaceEvent::Prepared(ReplacePreparation::Skipped(reason)) => ReplaceEventView::Prepared(
                ReplacePreparationView::Skipped(reason@),
            ),
            ReplaceEvent::Prepared(ReplacePreparation::Ready { path, bytes, replaces }) => ReplaceEventView::Prepared(
                ReplacePreparationView::Ready { path: path@, bytes: bytes@, replaces: *replaces },
            ),
            ReplaceEvent::Read(contents) => ReplaceEventView::Read(contents@),
            ReplaceEvent::Written(WriteAnswer::OpenFailed) => ReplaceEventView::Written(WriteAnswerView::OpenFailed),
            ReplaceEvent::Written(WriteAnswer::WriteFailed) => ReplaceEventView::Written(WriteAnswerView::WriteFailed),
            ReplaceEvent::Written(WriteAnswer::CommitFailed) => ReplaceEventView::Written(
                WriteAnswerView::CommitFailed,
            ),
            ReplaceEvent::Written(WriteAnswer::Committed(count)) => ReplaceEventView::Written(
                WriteAnswerView::Committed(*count),
            ),
        }
    }
}

/// The request the replace check waits on.
#[derive(Clone, Copy, Debug, PartialEq, Eq, Structural)]
pub enum ReplaceStage {
    /// The fixture prepares the replacement.
    Prepare,
    /// The initial contents are read.
    Before,
    /// The replacement is written and committed.
    Write,
    /// The published contents are read.
    After,
    /// The check has finished.
    Finished,
}

/// The abstract state of the replace check.
pub struct ReplaceView {
    /// The replacement bytes.
    pub payload: Seq<u8>,
    /// The target path, once known.
    pub path: Seq<char>,
    /// The stage.
    pub stage: ReplaceStage,
}

/// Drives the replace check.
pub struct ReplaceProbe {
    payload: Vec<u8>,
    path: String,
    stage: ReplaceStage,
}

impl View for ReplaceProbe {
    type V = ReplaceView;

    closed spec fn view(&self) -> ReplaceView {
        ReplaceView { payload: self.payload@, path: self.path@, stage: self.stage }
    }
}

/// The capability the replace check is recorded under.
pub open spec fn replace_capability() -> Option<FileSystemCapability> {
    Some(FileSystemCapability::Write)
}

/// The start of the replace check over the suite context, in the current
/// phase: without write the check does not apply, and otherwise a
/// replacement of the bounded payload is prepared.
pub open spec fn replace_start(write: bool, limit: Option<u64>, ctx: ContextView) -> (
    ReplaceView,
    ContextView,
    ReplaceRequestView,
) {
    let payload = payload_under(limit, "new".spec_bytes(), 110u8);
    let p = ReplaceView { payload, path: Seq::empty(), stage: ReplaceStage::Finished };
    if !write {
        (
            p,
            with_recorded(
                ctx,
                ContractCheckId::WriteReplace,
                replace_capability(),
                OutcomeView::NotApplicable { reason: "Write capability is unavailable"@ },
            ),
            ReplaceRequestView::Finish,
        )
    } else {
        (
            ReplaceView { stage: ReplaceStage::Prepare, ..p },
            ctx,
            ReplaceRequestView::PrepareWrite { name: relative_in(ctx, "write-replace"@), bytes: payload },
        )
    }
}

/// The kind of answer a stage waits for.
pub open spec fn replace_answers(stage: ReplaceStage, event: ReplaceEventView) -> bool {
    match stage {
        ReplaceStage::Prepare => event is Prepared,
        ReplaceStage::Before | ReplaceStage::After => event is Read,
        ReplaceStage::Write => event is Written,
        ReplaceStage::Finished => false,
    }
}

/// The transition of the replace check at `p.stage` on `event`.
pub open spec fn replace_step(p: ReplaceView, ctx: ContextView, event: ReplaceEventView) -> (
    ReplaceView,
    ContextView,
    ReplaceRequestView,
) {
    let done = ReplaceView { stage: ReplaceStage::Finished, ..p };
    let fail = |message: Seq<char>, with_error: bool| (done, ctx, ReplaceRequestView::Fail { message, with_error });
    let record = |outcome: OutcomeView| (
        done,
        with_recorded(ctx, ContractCheckId::WriteReplace, replace_capability(), outcome),
        ReplaceRequestView::Finish,
    );
    match (p.stage, event) {
        (ReplaceStage::Prepare, ReplaceEventView::Prepared(ReplacePreparationView::Skipped(reason))) => record(
            OutcomeView::Unverified { reason },
        ),
        (ReplaceStage::Prepare, ReplaceEventView::Prepared(ReplacePreparationView::Ready { path, bytes, replaces })) => {
            let ctx = with_created(ctx, path);
            let p = ReplaceView { path, ..p };
            if bytes != p.payload || !replaces {
                (
                    ReplaceView { stage: ReplaceStage::Finished, ..p },
                    ctx,
                    ReplaceRequestView::Fail {
                        message: "replacement fixture changed request semantics"@,
                        with_error: false,
                    },
                )
            } else {
                (ReplaceView { stage: ReplaceStage::Before, ..p }, ctx, ReplaceRequestView::Read { path })
            }
        },
        (ReplaceStage::Prepare, _) => fail("replacement scenario preparation failed"@, true),
        (ReplaceStage::Before, ReplaceEventView::Read(ContentsView::Bytes(before))) => if before.len()
            > p.payload.len() {
            (
                ReplaceView { stage: ReplaceStage::Write, ..p },
                ctx,
                ReplaceRequestView::WriteFile { path: p.path, bytes: p.payload },
            )
        } else {
            fail("replacement fixture requires longer initial contents"@, false)
        },
        (ReplaceStage::Before, ReplaceEventView::Read(ContentsView::Unsupported)) => record(
            OutcomeView::Unverified { reason: "replacement initial content unavailable"@ },
        ),
        (ReplaceStage::Before, _) => fail("replacement initial observation failed"@, true),
        (ReplaceStage::Write, ReplaceEventView::Written(WriteAnswerView::Committed(count))) => if count is Some
            && count != Some(p.payload.len() as u64) {
            fail("replacement byte count must describe only the replacement payload"@, false)
        } else {
            (ReplaceView { stage: ReplaceStage::After, ..p }, ctx, ReplaceRequestView::Read { path: p.path })
        },
        (ReplaceStage::Write, _) => fail("replacement publication failed"@, true),
        (ReplaceStage::After, ReplaceEventView::Read(ContentsView::Failed)) => fail(
            "replacement publication observation failed"@,
            true,
        ),
        (ReplaceStage::After, ReplaceEventView::Read(contents)) => if contents == ContentsView::Bytes(p.payload) {
            record(OutcomeView::Passed)
        } else {
            fail("write/replace: replacement did not publish exactly the requested bytes"@, false)
        },
        (_, _) => (p, ctx, ReplaceRequestView::Finish),
    }
}

/// The check after answering `events` in turn from `state`, stopping at the
/// first event that the pending stage does not wait for.
pub open spec fn replace_trace(
    state: (ReplaceView, ContextView, ReplaceRequestView),
    events: Seq<ReplaceEventView>,
) -> (ReplaceView, ContextView, ReplaceRequestView)
    decreases events.len(),
{
    if events.len() == 0 || !replace_answers(state.0.stage, events[0]) {
        state
    } else {
        replace_trace(replace_step(state.0, state.1, events[0]), events.drop_first())
    }
}

/// With write advertised, the replace check reaches the final read only
/// after the whole scenario: the fixture prepared a create-or-replace of
/// exactly the payload, the file held longer contents before, and the
/// commit reported no byte count or the payload's length. That read then
/// passes the check exactly when it returns the payload, so contents that
/// kept a tail of the longer original fail it.
pub proof fn law_replace_pass_needs_truncating_publication(
    limit: Option<u64>,
    ctx: ContextView,
    events: Seq<ReplaceEventView>,
    last: ContentsView,
)
    requires
        replace_trace(replace_start(true, limit, ctx), events).0.stage == ReplaceStage::After,
    ensures
        ({
            let reached = replace_trace(replace_start(true, limit, ctx), events);
            let payload = reached.0.payload;
            let answered = replace_step(reached.0, reached.1, ReplaceEventView::Read(last));
            &&& payload == payload_under(limit, "new".spec_bytes(), 110u8)
            &&& events.len() >= 3
            &&& events[0] == ReplaceEventView::Prepared(
                ReplacePreparationView::Ready { path: reached.0.path, bytes: payload, replaces: true },
            )
            &&& events[1] matches ReplaceEventView::Read(ContentsView::Bytes(before)) && before.len() > payload.len()
            &&& events[2] matches ReplaceEventView::Written(WriteAnswerView::Committed(count)) && (count is None
                || count == Some(payload.len() as u64))
            &&& (answered.2 is Finish <==> last == ContentsView::Bytes(payload))
            &&& answered.2 is Finish ==> answered.1 == with_recorded(
                reached.1,
                ContractCheckId::WriteReplace,
                replace_capability(),
                OutcomeView::Passed,
            )
            &&& !(answered.2 is Finish) ==> answered.2 is Fail
        }),
{
    reveal_with_fuel(replace_trace, 5);
    let start = replace_start(true, limit, ctx);
    assert(events.len() >= 1 && replace_answers(start.0.stage, events[0]));
    let s1 = replace_step(start.0, start.1, events[0]);
    assert(s1.0.stage == ReplaceStage::Before);
    let e1 = events.drop_first();
    assert(e1.len() >= 1 && e1[0] == events[1]);
    let s2 = replace_step(s1.0, s1.1, events[1]);
    assert(s2.0.stage == ReplaceStage::Write);
    let e2 = e1.drop_first();
    assert(e2.len() >= 1 && e2[0] == events[2]);
}

impl ReplaceProbe {
    /// Starts the replace check in the suite context, given whether write
    /// is advertised and the declared largest write; returns the probe with
    /// its first request.
    pub fn new(ctx: &mut ContractContext, write: bool, limit: Option<u64>) -> (started: (ReplaceProbe, ReplaceRequest))
        ensures
            (started.0@, final(ctx)@, started.1@) == replace_start(write, limit, old(ctx)@),
    {
        let payload = bounded_payload(limit, "new".as_bytes(), 110u8);
        let mut probe = ReplaceProbe { payload, path: String::new(), stage: ReplaceStage::Finished };
        if !write {
            ctx.record_check(
                ContractCheckId::WriteReplace,
                Some(FileSystemCapability::Write),
                ContractCheckOutcome::NotApplicable { reason: String::from_str("Write capability is unavailable") },
            );
            return (probe, ReplaceRequest::Finish);
        }
        probe.stage = ReplaceStage::Prepare;
        let name = ctx.relative_name("write-replace");
        let bytes = probe.payload.clone();
        (probe, ReplaceRequest::PrepareWrite { name, bytes })
    }

    /// Returns the request the check waits on.
    pub fn stage(&self) -> (stage: ReplaceStage)
        ensures
            stage == self@.stage,
    {
        self.stage
    }

    /// Returns whether `event` is the kind of answer the check waits for.
    pub fn expects(&self, event: &ReplaceEvent) -> (answered: bool)
        ensures
            answered == replace_answers(self@.stage, event@),
    {
        match self.stage {
            ReplaceStage::Prepare => matches!(event, ReplaceEvent::Prepared(_)),
            ReplaceStage::Before | ReplaceStage::After => matches!(event, ReplaceEvent::Read(_)),
            ReplaceStage::Write => matches!(event, ReplaceEvent::Written(_)),
            ReplaceStage::Finished => false,
        }
    }

    /// Ends the check with the failure `message`.
    fn fail(&mut self, message: &'static str, with_error: bool) -> (request: ReplaceRequest)
        ensures
            final(self)@ == (ReplaceView { stage: ReplaceStage::Finished, ..old(self)@ }),
            request@ == (ReplaceRequestView::Fail { message: message@, with_error }),
    {
        self.stage = ReplaceStage::Finished;
        ReplaceRequest::Fail { message, with_error }
    }

    /// Ends the check by recording `outcome`.
    fn record(&mut self, ctx: &mut ContractContext, outcome: ContractCheckOutcome) -> (request: ReplaceRequest)
        ensures
            final(self)@ == (ReplaceView { stage: ReplaceStage::Finished, ..old(self)@ }),
            final(ctx)@ == with_recorded(old(ctx)@, ContractCheckId::WriteReplace, replace_capability(), outcome@),
            request@ == ReplaceRequestView::Finish,
    {
        self.stage = ReplaceStage::Finished;
        ctx.record_check(ContractCheckId::WriteReplace, Some(FileSystemCapability::Write), outcome);
        ReplaceRequest::Finish
    }

    /// Takes the answer to the pending request, records what the step
    /// names in the suite context, and returns the next request.
    pub fn advance(&mut self, ctx: &mut ContractContext, event: ReplaceEvent) -> (request: ReplaceRequest)
        requires
            replace_answers(old(self)@.stage, event@),
        ensures
            (final(self)@, final(ctx)@, request@) == replace_step(old(self)@, old(ctx)@, event@),
    {
        match self.stage {
            ReplaceStage::Prepare => match event {
                ReplaceEvent::Prepared(ReplacePreparation::Skipped(reason)) => self.record(
                    ctx,
                    ContractCheckOutcome::Unverified { reason },
                ),
                ReplaceEvent::Prepared(ReplacePreparation::Ready { path, bytes, replaces }) => {
                    ctx.record_created(path.clone());
                    self.path = path;
                    let same = holds_bytes(&Contents::Bytes(bytes), self.payload.as_slice());
                    if !same || !replaces {
                        return self.fail("replacement fixture changed request semantics", false);
                    }
                    self.stage = ReplaceStage::Before;
                    ReplaceRequest::Read { path: self.path.clone() }
                },
                _ => self.fail("replacement scenario preparation failed", true),
            },
            ReplaceStage::Before => match event {
                ReplaceEvent::Read(Contents::Bytes(before)) => if before.len() > self.payload.len() {
                    self.stage = ReplaceStage::Write;
                    ReplaceRequest::WriteFile { path: self.path.clone(), bytes: self.payload.clone() }
                } else {
                    self.fail("replacement fixture requires longer initial contents", false)
                },
                ReplaceEvent::Read(Contents::Unsupported) => self.record(
                    ctx,
                    ContractCheckOutcome::Unverified {
                        reason: String::from_str("replacement initial content unavailable"),
                    },
                ),
                _ => self.fail("replacement initial observation failed", true),
            },
            ReplaceStage::Write => match event {
                ReplaceEvent::Written(WriteAnswer::Committed(count)) => {
                    let mismatch = match count {
                        Some(count) => count != self.payload.len() as u64,
                        None => false,
                    };
                    if mismatch {
                        self.fail("replacement byte count must describe only the replacement payload", false)
                    } else {
                        self.stage = ReplaceStage::After;
                        ReplaceRequest::Read { path: self.path.clone() }
                    }
                },
                _ => self.fail("replacement publication failed", true),
            },
            ReplaceStage::After => match event {
                ReplaceEvent::Read(Contents::Failed) => self.fail("replacement publication observation failed", true),
                ReplaceEvent::Read(contents) => if holds_bytes(&contents, self.payload.as_slice()) {
                    self.record(ctx, ContractCheckOutcome::Passed)
                } else {
                    self.fail("write/replace: replacement did not publish exactly the requested bytes", false)
                },
                _ => self.fail("replacement publication observation failed", true),
            },
            ReplaceStage::Finished => ReplaceRequest::Finish,
        }
    }
}

} // verus!
