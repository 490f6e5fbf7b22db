//! Write limit evidence, as a step machine: a write of exactly the declared
//! largest size must publish its bytes, and a write one byte larger must be
//! refused for its size, each created at a fixture-prepared path.
use vstd::prelude::*;

use crate::capability::FileSystemCapability;
use crate::contract_check_id::ContractCheckId;
use crate::contract_check_outcome::ContractCheckOutcome;
use crate::contract_check_outcome::OutcomeView;
use crate::contract_context::ContextView;
use crate::contract_context::ContractContext;
use crate::contract_context::relative_in;
use crate::contract_context::with_created;
use crate::contract_context::with_recorded;
use crate::fs_facts::Contents;
use crate::fs_facts::ContentsView;
use crate::fs_facts::ErrorFacts;
use crate::fs_facts::ErrorFactsView;
use crate::fs_facts::ErrorKind;
use crate::fs_facts::text_is;

verus! {

/// The byte every limit probe payload is made of.
pub const LIMIT_FILL: u8 = 97;

/// The next thing the driver does for the write limit check.
#[derive(Debug, PartialEq, Eq)]
pub enum LimitRequest {
    /// Ask the fixture to prepare a creation under this name of `len`
    /// bytes, each `LIMIT_FILL`.
    PrepareWrite {
        /// The fixture-relative name.
        name: String,
        /// The payload's length.
        len: u64,
    },
    /// Write the prepared payload to `path` with the prepared options and
    /// commit.
    WriteFile {
        /// The path.
        path: String,
    },
    /// Read the bytes at `path` out of band.
    Read {
        /// The path.
        path: String,
    },
    /// The check was recorded.
    Finish,
    /// The check failed with `message`.
    Fail {
        /// The diagnostic.
        message: &'static str,
        /// Whether the error just answered is attached as the source.
        with_error: bool,
    },
}

/// The abstract form of a write limit request.
pub enum LimitRequestView {
    /// Prepare a creation.
    PrepareWrite { name: Seq<char>, len: u64 },
    /// Write and commit.
    WriteFile { path: Seq<char> },
    /// Read a path.
    Read { path: Seq<char> },
    /// The check was recorded.
    Finish,
    /// The check failed.
    Fail { message: Seq<char>, with_error: bool },
}

impl View for LimitRequest {
    type V = LimitRequestView;

    open spec fn view(&self) -> LimitRequestView {
        match self {
            LimitRequest::PrepareWrite { name, len } => LimitRequestView::PrepareWrite { name: name@, len: *len },
            LimitRequest::WriteFile { path } => LimitRequestView::WriteFile { path: path@ },
            LimitRequest::Read { path } => LimitRequestView::Read { path: path@ },
            LimitRequest::Finish => LimitRequestView::Finish,
            LimitRequest::Fail { message, with_error } => LimitRequestView::Fail {
                message: message@,
                with_error: *with_error,
            },
        }
    }
}

/// What the fixture's preparation of a limit probe answered.
pub enum LimitPreparation {
    /// The hook failed.
    Failed,
    /// The fixture cannot prepare the creation, for this reason.
    Unavailable(String),
    /// The creation does not apply to the fixture, for this reason.
    NotApplicable(String),
    /// The creation is ready.
    Ready {
        /// The path to write.
        path: String,
        /// The bytes the case writes.
        bytes: Vec<u8>,
        /// Whether the case's disposition creates the file.
        creates: bool,
    },
}

/// The answer to the pending write limit request.
pub enum LimitEvent {
    /// The fixture's preparation answered.
    Prepared(LimitPreparation),
    /// Writing and committing answered: the byte count the commit reported,
    /// or the error.
    Written(Result<Option<u64>, ErrorFacts>),
    /// A content observation answered.
    Read(Contents),
}

/// The abstract form of a preparation answer.
pub enum LimitPreparationView {
    /// Failed.
    Failed,
    /// Unavailable, for this reason.
    Unavailable(Seq<char>),
    /// Not applicable, for this reason.
    NotApplicable(Seq<char>),
    /// Ready.
    Ready { path: Seq<char>, bytes: Seq<u8>, creates: bool },
}

/// The abstract form of a write limit answer.
pub enum LimitEventView {
    /// A preparation answer.
    Prepared(LimitPreparationView),
    /// A write answer.
    Written(Result<Option<u64>, ErrorFactsView>),
    /// A content observation.
    Read(ContentsView),
}

impl View for LimitEvent {
    type V = LimitEventView;

    open spec fn view(&self) -> LimitEventView {
        match self {
            LimitEvent::Prepared(LimitPreparation::Failed) => LimitEventView::Prepared(LimitPreparationView::Failed),
            LimitEvent::Prepared(LimitPreparation::Unavailable(reason)) => LimitEventView::Prepared(
                LimitPreparationView::Unavailable(reason@),
            ),
            LimitEvent::Prepared(LimitPreparation::NotApplicable(reason)) => LimitEventView::Prepared(
                LimitPreparationView::NotApplicable(reason@),
            ),
            LimitEvent::Prepared(LimitPreparation::Ready { path, bytes, creates }) => LimitEventView::Prepared(
                LimitPreparationView::Ready { path: path@, bytes: bytes@, creates: *creates },
            ),
            LimitEvent::Written(Ok(count)) => LimitEventView::Written(Ok(*count)),
            LimitEvent::Written(Err(error)) => LimitEventView::Written(Err(error@)),
            LimitEvent::Read(contents) => LimitEventView::Read(contents@),
        }
    }
}

/// The request the write limit check waits on.
#[derive(Clone, Copy, Debug, PartialEq, Eq, Structural)]
pub enum LimitStage {
    /// The fixture prepares the boundary creation.
    PrepareAt,
    /// The boundary payload is written.
    WriteAt,
    /// The boundary file is read.
    ReadAt,
    /// The fixture prepares the successor creation.
    PrepareOver,
    /// The successor payload is written.
    WriteOver,
    /// The check has finished.
    Finished,
}

/// The abstract state of the write limit check.
pub struct LimitView {
    /// The provider identity errors must report.
    pub provider: Seq<char>,
    /// The declared largest write.
    pub maximum: u64,
    /// The successor size.
    pub over: u64,
    /// The path written last, once known.
    pub path: Seq<char>,
    /// The stage.
    pub stage: LimitStage,
}

/// Drives the write limit check.
pub struct WriteLimitProbe {
    provider: String,
    maximum: u64,
    over: u64,
    path: String,
    stage: LimitStage,
}

impl View for WriteLimitProbe {
    type V = LimitView;

    closed spec fn view(&self) -> LimitView {
        LimitView {
            provider: self.provider@,
            maximum: self.maximum,
            over: self.over,
            path: self.path@,
            stage: self.stage,
        }
    }
}

/// A payload of `len` probe bytes.
pub open spec fn filled(len: u64) -> Seq<u8> {
    Seq::new(len as nat, |i: int| LIMIT_FILL)
}

/// The bounded probe plan for a declared largest write: the limit and its
/// successor, when the limit is finite and below the probe budget.
pub open spec fn probe_plan(maximum: Option<u64>, budget: u64) -> Option<(u64, u64)> {
    match maximum {
        Some(limit) => if limit < budget {
            Some((limit, (limit + 1) as u64))
        } else {
            None
        },
        None => None,
    }
}

/// Returns the bounded probe plan for a declared largest write.
pub fn bounded_probe_plan(maximum: Option<u64>, budget: u64) -> (plan: Option<(u64, u64)>)
    ensures
        plan == probe_plan(maximum, budget),
{
    match maximum {
        Some(limit) => if limit < budget {
            Some((limit, limit + 1))
        } else {
            None
        },
        None => None,
    }
}

/// The capability the write limit check is recorded under.
pub open spec fn limit_capability() -> Option<FileSystemCapability> {
    Some(FileSystemCapability::Write)
}

/// The start of the write limit check over the suite context, in the
/// current phase, given the bounded probe plan: the boundary size and its
/// successor, or `None` when the limit is not finite or exceeds the probe
/// budget, which skips the check.
pub open spec fn limit_start(plan: Option<(u64, u64)>, provider: Seq<char>, ctx: ContextView) -> (
    LimitView,
    ContextView,
    LimitRequestView,
) {
    match plan {
        None => (
            LimitView { provider, maximum: 0, over: 0, path: Seq::empty(), stage: LimitStage::Finished },
            with_recorded(
                ctx,
                ContractCheckId::WriteLimit,
                limit_capability(),
                OutcomeView::SkippedOptional {
                    reason: "write limit is not finite or exceeds the bounded probe budget"@,
                },
            ),
            LimitRequestView::Finish,
        ),
        Some((maximum, over)) => (
            LimitView { provider, maximum, over, path: Seq::empty(), stage: LimitStage::PrepareAt },
            ctx,
            LimitRequestView::PrepareWrite { name: relative_in(ctx, "async-write-limit-at"@), len: maximum },
        ),
    }
}

/// The kind of answer a stage waits for.
pub open spec fn limit_answers(stage: LimitStage, event: LimitEventView) -> bool {
    match stage {
        LimitStage::PrepareAt | LimitStage::PrepareOver => event is Prepared,
        LimitStage::WriteAt | LimitStage::WriteOver => event is Written,
        LimitStage::ReadAt => event is Read,
        LimitStage::Finished => false,
    }
}

/// Whether the successor was refused exactly: for exceeding a resource
/// limit, on its path, naming the provider.
pub open spec fn limit_refusal_exact(error: ErrorFactsView, path: Seq<char>, provider: Seq<char>) -> bool {
    &&& error.kind == ErrorKind::ResourceLimitExceeded
    &&& error.path == Some(path)
    &&& error.provider == Some(provider)
}

/// The transition of the write limit check at `p.stage` on `event`.
pub open spec fn limit_step(p: LimitView, ctx: ContextView, event: LimitEventView) -> (
    LimitView,
    ContextView,
    LimitRequestView,
) {
    let done = LimitView { stage: LimitStage::Finished, ..p };
    let fail = |message: Seq<char>, with_error: bool| (done, ctx, LimitRequestView::Fail { message, with_error });
    let record = |outcome: OutcomeView| (
        done,
        with_recorded(ctx, ContractCheckId::WriteLimit, limit_capability(), outcome),
        LimitRequestView::Finish,
    );
    let len = if p.stage == LimitStage::PrepareAt {
        p.maximum
    } else {
        p.over
    };
    match (p.stage, event) {
        (LimitStage::PrepareAt, LimitEventView::Prepared(preparation))
        | (LimitStage::PrepareOver, LimitEventView::Prepared(preparation)) => match preparation {
            LimitPreparationView::Failed => fail("write limit preparation failed"@, true),
            LimitPreparationView::Unavailable(reason) => record(OutcomeView::SkippedOptional { reason }),
            LimitPreparationView::NotApplicable(reason) => record(
                OutcomeView::Unverified { reason: "finite Write capability requires boundary evidence: "@ + reason },
            ),
            LimitPreparationView::Ready { path, bytes, creates } => if bytes != filled(len) || !creates {
                fail("write limit fixture changed creation semantics"@, false)
            } else {
                (
                    LimitView {
                        path,
                        stage: if p.stage == LimitStage::PrepareAt {
                            LimitStage::WriteAt
                        } else {
                            LimitStage::WriteOver
                        },
                        ..p
                    },
                    with_created(ctx, path),
                    LimitRequestView::WriteFile { path },
                )
            },
        },
        (LimitStage::WriteAt, LimitEventView::Written(Ok(count))) => if count is Some && count != Some(p.maximum) {
            fail("write boundary byte count differs"@, false)
        } else {
            (LimitView { stage: LimitStage::ReadAt, ..p }, ctx, LimitRequestView::Read { path: p.path })
        },
        (LimitStage::WriteAt, _) => fail("write boundary request failed"@, true),
        (LimitStage::ReadAt, LimitEventView::Read(ContentsView::Failed)) => fail(
            "write boundary observation failed"@,
            true,
        ),
        (LimitStage::ReadAt, LimitEventView::Read(contents)) => if contents == ContentsView::Bytes(filled(p.maximum)) {
            (
                LimitView { stage: LimitStage::PrepareOver, ..p },
                ctx,
                LimitRequestView::PrepareWrite { name: relative_in(ctx, "async-write-limit-over"@), len: p.over },
            )
        } else {
            fail("write boundary published bytes differ or independent evidence is unavailable"@, false)
        },
        (LimitStage::WriteOver, LimitEventView::Written(Err(error))) => if limit_refusal_exact(
            error,
            p.path,
            p.provider,
        ) {
            record(OutcomeView::Passed)
        } else {
            fail("write limit rejection differs"@, true)
        },
        (LimitStage::WriteOver, _) => fail("write limit successor was accepted"@, false),
        (_, _) => (p, ctx, LimitRequestView::Finish),
    }
}

/// The write limit check passes only when the successor write is refused
/// for its size with exact context, and asks for the successor only after
/// the boundary file was read back holding exactly the boundary payload.
pub proof fn law_limit_passes_only_on_refused_successor(p: LimitView, ctx: ContextView, event: LimitEventView)
    requires
        limit_answers(p.stage, event),
    ensures
        p.stage == LimitStage::WriteOver && limit_step(p, ctx, event).2 is Finish ==> (
        event matches LimitEventView::Written(Err(error)) && limit_refusal_exact(error, p.path, p.provider))
            && limit_step(p, ctx, event).1 == with_recorded(
            ctx,
            ContractCheckId::WriteLimit,
            limit_capability(),
            OutcomeView::Passed,
        ),
        p.stage == LimitStage::ReadAt && limit_step(p, ctx, event).2 is PrepareWrite ==> event
            == LimitEventView::Read(ContentsView::Bytes(filled(p.maximum))),
{
}

/// The boundary write goes on to the read-back only when it committed and
/// reported either no byte count or exactly the declared maximum; any
/// other count fails the check.
pub proof fn law_boundary_write_keeps_exact_count(p: LimitView, ctx: ContextView, event: LimitEventView)
    requires
        p.stage == LimitStage::WriteAt,
        limit_answers(p.stage, event),
    ensures
        !(limit_step(p, ctx, event).2 is Fail) ==> (event matches LimitEventView::Written(Ok(count)) && (count
            is None || count == Some(p.maximum))),
        forall|n: u64|
            n != p.maximum ==> #[trigger] limit_step(p, ctx, LimitEventView::Written(Ok(Some(n)))).2
                == (LimitRequestView::Fail { message: "write boundary byte count differs"@, with_error: false }),
{
}

/// The write limit check is recorded as passed only when the successor
/// write of one byte over the maximum is refused for exceeding a resource
/// limit, on its path, naming the provider.
pub proof fn law_limit_pass_needs_limit_refusal(p: LimitView, ctx: ContextView, event: LimitEventView)
    requires
        p.stage == LimitStage::WriteOver,
        limit_answers(p.stage, event),
        !(limit_step(p, ctx, event).2 is Fail),
    ensures
        event matches LimitEventView::Written(Err(error)) && {
            &&& error.kind == ErrorKind::ResourceLimitExceeded
            &&& error.path == Some(p.path)
            &&& error.provider == Some(p.provider)
        },
        limit_step(p, ctx, event).1 == with_recorded(
            ctx,
            ContractCheckId::WriteLimit,
            limit_capability(),
            OutcomeView::Passed,
        ),
{
}

impl WriteLimitProbe {
    /// Starts the write limit check in the suite context, given the bounded
    /// probe plan and the provider identity; returns the probe with its
    /// first request.
    pub fn new(ctx: &mut ContractContext, plan: Option<(u64, u64)>, provider: String) -> (started: (
        WriteLimitProbe,
        LimitRequest,
    ))
        ensures
            (started.0@, final(ctx)@, started.1@) == limit_start(plan, provider@, old(ctx)@),
    {
        match plan {
            None => {
                ctx.record_check(
                    ContractCheckId::WriteLimit,
                    Some(FileSystemCapability::Write),
                    ContractCheckOutcome::SkippedOptional {
                        reason: String::from_str("write limit is not finite or exceeds the bounded probe budget"),
                    },
                );
                let probe = WriteLimitProbe {
                    provider,
                    maximum: 0,
                    over: 0,
                    path: String::new(),
                    stage: LimitStage::Finished,
                };
                (probe, LimitRequest::Finish)
            },
            Some((maximum, over)) => {
                let name = ctx.relative_name("async-write-limit-at");
                let probe = WriteLimitProbe { provider, maximum, over, path: String::new(), stage: LimitStage::PrepareAt };
                (probe, LimitRequest::PrepareWrite { name, len: maximum })
            },
        }
    }

    /// Returns the request the check waits on.
    pub fn stage(&self) -> (stage: LimitStage)
        ensures
            stage == self@.stage,
    {
        self.stage
    }

    /// Returns whether `event` is the kind of answer the check waits for.
    pub fn expects(&self, event: &LimitEvent) -> (answered: bool)
        ensures
            answered == limit_answers(self@.stage, event@),
    {
        match self.stage {
            LimitStage::PrepareAt | LimitStage::PrepareOver => matches!(event, LimitEvent::Prepared(_)),
            LimitStage::WriteAt | LimitStage::WriteOver => matches!(event, LimitEvent::Written(_)),
            LimitStage::ReadAt => matches!(event, LimitEvent::Read(_)),
            LimitStage::Finished => false,
        }
    }

    /// Ends the check with the failure `message`.
    fn fail(&mut self, message: &'static str, with_error: bool) -> (request: LimitRequest)
        ensures
            final(self)@ == (LimitView { stage: LimitStage::Finished, ..old(self)@ }),
            request@ == (LimitRequestView::Fail { message: message@, with_error }),
    {
        self.stage = LimitStage::Finished;
        LimitRequest::Fail { message, with_error }
    }

    /// Ends the check by recording `outcome`.
    fn record(&mut self, ctx: &mut ContractContext, outcome: ContractCheckOutcome) -> (request: LimitRequest)
        ensures
            final(self)@ == (LimitView { stage: LimitStage::Finished, ..old(self)@ }),
            final(ctx)@ == with_recorded(old(ctx)@, ContractCheckId::WriteLimit, limit_capability(), outcome@),
            request@ == LimitRequestView::Finish,
    {
        self.stage = LimitStage::Finished;
        ctx.record_check(ContractCheckId::WriteLimit, Some(FileSystemCapability::Write), outcome);
        LimitRequest::Finish
    }

    /// Returns whether `bytes` are exactly `len` probe bytes.
    fn is_filled(bytes: &Vec<u8>, len: u64) -> (same: bool)
        ensures
            same == (bytes@ == filled(len)),
    {
        if bytes.len() as u64 != len {
            proof {
                if bytes@ == filled(len) {
                    assert(bytes@.len() == len);
                }
            }
            return false;
        }
        let mut index: usize = 0;
        while index < bytes.len()
            invariant
                bytes.len() == len,
                index <= bytes.len(),
                forall|j: int| 0 <= j < index ==> bytes@[j] == LIMIT_FILL,
            decreases bytes.len() - index,
        {
            if bytes[index] != LIMIT_FILL {
                proof {
                    if bytes@ == filled(len) {
                        assert(filled(len)[index as int] == LIMIT_FILL);
                    }
                }
                return false;
            }
            index = index + 1;
        }
        assert(bytes@ =~= filled(len));
        true
    }

    /// Takes the answer to the pending request, records what the step
    /// names in the suite context, and returns the next request.
    pub fn advance(&mut self, ctx: &mut ContractContext, event: LimitEvent) -> (request: LimitRequest)
        requires
            limit_answers(old(self)@.stage, event@),
        ensures
            (final(self)@, final(ctx)@, request@) == limit_step(old(self)@, old(ctx)@, event@),
    {
        match self.stage {
            LimitStage::PrepareAt | LimitStage::PrepareOver => {
                let at = match self.stage {
                    LimitStage::PrepareAt => true,
                    _ => false,
                };
                let len = if at {
                    self.maximum
                } else {
                    self.over
                };
                match event {
                    LimitEvent::Prepared(LimitPreparation::Unavailable(reason)) => self.record(
                        ctx,
                        ContractCheckOutcome::SkippedOptional { reason },
                    ),
                    LimitEvent::Prepared(LimitPreparation::NotApplicable(reason)) => {
                        let mut text = String::from_str("finite Write capability requires boundary evidence: ");
                        text.append(reason.as_str());
                        self.record(ctx, ContractCheckOutcome::Unverified { reason: text })
                    },
                    LimitEvent::Prepared(LimitPreparation::Ready { path, bytes, creates }) => {
                        if !Self::is_filled(&bytes, len) || !creates {
                            return self.fail("write limit fixture changed creation semantics", false);
                        }
                        ctx.record_created(path.clone());
                        self.path = path;
                        self.stage = if at {
                            LimitStage::WriteAt
                        } else {
                            LimitStage::WriteOver
                        };
                        LimitRequest::WriteFile { path: self.path.clone() }
                    },
                    _ => self.fail("write limit preparation failed", true),
                }
            },
            LimitStage::WriteAt => match event {
                LimitEvent::Written(Ok(count)) => {
                    let mismatch = match count {
                        Some(count) => count != self.maximum,
                        None => false,
                    };
                    if mismatch {
                        self.fail("write boundary byte count differs", false)
                    } else {
                        self.stage = LimitStage::ReadAt;
                        LimitRequest::Read { path: self.path.clone() }
                    }
                },
                _ => self.fail("write boundary request failed", true),
            },
            LimitStage::ReadAt => match event {
                LimitEvent::Read(Contents::Failed) => self.fail("write boundary observation failed", true),
                LimitEvent::Read(Contents::Bytes(bytes)) => if Self::is_filled(&bytes, self.maximum) {
                    self.stage = LimitStage::PrepareOver;
                    let name = ctx.relative_name("async-write-limit-over");
                    LimitRequest::PrepareWrite { name, len: self.over }
                } else {
                    self.fail("write boundary published bytes differ or independent evidence is unavailable", false)
                },
                _ => self.fail("write boundary published bytes differ or independent evidence is unavailable", false),
            },
            LimitStage::WriteOver => match event {
                LimitEvent::Written(Err(error)) => {
                    let exact = error.kind == ErrorKind::ResourceLimitExceeded && text_is(&error.path, &self.path)
                        && text_is(&error.provider, &self.provider);
                    if exact {
                        self.record(ctx, ContractCheckOutcome::Passed)
                    } else {
                        self.fail("write limit rejection differs", true)
                    }
                },
                _ => self.fail("write limit successor was accepted", false),
            },
            LimitStage::Finished => LimitRequest::Finish,
        }
    }
}

} // verus!
