//! Independent basic copy and operation execution evidence, as a step
//! machine: the driver performs each request against the file system under
//! test and hands the answer back.
use vstd::prelude::*;
use vstd::string::StringSliceAdditionalSpecFns;

use crate::capability::FileSystemCapability;
use crate::contract_check_id::ContractCheckId;
use crate::contract_check_outcome::ContractCheckOutcome;
use crate::contract_check_outcome::OutcomeView;
use crate::contract_context::ContextView;
use crate::contract_context::ContractContext;
use crate::contract_context::begun;
use crate::contract_context::relative_in;
use crate::contract_context::with_created;
use crate::contract_context::with_recorded;
use crate::fs_facts::Contents;
use crate::fs_facts::ContentsView;
use crate::fs_facts::ErrorFacts;
use crate::fs_facts::ErrorFactsView;
use crate::fs_facts::ErrorKind;
use crate::fs_facts::OperationKind;
use crate::fs_facts::holds_bytes;
use crate::fs_facts::text_is;
use crate::fs_facts::text_of;

verus! {

/// The next thing the driver does for a basic copy check.
#[derive(Debug, PartialEq, Eq)]
pub enum CopyRequest {
    /// Resolve this fixture-relative name to a provider path.
    ResolvePath {
        /// The fixture-relative name.
        name: String,
    },
    /// Begin a file copy from `source` to `target` and execute it, where a
    /// missing prerequisite must make the facade reject it.
    BeginRejectedCopy {
        /// The source path.
        source: String,
        /// The target path.
        target: String,
    },
    /// Ask the fixture to prepare a basic file copy between these
    /// fixture-relative names, with the UTF-8 bytes of `contents` at the
    /// source.
    PrepareCopy {
        /// The fixture-relative source name.
        source: String,
        /// The fixture-relative target name.
        target: String,
        /// The text whose bytes the source holds.
        contents: &'static str,
    },
    /// Read the bytes at `path` out of band.
    Read {
        /// The path.
        path: String,
    },
    /// Begin a file copy from `source` to `target`, then create one
    /// execution future and drop it unpolled.
    BeginCopy {
        /// The source path.
        source: String,
        /// The target path.
        target: String,
    },
    /// Execute the admitted copy operation.
    Execute,
    /// Execute the completed copy operation once more.
    ExecuteAgain,
    /// The check was recorded.
    Finish,
    /// The check failed with `message`.
    Fail {
        /// The diagnostic.
        message: &'static str,
        /// Whether the error just answered is attached as the source.
        with_error: bool,
    },
}

/// The abstract form of a basic copy request.
pub enum CopyRequestView {
    /// Resolve a name.
    ResolvePath { name: Seq<char> },
    /// Begin and execute a copy that must be rejected.
    BeginRejectedCopy { source: Seq<char>, target: Seq<char> },
    /// Prepare a copy.
    PrepareCopy { source: Seq<char>, target: Seq<char>, contents: Seq<char> },
    /// Read a path.
    Read { path: Seq<char> },
    /// Begin a copy.
    BeginCopy { source: Seq<char>, target: Seq<char> },
    /// Execute the copy.
    Execute,
    /// Execute the copy once more.
    ExecuteAgain,
    /// The check was recorded.
    Finish,
    /// The check failed.
    Fail { message: Seq<char>, with_error: bool },
}

impl View for CopyRequest {
    type V = CopyRequestView;

    open spec fn view(&self) -> CopyRequestView {
        match self {
            CopyRequest::ResolvePath { name } => CopyRequestView::ResolvePath { name: name@ },
            CopyRequest::BeginRejectedCopy { source, target } => CopyRequestView::BeginRejectedCopy {
                source: source@,
                target: target@,
            },
            CopyRequest::PrepareCopy { source, target, contents } => CopyRequestView::PrepareCopy {
                source: source@,
                target: target@,
                contents: contents@,
            },
            CopyRequest::Read { path } => CopyRequestView::Read { path: path@ },
            CopyRequest::BeginCopy { source, target } => CopyRequestView::BeginCopy { source: source@, target: target@ },
            CopyRequest::Execute => CopyRequestView::Execute,
            CopyRequest::ExecuteAgain => CopyRequestView::ExecuteAgain,
            CopyRequest::Finish => CopyRequestView::Finish,
            CopyRequest::Fail { message, with_error } => CopyRequestView::Fail {
                message: message@,
                with_error: *with_error,
            },
        }
    }
}

/// A rejected copy: the facade error and whether the failure reports that
/// nothing changed.
pub struct CopyRejection {
    /// The error.
    pub error: ErrorFacts,
    /// Whether the failure state is "unchanged".
    pub unchanged: bool,
}

/// What the fixture's copy preparation answered.
pub enum CopyPreparation {
    /// The preparation hook failed.
    Failed,
    /// The fixture cannot prepare the copy, for this reason.
    Unavailable(String),
    /// The copy does not apply to the fixture, for this reason.
    NotApplicable(String),
    /// The copy is ready between these paths; `file_options` tells whether
    /// the prepared options are the plain file-copy options.
    Ready {
        /// The source path.
        source: String,
        /// The target path.
        target: String,
        /// Whether the options are the plain file-copy options.
        file_options: bool,
    },
}

/// The operation's state after an execution future was dropped unpolled.
#[derive(Clone, Copy, Debug, PartialEq, Eq, Structural)]
pub struct UnpolledFacts {
    /// Whether the operation is still ready.
    pub ready: bool,
    /// Whether the operation holds a recovery handle.
    pub recovery: bool,
}

/// A successful copy as the facade reported it.
#[derive(Clone, Copy, Debug, PartialEq, Eq, Structural)]
pub struct CopyOutcomeFacts {
    /// The bytes copied.
    pub bytes: u64,
    /// The files copied.
    pub files: u64,
    /// The objects copied.
    pub objects: u64,
    /// Whether the copy fell back to streaming.
    pub used_fallback: bool,
    /// Whether the reported method is streaming.
    pub streamed: bool,
    /// Whether the operation reports completion afterwards.
    pub completed: bool,
}

/// A repeated execution that failed, as the facade reported it.
#[derive(Clone, Copy, Debug, PartialEq, Eq, Structural)]
pub struct RepeatFacts {
    /// The error's classification.
    pub kind: ErrorKind,
    /// Whether the failure state is "published".
    pub published: bool,
    /// Whether the failure's partial statistics equal the completed ones.
    pub same_stats: bool,
    /// Whether the operation still reports completion.
    pub completed: bool,
}

/// The answer to the pending basic copy request.
pub enum CopyEvent {
    /// The resolved path, or `None` when the fixture could not map it.
    Resolved(Option<String>),
    /// The copy that had to be rejected: its rejection, or `None` when it
    /// succeeded.
    Rejected(Option<CopyRejection>),
    /// The fixture's preparation answered.
    Prepared(CopyPreparation),
    /// A content observation answered.
    Read(Contents),
    /// The copy was admitted and left as this, or `None` when admission
    /// failed.
    Admitted(Option<UnpolledFacts>),
    /// The execution answered: the outcome, or `None` when it failed.
    Executed(Option<CopyOutcomeFacts>),
    /// The repeated execution answered: its failure, or `None` when it
    /// succeeded.
    Repeated(Option<RepeatFacts>),
}

/// The abstract form of a preparation answer.
pub enum PreparationView {
    /// The hook failed.
    Failed,
    /// The copy cannot be prepared or does not apply, for this reason.
    Skipped(Seq<char>),
    /// The copy is ready.
    Ready { source: Seq<char>, target: Seq<char>, file_options: bool },
}

/// The abstract form of a basic copy answer.
pub enum CopyEventView {
    /// A resolved path.
    Resolved(Option<Seq<char>>),
    /// A rejection, or `None` for a success.
    Rejected(Option<(ErrorFactsView, bool)>),
    /// A preparation answer.
    Prepared(PreparationView),
    /// A content observation.
    Read(ContentsView),
    /// An admission answer.
    Admitted(Option<UnpolledFacts>),
    /// An execution answer.
    Executed(Option<CopyOutcomeFacts>),
    /// A repeated execution answer.
    Repeated(Option<RepeatFacts>),
}

impl View for CopyEvent {
    type V = CopyEventView;

    open spec fn view(&self) -> CopyEventView {
        match self {
            CopyEvent::Resolved(path) => CopyEventView::Resolved(text_of(*path)),
            CopyEvent::Rejected(None) => CopyEventView::Rejected(None),
            CopyEvent::Rejected(Some(rejection)) => CopyEventView::Rejected(
                Some((rejection.error@, rejection.unchanged)),
            ),
            CopyEvent::Prepared(CopyPreparation::Failed) => CopyEventView::Prepared(PreparationView::Failed),
            CopyEvent::Prepared(CopyPreparation::Unavailable(reason)) => CopyEventView::Prepared(
                PreparationView::Skipped(reason@),
            ),
            CopyEvent::Prepared(CopyPreparation::NotApplicable(reason)) => CopyEventView::Prepared(
                PreparationView::Skipped(reason@),
            ),
            CopyEvent::Prepared(CopyPreparation::Ready { source, target, file_options }) => CopyEventView::Prepared(
                PreparationView::Ready { source: source@, target: target@, file_options: *file_options },
            ),
            CopyEvent::Read(contents) => CopyEventView::Read(contents@),
            CopyEvent::Admitted(facts) => CopyEventView::Admitted(*facts),
            CopyEvent::Executed(facts) => CopyEventView::Executed(*facts),
            CopyEvent::Repeated(facts) => CopyEventView::Repeated(*facts),
        }
    }
}

/// The request a basic copy check waits on, in the order it moves through
/// them.
#[derive(Clone, Copy, Debug, PartialEq, Eq, Structural)]
pub enum CopyStage {
    /// The target path is being resolved.
    ResolveTarget,
    /// The source path of a copy that must be rejected is being resolved.
    ResolveSource,
    /// The copy that must be rejected is running.
    Rejected,
    /// The fixture prepares the copy.
    Prepare,
    /// The source is read before the copy.
    ReadBefore,
    /// The copy is being admitted.
    Admit,
    /// The copy executes.
    Execute,
    /// The source is read after the first execution.
    InitialSource,
    /// The target is read after the first execution.
    InitialTarget,
    /// The copy executes once more.
    Repeat,
    /// The source is read at the end.
    FinalSource,
    /// The target is read at the end.
    FinalTarget,
    /// The check has finished.
    Finished,
}

/// The abstract state of a basic copy check.
pub struct CopyView {
    /// The check.
    pub id: ContractCheckId,
    /// The first of read, write and copy that is not advertised.
    pub missing: Option<FileSystemCapability>,
    /// Whether the fixture copies by streaming only.
    pub fallback_only: bool,
    /// The provider identity errors must report.
    pub provider: Seq<char>,
    /// The fixture-relative source name.
    pub source_name: Seq<char>,
    /// The fixture-relative target name.
    pub target_name: Seq<char>,
    /// The source path, once known.
    pub source: Seq<char>,
    /// The target path, once known.
    pub target: Seq<char>,
    /// The stage.
    pub stage: CopyStage,
}

/// Drives one basic copy check: a copy whose prerequisites are missing must
/// be rejected with exact context, and a prepared file copy must move the
/// source bytes, report consistent evidence, complete the operation, and
/// refuse a second execution without losing its facts.
pub struct BasicCopyProbe {
    id: ContractCheckId,
    missing: Option<FileSystemCapability>,
    fallback_only: bool,
    provider: String,
    source_name: String,
    target_name: String,
    source: String,
    target: String,
    stage: CopyStage,
}

impl View for BasicCopyProbe {
    type V = CopyView;

    closed spec fn view(&self) -> CopyView {
        CopyView {
            id: self.id,
            missing: self.missing,
            fallback_only: self.fallback_only,
            provider: self.provider@,
            source_name: self.source_name@,
            target_name: self.target_name@,
            source: self.source@,
            target: self.target@,
            stage: self.stage,
        }
    }
}

/// The bytes a basic copy moves.
pub open spec fn copy_bytes() -> Seq<u8> {
    "copy bytes".spec_bytes()
}

/// The first of read, write and copy that is not advertised.
pub open spec fn first_missing(read: bool, write: bool, copy: bool) -> Option<FileSystemCapability> {
    if !read {
        Some(FileSystemCapability::Read)
    } else if !write {
        Some(FileSystemCapability::Write)
    } else if !copy {
        Some(FileSystemCapability::Copy)
    } else {
        None
    }
}

/// Whether a check is one of the basic copy checks.
pub open spec fn basic_copy_check(id: ContractCheckId) -> bool {
    id == ContractCheckId::CopyBasic || id == ContractCheckId::CopyRepeatedExecute
}

/// The start of a basic copy check over the suite context: a check of
/// another kind fails before any phase begins; otherwise the phase begins
/// and the target name is resolved first.
pub open spec fn copy_start(
    id: ContractCheckId,
    read: bool,
    write: bool,
    copy: bool,
    fallback_only: bool,
    provider: Seq<char>,
    ctx: ContextView,
) -> (CopyView, ContextView, CopyRequestView) {
    let p = CopyView {
        id,
        missing: first_missing(read, write, copy),
        fallback_only,
        provider,
        source_name: Seq::empty(),
        target_name: Seq::empty(),
        source: Seq::empty(),
        target: Seq::empty(),
        stage: CopyStage::Finished,
    };
    if !basic_copy_check(id) {
        (p, ctx, CopyRequestView::Fail { message: "selected entry is not a basic copy check"@, with_error: false })
    } else {
        let ctx = begun(ctx, id.stable_name());
        let source_name = relative_in(ctx, "copy-source"@);
        let target_name = relative_in(ctx, "copy-target"@);
        (
            CopyView { source_name, target_name, stage: CopyStage::ResolveTarget, ..p },
            ctx,
            CopyRequestView::ResolvePath { name: target_name },
        )
    }
}

/// The kind of answer a stage waits for.
pub open spec fn copy_answers(stage: CopyStage, event: CopyEventView) -> bool {
    match stage {
        CopyStage::ResolveTarget | CopyStage::ResolveSource => event is Resolved,
        CopyStage::Rejected => event is Rejected,
        CopyStage::Prepare => event is Prepared,
        CopyStage::Admit => event is Admitted,
        CopyStage::Execute => event is Executed,
        CopyStage::Repeat => event is Repeated,
        CopyStage::Finished => false,
        _ => event is Read,
    }
}

/// Whether a rejected copy reports exactly the missing prerequisite: an
/// unsupported capability of the copy operation, on the target when write
/// is missing and on the source otherwise, naming the target, the missing
/// capability and the provider, with nothing changed.
pub open spec fn rejection_exact(error: ErrorFactsView, unchanged: bool, p: CopyView) -> bool {
    &&& error.kind == ErrorKind::UnsupportedCapability
    &&& error.operation == OperationKind::Copy
    &&& error.path == Some(
        if p.missing == Some(FileSystemCapability::Write) {
            p.target
        } else {
            p.source
        },
    )
    &&& error.target == Some(p.target)
    &&& error.required_capability == p.missing
    &&& error.provider == Some(p.provider)
    &&& unchanged
}

/// The first evidence that a successful copy contradicts, or `None` when
/// it is consistent: the statistics must count the copied bytes and one
/// entry, fallback must coincide with streaming, a fallback-only fixture
/// must stream, and the operation must be complete.
pub open spec fn outcome_flaw(outcome: CopyOutcomeFacts, fallback_only: bool) -> Option<Seq<char>> {
    if outcome.bytes != copy_bytes().len() || outcome.files + outcome.objects != 1 {
        Some("copy statistics differ"@)
    } else if outcome.used_fallback != outcome.streamed {
        Some("copy method and fallback evidence disagree"@)
    } else if fallback_only && !outcome.streamed {
        Some("fallback-only copy reported a native method"@)
    } else if !outcome.completed {
        Some("successful copy did not complete the operation"@)
    } else {
        None
    }
}

/// The first fact that a refused second execution loses, or `None` when it
/// keeps them all: an invalid-state error over a published copy with the
/// completed statistics, leaving the operation complete.
pub open spec fn repeat_flaw(repeat: RepeatFacts) -> Option<(Seq<char>, bool)> {
    if repeat.kind != ErrorKind::InvalidState || !repeat.published || !repeat.same_stats {
        Some(("repeated copy lost completed facts"@, true))
    } else if !repeat.completed {
        Some(("repeat changed completed copy state"@, false))
    } else {
        None
    }
}

/// The reading stage that follows `stage`, with the path it reads.
pub open spec fn next_read(p: CopyView) -> (CopyStage, CopyRequestView) {
    match p.stage {
        CopyStage::InitialSource => (CopyStage::InitialTarget, CopyRequestView::Read { path: p.target }),
        CopyStage::InitialTarget => (CopyStage::Repeat, CopyRequestView::ExecuteAgain),
        CopyStage::FinalSource => (CopyStage::FinalTarget, CopyRequestView::Read { path: p.target }),
        _ => (CopyStage::Finished, CopyRequestView::Finish),
    }
}

/// The diagnostics of a failed or differing observation at a reading stage.
pub open spec fn read_failures(stage: CopyStage) -> (Seq<char>, Seq<char>) {
    match stage {
        CopyStage::ReadBefore => ("copy source observation failed"@, "copy source evidence is unavailable or differs"@),
        CopyStage::InitialSource | CopyStage::InitialTarget => (
            "initial copy observation failed"@,
            "initial copy contents differ or evidence is unavailable"@,
        ),
        _ => (
            "copy contents observation failed"@,
            "copy source or target contents differ or evidence is unavailable"@,
        ),
    }
}

/// The transition of a basic copy check at `p.stage` on `event`.
pub open spec fn copy_step(p: CopyView, ctx: ContextView, event: CopyEventView) -> (
    CopyView,
    ContextView,
    CopyRequestView,
) {
    let done = CopyView { stage: CopyStage::Finished, ..p };
    let fail = |message: Seq<char>, with_error: bool| (done, ctx, CopyRequestView::Fail { message, with_error });
    let copy = Some(FileSystemCapability::Copy);
    match (p.stage, event) {
        (CopyStage::ResolveTarget, CopyEventView::Resolved(Some(target))) => {
            let ctx = with_created(ctx, target);
            let p = CopyView { target, ..p };
            if p.missing is None {
                (
                    CopyView { stage: CopyStage::Prepare, ..p },
                    ctx,
                    CopyRequestView::PrepareCopy {
                        source: p.source_name,
                        target: p.target_name,
                        contents: "copy bytes"@,
                    },
                )
            } else if p.id != ContractCheckId::CopyBasic {
                (
                    CopyView { stage: CopyStage::Finished, ..p },
                    with_recorded(
                        ctx,
                        p.id,
                        copy,
                        OutcomeView::NotApplicable { reason: "copy prerequisites are unavailable"@ },
                    ),
                    CopyRequestView::Finish,
                )
            } else {
                (
                    CopyView { stage: CopyStage::ResolveSource, ..p },
                    ctx,
                    CopyRequestView::ResolvePath { name: p.source_name },
                )
            }
        },
        (CopyStage::ResolveTarget, _) => fail("copy target preparation failed"@, true),
        (CopyStage::ResolveSource, CopyEventView::Resolved(Some(source))) => (
            CopyView { source, stage: CopyStage::Rejected, ..p },
            ctx,
            CopyRequestView::BeginRejectedCopy { source, target: p.target },
        ),
        (CopyStage::ResolveSource, _) => fail("copy source path preparation failed"@, true),
        (CopyStage::Rejected, CopyEventView::Rejected(Some((error, unchanged)))) => if rejection_exact(
            error,
            unchanged,
            p,
        ) {
            (done, with_recorded(ctx, p.id, copy, OutcomeView::RejectedAsExpected), CopyRequestView::Finish)
        } else {
            fail("copy rejection context differs"@, true)
        },
        (CopyStage::Rejected, _) => fail("unsupported copy succeeded"@, false),
        (CopyStage::Prepare, CopyEventView::Prepared(PreparationView::Skipped(reason))) => (
            done,
            with_recorded(ctx, p.id, copy, OutcomeView::Unverified { reason }),
            CopyRequestView::Finish,
        ),
        (CopyStage::Prepare, CopyEventView::Prepared(PreparationView::Ready { source, target, file_options })) => {
            let with_target = with_created(ctx, target);
            let done = CopyView { source, target, ..done };
            if !file_options {
                (
                    done,
                    with_target,
                    CopyRequestView::Fail {
                        message: "basic copy preparation changed required options"@,
                        with_error: false,
                    },
                )
            } else if source == target {
                (
                    done,
                    with_created(with_target, source),
                    CopyRequestView::Fail { message: "copy source and target alias"@, with_error: false },
                )
            } else {
                (
                    CopyView { stage: CopyStage::ReadBefore, ..done },
                    with_created(with_target, source),
                    CopyRequestView::Read { path: source },
                )
            }
        },
        (CopyStage::Prepare, _) => fail("copy source preparation failed"@, true),
        (CopyStage::Admit, CopyEventView::Admitted(Some(unpolled))) => if unpolled.ready && !unpolled.recovery {
            (CopyView { stage: CopyStage::Execute, ..p }, ctx, CopyRequestView::Execute)
        } else {
            fail("unpolled copy changed operation state"@, false)
        },
        (CopyStage::Admit, _) => fail("copy admission failed"@, true),
        (CopyStage::Execute, CopyEventView::Executed(Some(outcome))) => match outcome_flaw(
            outcome,
            p.fallback_only,
        ) {
            Some(message) => fail(message, false),
            None => (
                CopyView {
                    stage: if p.id == ContractCheckId::CopyRepeatedExecute {
                        CopyStage::InitialSource
                    } else {
                        CopyStage::FinalSource
                    },
                    ..p
                },
                ctx,
                CopyRequestView::Read { path: p.source },
            ),
        },
        (CopyStage::Execute, _) => fail("copy execution failed"@, true),
        (CopyStage::Repeat, CopyEventView::Repeated(Some(repeat))) => match repeat_flaw(repeat) {
            Some((message, with_error)) => fail(message, with_error),
            None => (CopyView { stage: CopyStage::FinalSource, ..p }, ctx, CopyRequestView::Read { path: p.source }),
        },
        (CopyStage::Repeat, _) => fail("copy executed twice"@, false),
        (CopyStage::Finished, _) => (p, ctx, CopyRequestView::Finish),
        (_, CopyEventView::Read(ContentsView::Failed)) => fail(read_failures(p.stage).0, true),
        (_, CopyEventView::Read(contents)) => if contents != ContentsView::Bytes(copy_bytes()) {
            fail(read_failures(p.stage).1, false)
        } else if p.stage == CopyStage::ReadBefore {
            (
                CopyView { stage: CopyStage::Admit, ..p },
                ctx,
                CopyRequestView::BeginCopy { source: p.source, target: p.target },
            )
        } else if p.stage == CopyStage::FinalTarget {
            (done, with_recorded(ctx, p.id, copy, OutcomeView::Passed), CopyRequestView::Finish)
        } else {
            (CopyView { stage: next_read(p).0, ..p }, ctx, next_read(p).1)
        },
        (_, _) => (p, ctx, CopyRequestView::Finish),
    }
}

/// The stages a basic copy check can reach: only the basic check with a
/// missing prerequisite resolves a source for a copy that must be
/// rejected, and only the repeated-execute check reads between executions
/// and executes twice.
pub open spec fn copy_consistent(p: CopyView) -> bool {
    &&& (p.stage == CopyStage::ResolveSource || p.stage == CopyStage::Rejected) ==> p.id == ContractCheckId::CopyBasic
        && p.missing is Some
    &&& (p.stage == CopyStage::InitialSource || p.stage == CopyStage::InitialTarget || p.stage == CopyStage::Repeat)
        ==> p.id == ContractCheckId::CopyRepeatedExecute
    &&& p.stage != CopyStage::Finished ==> basic_copy_check(p.id)
}

/// Every basic copy check starts in a consistent stage, and every step
/// keeps it consistent: a copy that must be rejected is attempted only by
/// the basic check when a prerequisite is missing, and a second execution
/// only by the repeated-execute check.
pub proof fn law_copy_stages_consistent(
    id: ContractCheckId,
    read: bool,
    write: bool,
    copy: bool,
    fallback_only: bool,
    provider: Seq<char>,
    p: CopyView,
    ctx: ContextView,
    event: CopyEventView,
)
    ensures
        copy_consistent(copy_start(id, read, write, copy, fallback_only, provider, ctx).0),
        copy_consistent(p) && copy_answers(p.stage, event) ==> copy_consistent(copy_step(p, ctx, event).0),
{
}

/// A basic copy check records a pass only when the target, read last,
/// holds the copied bytes; it records an expected rejection only for a
/// rejection that reports exactly the missing prerequisite; and it begins
/// the real copy only after the source was seen holding those bytes.
pub proof fn law_copy_records_only_on_evidence(p: CopyView, ctx: ContextView, event: CopyEventView)
    requires
        copy_answers(p.stage, event),
    ensures
        p.stage == CopyStage::FinalTarget && copy_step(p, ctx, event).2 is Finish ==> event == CopyEventView::Read(
            ContentsView::Bytes(copy_bytes()),
        ) && copy_step(p, ctx, event).1 == with_recorded(
            ctx,
            p.id,
            Some(FileSystemCapability::Copy),
            OutcomeView::Passed,
        ),
        p.stage == CopyStage::Rejected && copy_step(p, ctx, event).2 is Finish ==> (
        event matches CopyEventView::Rejected(Some((error, unchanged))) && rejection_exact(error, unchanged, p))
            && copy_step(p, ctx, event).1 == with_recorded(
            ctx,
            p.id,
            Some(FileSystemCapability::Copy),
            OutcomeView::RejectedAsExpected,
        ),
        copy_step(p, ctx, event).2 is BeginCopy ==> p.stage == CopyStage::ReadBefore && event == CopyEventView::Read(
            ContentsView::Bytes(copy_bytes()),
        ),
{
}

impl BasicCopyProbe {
    /// Starts the basic copy check `id` in the suite context, given whether
    /// read, write and copy are advertised, whether the fixture copies by
    /// streaming only, and the provider identity; returns the probe with its
    /// first request.
    pub fn new(
        ctx: &mut ContractContext,
        id: ContractCheckId,
        read: bool,
        write: bool,
        copy: bool,
        fallback_only: bool,
        provider: String,
    ) -> (started: (BasicCopyProbe, CopyRequest))
        ensures
            (started.0@, final(ctx)@, started.1@) == copy_start(
                id,
                read,
                write,
                copy,
                fallback_only,
                provider@,
                old(ctx)@,
            ),
    {
        let missing = if !read {
            Some(FileSystemCapability::Read)
        } else if !write {
            Some(FileSystemCapability::Write)
        } else if !copy {
            Some(FileSystemCapability::Copy)
        } else {
            None
        };
        let mut probe = BasicCopyProbe {
            id,
            missing,
            fallback_only,
            provider,
            source_name: String::new(),
            target_name: String::new(),
            source: String::new(),
            target: String::new(),
            stage: CopyStage::Finished,
        };
        let basic = match id {
            ContractCheckId::CopyBasic | ContractCheckId::CopyRepeatedExecute => true,
            _ => false,
        };
        if !basic {
            return (probe, CopyRequest::Fail { message: "selected entry is not a basic copy check", with_error: false });
        }
        ctx.begin(id.as_str());
        probe.source_name = ctx.relative_name("copy-source");
        probe.target_name = ctx.relative_name("copy-target");
        probe.stage = CopyStage::ResolveTarget;
        let name = probe.target_name.clone();
        (probe, CopyRequest::ResolvePath { name })
    }

    /// Returns the stage the check waits in.
    pub fn stage(&self) -> (stage: CopyStage)
        ensures
            stage == self@.stage,
    {
        self.stage
    }

    /// Returns whether `event` answers the request the check waits on.
    pub fn expects(&self, event: &CopyEvent) -> (answered: bool)
        ensures
            answered == copy_answers(self@.stage, event@),
    {
        match self.stage {
            CopyStage::ResolveTarget | CopyStage::ResolveSource => matches!(event, CopyEvent::Resolved(_)),
            CopyStage::Rejected => matches!(event, CopyEvent::Rejected(_)),
            CopyStage::Prepare => matches!(event, CopyEvent::Prepared(_)),
            CopyStage::Admit => matches!(event, CopyEvent::Admitted(_)),
            CopyStage::Execute => matches!(event, CopyEvent::Executed(_)),
            CopyStage::Repeat => matches!(event, CopyEvent::Repeated(_)),
            CopyStage::Finished => false,
            _ => matches!(event, CopyEvent::Read(_)),
        }
    }

    /// Ends the check with the failure `message`.
    fn fail(&mut self, message: &'static str, with_error: bool) -> (request: CopyRequest)
        ensures
            final(self)@ == (CopyView { stage: CopyStage::Finished, ..old(self)@ }),
            request@ == (CopyRequestView::Fail { message: message@, with_error }),
    {
        self.stage = CopyStage::Finished;
        CopyRequest::Fail { message, with_error }
    }

    /// Returns whether a rejection reports exactly the missing prerequisite.
    fn rejection_matches(&self, rejection: &CopyRejection) -> (exact: bool)
        ensures
            exact == rejection_exact(rejection.error@, rejection.unchanged, self@),
    {
        let error = &rejection.error;
        let on_target = match self.missing {
            Some(FileSystemCapability::Write) => true,
            _ => false,
        };
        let path_ok = if on_target {
            text_is(&error.path, &self.target)
        } else {
            text_is(&error.path, &self.source)
        };
        let kind_ok = match error.kind {
            ErrorKind::UnsupportedCapability => true,
            _ => false,
        };
        let operation_ok = match error.operation {
            OperationKind::Copy => true,
            _ => false,
        };
        let capability_ok = error.required_capability == self.missing;
        kind_ok && operation_ok && path_ok && text_is(&error.target, &self.target) && capability_ok && text_is(
            &error.provider,
            &self.provider,
        ) && rejection.unchanged
    }

    /// Takes the answer to the pending request, records what the step
    /// names in the suite context, and returns the next request.
    pub fn advance(&mut self, ctx: &mut ContractContext, event: CopyEvent) -> (request: CopyRequest)
        requires
            copy_answers(old(self)@.stage, event@),
        ensures
            (final(self)@, final(ctx)@, request@) == copy_step(old(self)@, old(ctx)@, event@),
    {
        match self.stage {
            CopyStage::ResolveTarget => match event {
                CopyEvent::Resolved(Some(target)) => {
                    ctx.record_created(target.clone());
                    self.target = target;
                    if self.missing.is_none() {
                        self.stage = CopyStage::Prepare;
                        CopyRequest::PrepareCopy {
                            source: self.source_name.clone(),
                            target: self.target_name.clone(),
                            contents: "copy bytes",
                        }
                    } else if self.id != ContractCheckId::CopyBasic {
                        self.stage = CopyStage::Finished;
                        ctx.record_check(
                            self.id,
                            Some(FileSystemCapability::Copy),
                            ContractCheckOutcome::NotApplicable {
                                reason: String::from_str("copy prerequisites are unavailable"),
                            },
                        );
                        CopyRequest::Finish
                    } else {
                        self.stage = CopyStage::ResolveSource;
                        CopyRequest::ResolvePath { name: self.source_name.clone() }
                    }
                },
                _ => self.fail("copy target preparation failed", true),
            },
            CopyStage::ResolveSource => match event {
                CopyEvent::Resolved(Some(source)) => {
                    self.source = source;
                    self.stage = CopyStage::Rejected;
                    CopyRequest::BeginRejectedCopy { source: self.source.clone(), target: self.target.clone() }
                },
                _ => self.fail("copy source path preparation failed", true),
            },
            CopyStage::Rejected => match event {
                CopyEvent::Rejected(Some(rejection)) => if self.rejection_matches(&rejection) {
                    self.stage = CopyStage::Finished;
                    ctx.record_check(
                        self.id,
                        Some(FileSystemCapability::Copy),
                        ContractCheckOutcome::RejectedAsExpected,
                    );
                    CopyRequest::Finish
                } else {
                    self.fail("copy rejection context differs", true)
                },
                _ => self.fail("unsupported copy succeeded", false),
            },
            CopyStage::Prepare => match event {
                CopyEvent::Prepared(CopyPreparation::Unavailable(reason))
                | CopyEvent::Prepared(CopyPreparation::NotApplicable(reason)) => {
                    self.stage = CopyStage::Finished;
                    ctx.record_check(
                        self.id,
                        Some(FileSystemCapability::Copy),
                        ContractCheckOutcome::Unverified { reason },
                    );
                    CopyRequest::Finish
                },
                CopyEvent::Prepared(CopyPreparation::Ready { source, target, file_options }) => {
                    ctx.record_created(target.clone());
                    self.source = source;
                    self.target = target;
                    if !file_options {
                        return self.fail("basic copy preparation changed required options", false);
                    }
                    ctx.record_created(self.source.clone());
                    if self.source == self.target {
                        return self.fail("copy source and target alias", false);
                    }
                    self.stage = CopyStage::ReadBefore;
                    CopyRequest::Read { path: self.source.clone() }
                },
                _ => self.fail("copy source preparation failed", true),
            },
            CopyStage::Admit => match event {
                CopyEvent::Admitted(Some(unpolled)) => if unpolled.ready && !unpolled.recovery {
                    self.stage = CopyStage::Execute;
                    CopyRequest::Execute
                } else {
                    self.fail("unpolled copy changed operation state", false)
                },
                _ => self.fail("copy admission failed", true),
            },
            CopyStage::Execute => match event {
                CopyEvent::Executed(Some(outcome)) => self.settle_execution(outcome),
                _ => self.fail("copy execution failed", true),
            },
            CopyStage::Repeat => match event {
                CopyEvent::Repeated(Some(repeat)) => {
                    if repeat.kind != ErrorKind::InvalidState || !repeat.published || !repeat.same_stats {
                        self.fail("repeated copy lost completed facts", true)
                    } else if !repeat.completed {
                        self.fail("repeat changed completed copy state", false)
                    } else {
                        self.stage = CopyStage::FinalSource;
                        CopyRequest::Read { path: self.source.clone() }
                    }
                },
                _ => self.fail("copy executed twice", false),
            },
            CopyStage::Finished => CopyRequest::Finish,
            _ => match event {
                CopyEvent::Read(contents) => self.settle_read(ctx, contents),
                _ => CopyRequest::Finish,
            },
        }
    }

    /// Settles a successful execution by the evidence it reports.
    fn settle_execution(&mut self, outcome: CopyOutcomeFacts) -> (request: CopyRequest)
        requires
            old(self)@.stage == CopyStage::Execute,
        ensures
            (final(self)@, request@) == ({
                let (p, _, r) = copy_step(old(self)@, arbitrary(), CopyEventView::Executed(Some(outcome)));
                (p, r)
            }),
    {
        let expected = "copy bytes".as_bytes().len() as u64;
        let one_entry = (outcome.files == 1 && outcome.objects == 0) || (outcome.files == 0 && outcome.objects == 1);
        if outcome.bytes != expected || !one_entry {
            self.fail("copy statistics differ", false)
        } else if outcome.used_fallback != outcome.streamed {
            self.fail("copy method and fallback evidence disagree", false)
        } else if self.fallback_only && !outcome.streamed {
            self.fail("fallback-only copy reported a native method", false)
        } else if !outcome.completed {
            self.fail("successful copy did not complete the operation", false)
        } else {
            self.stage = if self.id == ContractCheckId::CopyRepeatedExecute {
                CopyStage::InitialSource
            } else {
                CopyStage::FinalSource
            };
            CopyRequest::Read { path: self.source.clone() }
        }
    }

    /// Settles a content observation at one of the reading stages.
    fn settle_read(&mut self, ctx: &mut ContractContext, contents: Contents) -> (request: CopyRequest)
        requires
            old(self)@.stage == CopyStage::ReadBefore || old(self)@.stage == CopyStage::InitialSource
                || old(self)@.stage == CopyStage::InitialTarget || old(self)@.stage == CopyStage::FinalSource
                || old(self)@.stage == CopyStage::FinalTarget,
        ensures
            (final(self)@, final(ctx)@, request@) == copy_step(old(self)@, old(ctx)@, CopyEventView::Read(contents@)),
    {
        let failed = matches!(contents, Contents::Failed);
        let seen = holds_bytes(&contents, "copy bytes".as_bytes());
        let (failed_message, differs_message) = match self.stage {
            CopyStage::ReadBefore => ("copy source observation failed", "copy source evidence is unavailable or differs"),
            CopyStage::InitialSource | CopyStage::InitialTarget => (
                "initial copy observation failed",
                "initial copy contents differ or evidence is unavailable",
            ),
            _ => ("copy contents observation failed", "copy source or target contents differ or evidence is unavailable"),
        };
        if failed {
            return self.fail(failed_message, true);
        }
        if !seen {
            return self.fail(differs_message, false);
        }
        match self.stage {
            CopyStage::ReadBefore => {
                self.stage = CopyStage::Admit;
                CopyRequest::BeginCopy { source: self.source.clone(), target: self.target.clone() }
            },
            CopyStage::InitialSource => {
                self.stage = CopyStage::InitialTarget;
                CopyRequest::Read { path: self.target.clone() }
            },
            CopyStage::InitialTarget => {
                self.stage = CopyStage::Repeat;
                CopyRequest::ExecuteAgain
            },
            CopyStage::FinalSource => {
                self.stage = CopyStage::FinalTarget;
                CopyRequest::Read { path: self.target.clone() }
            },
            _ => {
                self.stage = CopyStage::Finished;
                ctx.record_check(self.id, Some(FileSystemCapability::Copy), ContractCheckOutcome::Passed);
                CopyRequest::Finish
            },
        }
    }
}

} // verus!
