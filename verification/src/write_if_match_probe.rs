//! Conditional replacement evidence for the If-Match write check, as a
//! step machine: the driver performs each request against the file system
//! under test and hands the answer back.
use vstd::prelude::*;
use vstd::string::StringSliceAdditionalSpecFns;

use crate::capability::FileSystemCapability;
use crate::contract_check_id::ContractCheckId;
use crate::contract_check_outcome::ContractCheckOutcome;
use crate::contract_check_outcome::OutcomeView;
use crate::contract_context::ContextView;
use crate::contract_context::ContractContext;
use crate::contract_context::begun;
use crate::contract_context::relative_in;
use crate::contract_context::with_created;
use crate::contract_context::with_recorded;
use crate::fs_facts::Contents;
use crate::fs_facts::ContentsView;
use crate::fs_facts::ErrorFacts;
use crate::fs_facts::ErrorFactsView;
use crate::fs_facts::ErrorKind;
use crate::fs_facts::OperationKind;
use crate::fs_facts::holds_bytes;
use crate::fs_facts::text_is;
use crate::fs_facts::text_of;
use crate::write_basic_probe::bounded_payload;
use crate::write_basic_probe::payload_under;

verus! {

/// The next thing the driver does for the If-Match write check.
#[derive(Debug, PartialEq, Eq)]
pub enum IfMatchRequest {
    /// Resolve this fixture-relative name to a provider path.
    ResolvePath {
        /// The fixture-relative name.
        name: String,
    },
    /// Open a writer at `path` that requires the version `if_match`, which
    /// must be rejected.
    OpenRejectedWriter {
        /// The path.
        path: String,
        /// The required version.
        if_match: String,
    },
    /// Ask the fixture to prepare a conditional replacement of `bytes`
    /// under this name.
    PrepareWrite {
        /// The fixture-relative name.
        name: String,
        /// The bytes to write.
        bytes: Vec<u8>,
    },
    /// Ask the fixture for the current version of `path`.
    CurrentVersion {
        /// The path.
        path: String,
    },
    /// Ask the fixture for a version that cannot match `path`, then for its
    /// published version.
    PublishedVersions {
        /// The path.
        path: String,
    },
    /// Write `bytes` to `path` with the prepared options, requiring the
    /// version `if_match`, and commit.
    WriteFile {
        /// The path.
        path: String,
        /// The bytes to write.
        bytes: Vec<u8>,
        /// The required version.
        if_match: String,
    },
    /// Read the bytes at `path` out of band.
    Read {
        /// The path.
        path: String,
    },
    /// The check was recorded.
    Finish,
    /// The check failed with `message`.
    Fail {
        /// The diagnostic.
        message: &'static str,
        /// Whether the error just answered is attached as the source.
        with_error: bool,
    },
}

/// The abstract form of an If-Match request.
pub enum IfMatchRequestView {
    /// Resolve a name.
    ResolvePath { name: Seq<char> },
    /// Open a writer that must be rejected.
    OpenRejectedWriter { path: Seq<char>, if_match: Seq<char> },
    /// Prepare a conditional replacement.
    PrepareWrite { name: Seq<char>, bytes: Seq<u8> },
    /// Observe the current version.
    CurrentVersion { path: Seq<char> },
    /// Observe a stale and the published version.
    PublishedVersions { path: Seq<char> },
    /// Write and commit under a version.
    WriteFile { path: Seq<char>, bytes: Seq<u8>, if_match: Seq<char> },
    /// Read a path.
    Read { path: Seq<char> },
    /// The check was recorded.
    Finish,
    /// The check failed.
    Fail { message: Seq<char>, with_error: bool },
}

impl View for IfMatchRequest {
    type V = IfMatchRequestView;

    open spec fn view(&self) -> IfMatchRequestView {
        match self {
            IfMatchRequest::ResolvePath { name } => IfMatchRequestView::ResolvePath { name: name@ },
            IfMatchRequest::OpenRejectedWriter { path, if_match } => IfMatchRequestView::OpenRejectedWriter {
                path: path@,
                if_match: if_match@,
            },
            IfMatchRequest::PrepareWrite { name, bytes } => IfMatchRequestView::PrepareWrite {
                name: name@,
                bytes: bytes@,
            },
            IfMatchRequest::CurrentVersion { path } => IfMatchRequestView::CurrentVersion { path: path@ },
            IfMatchRequest::PublishedVersions { path } => IfMatchRequestView::PublishedVersions { path: path@ },
            IfMatchRequest::WriteFile { path, bytes, if_match } => IfMatchRequestView::WriteFile {
                path: path@,
                bytes: bytes@,
                if_match: if_match@,
            },
            IfMatchRequest::Read { path } => IfMatchRequestView::Read { path: path@ },
            IfMatchRequest::Finish => IfMatchRequestView::Finish,
            IfMatchRequest::Fail { message, with_error } => IfMatchRequestView::Fail {
                message: message@,
                with_error: *with_error,
            },
        }
    }
}

/// What the fixture's conditional write preparation answered.
pub enum IfMatchPreparation {
    /// The preparation hook failed.
    Failed,
    /// The fixture cannot prepare the write, for this reason.
    Unavailable(String),
    /// The write does not apply to the fixture, for this reason.
    NotApplicable(String),
    /// The write is ready.
    Ready {
        /// The path to write.
        path: String,
        /// The bytes the case writes.
        bytes: Vec<u8>,
        /// The version the case's options require, when they require one.
        if_match: Option<String>,
        /// Whether the case's disposition is create-or-replace.
        replaces: bool,
    },
}

/// What a single version observation answered.
pub enum VersionObservation {
    /// The observation failed.
    Failed,
    /// The fixture cannot supply the version.
    Unsupported,
    /// The version.
    Observed(String),
}

/// What the stale and published version observations answered.
pub enum PublishedVersions {
    /// The stale version could not be observed.
    StaleFailed,
    /// The published version could not be observed.
    PublishedFailed,
    /// The fixture cannot supply one of the two versions.
    Unsupported,
    /// A stale version and the published one.
    Observed {
        /// The stale version.
        stale: String,
        /// The published version.
        published: String,
    },
}

/// The answer to the pending If-Match request.
pub enum IfMatchEvent {
    /// The resolved path, or `None` when the fixture could not map it.
    Resolved(Option<String>),
    /// The writer that had to be rejected: its error, or `None` when it
    /// opened.
    OpenRejected(Option<ErrorFacts>),
    /// The fixture's preparation answered.
    Prepared(IfMatchPreparation),
    /// The current version observation answered.
    Current(VersionObservation),
    /// The stale and published version observations answered.
    Published(PublishedVersions),
    /// Writing and committing answered: success, or the error.
    Written(Result<(), ErrorFacts>),
    /// A content observation answered.
    Read(Contents),
}

/// The abstract form of a preparation answer.
pub enum IfMatchPreparationView {
    /// The hook failed.
    Failed,
    /// The write cannot be prepared or does not apply, for this reason.
    Skipped(Seq<char>),
    /// The write is ready.
    Ready { path: Seq<char>, bytes: Seq<u8>, if_match: Option<Seq<char>>, replaces: bool },
}

/// The abstract form of a version observation.
pub enum VersionObservationView {
    /// Failed.
    Failed,
    /// Unsupported.
    Unsupported,
    /// Observed.
    Observed(Seq<char>),
}

/// The abstract form of the stale and published version observations.
pub enum PublishedVersionsView {
    /// The stale version could not be observed.
    StaleFailed,
    /// The published version could not be observed.
    PublishedFailed,
    /// A version is missing.
    Unsupported,
    /// Both versions.
    Observed { stale: Seq<char>, published: Seq<char> },
}

/// The abstract form of an If-Match answer.
pub enum IfMatchEventView {
    /// A resolved path.
    Resolved(Option<Seq<char>>),
    /// An open rejection, or `None` for an opened writer.
    OpenRejected(Option<ErrorFactsView>),
    /// A preparation answer.
    Prepared(IfMatchPreparationView),
    /// A current version answer.
    Current(VersionObservationView),
    /// A stale and published version answer.
    Published(PublishedVersionsView),
    /// A successful write.
    Written,
    /// A refused write.
    Refused(ErrorFactsView),
    /// A content observation.
    Read(ContentsView),
}

impl View for IfMatchEvent {
    type V = IfMatchEventView;

    open spec fn view(&self) -> IfMatchEventView {
        match self {
            IfMatchEvent::Resolved(path) => IfMatchEventView::Resolved(text_of(*path)),
            IfMatchEvent::OpenRejected(None) => IfMatchEventView::OpenRejected(None),
            IfMatchEvent::OpenRejected(Some(error)) => IfMatchEventView::OpenRejected(Some(error@)),
            IfMatchEvent::Prepared(IfMatchPreparation::Failed) => IfMatchEventView::Prepared(
                IfMatchPreparationView::Failed,
            ),
            IfMatchEvent::Prepared(IfMatchPreparation::Unavailable(reason)) => IfMatchEventView::Prepared(
                IfMatchPreparationView::Skipped(reason@),
            ),
            IfMatchEvent::Prepared(IfMatchPreparation::NotApplicable(reason)) => IfMatchEventView::Prepared(
                IfMatchPreparationView::Skipped(reason@),
            ),
            IfMatchEvent::Prepared(IfMatchPreparation::Ready { path, bytes, if_match, replaces }) => IfMatchEventView::Prepared(
                IfMatchPreparationView::Ready {
                    path: path@,
                    bytes: bytes@,
                    if_match: text_of(*if_match),
                    replaces: *replaces,
                },
            ),
            IfMatchEvent::Current(VersionObservation::Failed) => IfMatchEventView::Current(
                VersionObservationView::Failed,
            ),
            IfMatchEvent::Current(VersionObservation::Unsupported) => IfMatchEventView::Current(
                VersionObservationView::Unsupported,
            ),
            IfMatchEvent::Current(VersionObservation::Observed(version)) => IfMatchEventView::Current(
                VersionObservationView::Observed(version@),
            ),
            IfMatchEvent::Published(PublishedVersions::StaleFailed) => IfMatchEventView::Published(
                PublishedVersionsView::StaleFailed,
            ),
            IfMatchEvent::Published(PublishedVersions::PublishedFailed) => IfMatchEventView::Published(
                PublishedVersionsView::PublishedFailed,
            ),
            IfMatchEvent::Published(PublishedVersions::Unsupported) => IfMatchEventView::Published(
                PublishedVersionsView::Unsupported,
            ),
            IfMatchEvent::Published(PublishedVersions::Observed { stale, published }) => IfMatchEventView::Published(
                PublishedVersionsView::Observed { stale: stale@, published: published@ },
            ),
            IfMatchEvent::Written(Ok(())) => IfMatchEventView::Written,
            IfMatchEvent::Written(Err(error)) => IfMatchEventView::Refused(error@),
            IfMatchEvent::Read(contents) => IfMatchEventView::Read(contents@),
        }
    }
}

/// The request the If-Match check waits on.
#[derive(Clone, Copy, Debug, PartialEq, Eq, Structural)]
pub enum IfMatchStage {
    /// The path of a writer that must be rejected is being resolved.
    ResolveRejected,
    /// The writer that must be rejected is opening.
    Rejected,
    /// The fixture prepares the write.
    Prepare,
    /// The current version is observed.
    Current,
    /// The first conditional write runs.
    First,
    /// The first publication is read.
    ReadFirst,
    /// The stale and published versions are observed.
    Versions,
    /// The write with a stale version runs.
    Retry,
    /// The target is read after the stale write.
    ReadAfter,
    /// The check has finished.
    Finished,
}

/// The abstract state of the If-Match check.
pub struct IfMatchView {
    /// The provider identity errors must report.
    pub provider: Seq<char>,
    /// The first payload.
    pub payload: Seq<u8>,
    /// The payload the stale write sends.
    pub unexpected: Seq<u8>,
    /// The target path, once known.
    pub path: Seq<char>,
    /// The bytes the prepared case writes.
    pub case_bytes: Seq<u8>,
    /// The version the prepared case requires, when it requires one.
    pub case_if_match: Option<Seq<char>>,
    /// Whether the prepared case creates or replaces.
    pub case_replaces: bool,
    /// The stage.
    pub stage: IfMatchStage,
}

/// Drives the If-Match write check: without conditional write, requiring a
/// version must be rejected with exact context; with it, a write under the
/// current version publishes, and a write under a stale version is refused
/// and leaves the published bytes in place.
pub struct WriteIfMatchProbe {
    provider: String,
    payload: Vec<u8>,
    unexpected: Vec<u8>,
    path: String,
    case_bytes: Vec<u8>,
    case_if_match: Option<String>,
    case_replaces: bool,
    stage: IfMatchStage,
}

impl View for WriteIfMatchProbe {
    type V = IfMatchView;

    closed spec fn view(&self) -> IfMatchView {
        IfMatchView {
            provider: self.provider@,
            payload: self.payload@,
            unexpected: self.unexpected@,
            path: self.path@,
            case_bytes: self.case_bytes@,
            case_if_match: text_of(self.case_if_match),
            case_replaces: self.case_replaces,
            stage: self.stage,
        }
    }
}

/// The capability the If-Match check is recorded under.
pub open spec fn if_match_capability() -> Option<FileSystemCapability> {
    Some(FileSystemCapability::ConditionalWrite)
}

/// The start of the If-Match check over the suite context: the phase
/// begins; without write it does not apply, without conditional write the
/// rejected path is resolved, and otherwise a conditional replacement of
/// the bounded payload is prepared.
pub open spec fn if_match_start(
    write: bool,
    conditional: bool,
    limit: Option<u64>,
    provider: Seq<char>,
    ctx: ContextView,
) -> (IfMatchView, ContextView, IfMatchRequestView) {
    let ctx = begun(ctx, ContractCheckId::WriteIfMatch.stable_name());
    let name = relative_in(ctx, "write-if-match"@);
    let p = IfMatchView {
        provider,
        payload: payload_under(limit, "conditional".spec_bytes(), 99u8),
        unexpected: payload_under(limit, "unexpected".spec_bytes(), 117u8),
        path: Seq::empty(),
        case_bytes: Seq::empty(),
        case_if_match: None,
        case_replaces: false,
        stage: IfMatchStage::Finished,
    };
    if !write {
        (
            p,
            with_recorded(
                ctx,
                ContractCheckId::WriteIfMatch,
                if_match_capability(),
                OutcomeView::NotApplicable { reason: "Write capability is unavailable"@ },
            ),
            IfMatchRequestView::Finish,
        )
    } else if !conditional {
        (IfMatchView { stage: IfMatchStage::ResolveRejected, ..p }, ctx, IfMatchRequestView::ResolvePath { name })
    } else {
        (
            IfMatchView { stage: IfMatchStage::Prepare, ..p },
            ctx,
            IfMatchRequestView::PrepareWrite { name, bytes: p.payload },
        )
    }
}

/// The kind of answer a stage waits for.
pub open spec fn if_match_answers(stage: IfMatchStage, event: IfMatchEventView) -> bool {
    match stage {
        IfMatchStage::ResolveRejected => event is Resolved,
        IfMatchStage::Rejected => event is OpenRejected,
        IfMatchStage::Prepare => event is Prepared,
        IfMatchStage::Current => event is Current,
        IfMatchStage::First | IfMatchStage::Retry => event is Written || event is Refused,
        IfMatchStage::ReadFirst | IfMatchStage::ReadAfter => event is Read,
        IfMatchStage::Versions => event is Published,
        IfMatchStage::Finished => false,
    }
}

/// Whether a writer open was refused exactly for lack of conditional
/// write: an unmet requirement of the open-writer operation on the path,
/// naming the provider and conditional write.
pub open spec fn requirement_refusal_exact(error: ErrorFactsView, path: Seq<char>, provider: Seq<char>) -> bool {
    &&& error.kind == ErrorKind::RequirementNotMet
    &&& error.operation == OperationKind::OpenWriter
    &&& error.path == Some(path)
    &&& error.provider == Some(provider)
    &&& error.required_capability == Some(FileSystemCapability::ConditionalWrite)
}

/// Whether a stale write was refused as a failed precondition of opening or
/// committing the writer on the path, naming the provider.
pub open spec fn stale_refusal_exact(error: ErrorFactsView, path: Seq<char>, provider: Seq<char>) -> bool {
    &&& error.kind == ErrorKind::PreconditionFailed
    &&& (error.operation == OperationKind::OpenWriter || error.operation == OperationKind::CommitWriter)
    &&& error.path == Some(path)
    &&& error.provider == Some(provider)
}

/// The transition of the If-Match check at `p.stage` on `event`.
pub open spec fn if_match_step(p: IfMatchView, ctx: ContextView, event: IfMatchEventView) -> (
    IfMatchView,
    ContextView,
    IfMatchRequestView,
) {
    let done = IfMatchView { stage: IfMatchStage::Finished, ..p };
    let fail = |message: Seq<char>, with_error: bool| (done, ctx, IfMatchRequestView::Fail { message, with_error });
    let record = |outcome: OutcomeView| (
        done,
        with_recorded(ctx, ContractCheckId::WriteIfMatch, if_match_capability(), outcome),
        IfMatchRequestView::Finish,
    );
    match (p.stage, event) {
        (IfMatchStage::ResolveRejected, IfMatchEventView::Resolved(Some(path))) => (
            IfMatchView { path, stage: IfMatchStage::Rejected, ..p },
            ctx,
            IfMatchRequestView::OpenRejectedWriter { path, if_match: "missing-capability"@ },
        ),
        (IfMatchStage::ResolveRejected, _) => fail("conditional write path failed"@, true),
        (IfMatchStage::Rejected, IfMatchEventView::OpenRejected(Some(error))) => if requirement_refusal_exact(
            error,
            p.path,
            p.provider,
        ) {
            record(OutcomeView::RejectedAsExpected)
        } else {
            fail("conditional write error context differs"@, true)
        },
        (IfMatchStage::Rejected, _) => fail("unavailable conditional write succeeded"@, false),
        (IfMatchStage::Prepare, IfMatchEventView::Prepared(IfMatchPreparationView::Skipped(reason))) => record(
            OutcomeView::Unverified { reason },
        ),
        (
            IfMatchStage::Prepare,
            IfMatchEventView::Prepared(IfMatchPreparationView::Ready { path, bytes, if_match, replaces }),
        ) => (
            IfMatchView {
                path,
                case_bytes: bytes,
                case_if_match: if_match,
                case_replaces: replaces,
                stage: IfMatchStage::Current,
                ..p
            },
            with_created(ctx, path),
            IfMatchRequestView::CurrentVersion { path },
        ),
        (IfMatchStage::Prepare, _) => fail("If-Match preparation failed"@, true),
        (IfMatchStage::Current, IfMatchEventView::Current(VersionObservationView::Observed(current))) => if p.case_bytes
            == p.payload && p.case_if_match == Some(current) && p.case_replaces {
            (
                IfMatchView { stage: IfMatchStage::First, ..p },
                ctx,
                IfMatchRequestView::WriteFile { path: p.path, bytes: p.payload, if_match: current },
            )
        } else {
            fail("fixture changed If-Match request semantics"@, false)
        },
        (IfMatchStage::Current, IfMatchEventView::Current(VersionObservationView::Unsupported)) => record(
            OutcomeView::Unverified { reason: "fixture current version unavailable"@ },
        ),
        (IfMatchStage::Current, _) => fail("If-Match current version observation failed"@, true),
        (IfMatchStage::First, IfMatchEventView::Written) => (
            IfMatchView { stage: IfMatchStage::ReadFirst, ..p },
            ctx,
            IfMatchRequestView::Read { path: p.path },
        ),
        (IfMatchStage::First, _) => fail("conditional write first publication failed"@, true),
        (IfMatchStage::ReadFirst, IfMatchEventView::Read(ContentsView::Failed)) => fail(
            "conditional write initial observation failed"@,
            true,
        ),
        (IfMatchStage::ReadFirst, IfMatchEventView::Read(contents)) => if contents == ContentsView::Bytes(p.payload) {
            (
                IfMatchView { stage: IfMatchStage::Versions, ..p },
                ctx,
                IfMatchRequestView::PublishedVersions { path: p.path },
            )
        } else {
            fail("conditional write first publication differs or evidence is unavailable"@, false)
        },
        (IfMatchStage::Versions, IfMatchEventView::Published(PublishedVersionsView::Observed { stale, published })) => if stale
            == published {
            fail("fixture stale version equals published version"@, false)
        } else {
            (
                IfMatchView { stage: IfMatchStage::Retry, ..p },
                ctx,
                IfMatchRequestView::WriteFile { path: p.path, bytes: p.unexpected, if_match: stale },
            )
        },
        (IfMatchStage::Versions, IfMatchEventView::Published(PublishedVersionsView::Unsupported)) => record(
            OutcomeView::Unverified { reason: "fixture stale or published version unavailable"@ },
        ),
        (IfMatchStage::Versions, IfMatchEventView::Published(PublishedVersionsView::StaleFailed)) => fail(
            "If-Match stale version observation failed"@,
            true,
        ),
        (IfMatchStage::Versions, _) => fail("If-Match published version observation failed"@, true),
        (IfMatchStage::Retry, IfMatchEventView::Refused(error)) => if stale_refusal_exact(error, p.path, p.provider) {
            (IfMatchView { stage: IfMatchStage::ReadAfter, ..p }, ctx, IfMatchRequestView::Read { path: p.path })
        } else {
            fail("conditional write rejection differs"@, true)
        },
        (IfMatchStage::Retry, _) => fail("write/if-match: stale If-Match succeeded"@, false),
        (IfMatchStage::ReadAfter, IfMatchEventView::Read(ContentsView::Failed)) => fail(
            "conditional write rejection observation failed"@,
            true,
        ),
        (IfMatchStage::ReadAfter, IfMatchEventView::Read(contents)) => if contents == ContentsView::Bytes(p.payload) {
            record(OutcomeView::Passed)
        } else {
            fail("conditional write rejection changed target bytes or evidence is unavailable"@, false)
        },
        (_, _) => (p, ctx, IfMatchRequestView::Finish),
    }
}

/// The If-Match check records a pass only when the bytes published under
/// the current version survive a refused write under a stale version; a
/// stale write is sent only after the first publication was read back,
/// under a version other than the published one.
pub proof fn law_if_match_passes_only_when_stale_write_changes_nothing(
    p: IfMatchView,
    ctx: ContextView,
    event: IfMatchEventView,
)
    requires
        if_match_answers(p.stage, event),
    ensures
        p.stage == IfMatchStage::ReadAfter && if_match_step(p, ctx, event).2 is Finish ==> event
            == IfMatchEventView::Read(ContentsView::Bytes(p.payload)) && if_match_step(p, ctx, event).1
            == with_recorded(ctx, ContractCheckId::WriteIfMatch, if_match_capability(), OutcomeView::Passed),
        p.stage == IfMatchStage::Retry && if_match_step(p, ctx, event).2 is Read ==> (
        event matches IfMatchEventView::Refused(error) && stale_refusal_exact(error, p.path, p.provider)),
        p.stage == IfMatchStage::Versions ==> (if_match_step(p, ctx, event).2 matches IfMatchRequestView::WriteFile {
            bytes,
            if_match,
            ..
        } ==> bytes == p.unexpected && (event matches IfMatchEventView::Published(
            PublishedVersionsView::Observed { stale, published },
        ) && stale == if_match && stale != published)),
{
}

/// The check after answering `events` in turn from `state`, stopping at the
/// first event that the pending stage does not wait for.
pub open spec fn if_match_trace(
    state: (IfMatchView, ContextView, IfMatchRequestView),
    events: Seq<IfMatchEventView>,
) -> (IfMatchView, ContextView, IfMatchRequestView)
    decreases events.len(),
{
    if events.len() == 0 || !if_match_answers(state.0.stage, events[0]) {
        state
    } else {
        if_match_trace(if_match_step(state.0, state.1, events[0]), events.drop_first())
    }
}

/// With write and conditional write advertised, the If-Match check reaches
/// the final read only after the whole scenario: the fixture prepared a
/// create-or-replace of exactly the payload under the current version, the
/// first conditional write succeeded and was read back holding the payload,
/// a stale version other than the published one was observed, and the
/// write under that stale version was refused as a failed precondition on
/// the path. That final read then finishes the check, recording a pass,
/// exactly when it still returns the payload; any other read fails it.
pub proof fn law_if_match_pass_needs_full_evidence(
    limit: Option<u64>,
    provider: Seq<char>,
    ctx: ContextView,
    events: Seq<IfMatchEventView>,
    last: ContentsView,
)
    requires
        if_match_trace(if_match_start(true, true, limit, provider, ctx), events).0.stage == IfMatchStage::ReadAfter,
    ensures
        ({
            let reached = if_match_trace(if_match_start(true, true, limit, provider, ctx), events);
            let payload = reached.0.payload;
            let answered = if_match_step(reached.0, reached.1, IfMatchEventView::Read(last));
            &&& payload == payload_under(limit, "conditional".spec_bytes(), 99u8)
            &&& events.len() >= 6
            &&& events[0] matches IfMatchEventView::Prepared(
                IfMatchPreparationView::Ready { path, bytes, if_match, replaces },
            ) && path == reached.0.path && bytes == payload && replaces && events[1]
                == IfMatchEventView::Current(VersionObservationView::Observed(if_match.unwrap()))
            &&& events[2] == IfMatchEventView::Written
            &&& events[3] == IfMatchEventView::Read(ContentsView::Bytes(payload))
            &&& events[4] matches IfMatchEventView::Published(PublishedVersionsView::Observed { stale, published })
                && stale != published
            &&& events[5] matches IfMatchEventView::Refused(error) && stale_refusal_exact(
                error,
                reached.0.path,
                provider,
            )
            &&& (answered.2 is Finish <==> last == ContentsView::Bytes(payload))
            &&& answered.2 is Finish ==> answered.1 == with_recorded(
                reached.1,
                ContractCheckId::WriteIfMatch,
                if_match_capability(),
                OutcomeView::Passed,
            )
            &&& !(answered.2 is Finish) ==> answered.2 is Fail
        }),
{
    reveal_with_fuel(if_match_trace, 8);
    let start = if_match_start(true, true, limit, provider, ctx);
    let e1 = events.drop_first();
    let e2 = e1.drop_first();
    let e3 = e2.drop_first();
    let e4 = e3.drop_first();
    let e5 = e4.drop_first();
    assert(events.len() >= 1 && if_match_answers(start.0.stage, events[0]));
    let s1 = if_match_step(start.0, start.1, events[0]);
    assert(s1.0.stage == IfMatchStage::Current);
    assert(e1.len() >= 1 && e1[0] == events[1]);
    let s2 = if_match_step(s1.0, s1.1, events[1]);
    assert(s2.0.stage == IfMatchStage::First);
    assert(e2.len() >= 1 && e2[0] == events[2]);
    let s3 = if_match_step(s2.0, s2.1, events[2]);
    assert(s3.0.stage == IfMatchStage::ReadFirst);
    assert(e3.len() >= 1 && e3[0] == events[3]);
    let s4 = if_match_step(s3.0, s3.1, events[3]);
    assert(s4.0.stage == IfMatchStage::Versions);
    assert(e4.len() >= 1 && e4[0] == events[4]);
    let s5 = if_match_step(s4.0, s4.1, events[4]);
    assert(s5.0.stage == IfMatchStage::Retry);
    assert(e5.len() >= 1 && e5[0] == events[5]);
}

impl WriteIfMatchProbe {
    /// Starts the If-Match check in the suite context, given whether write
    /// and conditional write are advertised, the declared largest write,
    /// and the provider identity; returns the probe with its first request.
    pub fn new(ctx: &mut ContractContext, write: bool, conditional: bool, limit: Option<u64>, provider: String) -> (started: (
        WriteIfMatchProbe,
        IfMatchRequest,
    ))
        ensures
            (started.0@, final(ctx)@, started.1@) == if_match_start(write, conditional, limit, provider@, old(ctx)@),
    {
        ctx.begin(ContractCheckId::WriteIfMatch.as_str());
        let name = ctx.relative_name("write-if-match");
        let mut probe = WriteIfMatchProbe {
            provider,
            payload: bounded_payload(limit, "conditional".as_bytes(), 99u8),
            unexpected: bounded_payload(limit, "unexpected".as_bytes(), 117u8),
            path: String::new(),
            case_bytes: Vec::new(),
            case_if_match: None,
            case_replaces: false,
            stage: IfMatchStage::Finished,
        };
        if !write {
            ctx.record_check(
                ContractCheckId::WriteIfMatch,
                Some(FileSystemCapability::ConditionalWrite),
                ContractCheckOutcome::NotApplicable { reason: String::from_str("Write capability is unavailable") },
            );
            (probe, IfMatchRequest::Finish)
        } else if !conditional {
            probe.stage = IfMatchStage::ResolveRejected;
            (probe, IfMatchRequest::ResolvePath { name })
        } else {
            probe.stage = IfMatchStage::Prepare;
            let bytes = probe.payload.clone();
            (probe, IfMatchRequest::PrepareWrite { name, bytes })
        }
    }

    /// Returns the stage the check waits in.
    pub fn stage(&self) -> (stage: IfMatchStage)
        ensures
            stage == self@.stage,
    {
        self.stage
    }

    /// Returns whether `event` answers the request the check waits on.
    pub fn expects(&self, event: &IfMatchEvent) -> (answered: bool)
        ensures
            answered == if_match_answers(self@.stage, event@),
    {
        match self.stage {
            IfMatchStage::ResolveRejected => matches!(event, IfMatchEvent::Resolved(_)),
            IfMatchStage::Rejected => matches!(event, IfMatchEvent::OpenRejected(_)),
            IfMatchStage::Prepare => matches!(event, IfMatchEvent::Prepared(_)),
            IfMatchStage::Current => matches!(event, IfMatchEvent::Current(_)),
            IfMatchStage::First | IfMatchStage::Retry => matches!(event, IfMatchEvent::Written(_)),
            IfMatchStage::ReadFirst | IfMatchStage::ReadAfter => matches!(event, IfMatchEvent::Read(_)),
            IfMatchStage::Versions => matches!(event, IfMatchEvent::Published(_)),
            IfMatchStage::Finished => false,
        }
    }

    /// Ends the check with the failure `message`.
    fn fail(&mut self, message: &'static str, with_error: bool) -> (request: IfMatchRequest)
        ensures
            final(self)@ == (IfMatchView { stage: IfMatchStage::Finished, ..old(self)@ }),
            request@ == (IfMatchRequestView::Fail { message: message@, with_error }),
    {
        self.stage = IfMatchStage::Finished;
        IfMatchRequest::Fail { message, with_error }
    }

    /// Ends the check by recording `outcome`.
    fn record(&mut self, ctx: &mut ContractContext, outcome: ContractCheckOutcome) -> (request: IfMatchRequest)
        ensures
            final(self)@ == (IfMatchView { stage: IfMatchStage::Finished, ..old(self)@ }),
            final(ctx)@ == with_recorded(old(ctx)@, ContractCheckId::WriteIfMatch, if_match_capability(), outcome@),
            request@ == IfMatchRequestView::Finish,
    {
        self.stage = IfMatchStage::Finished;
        ctx.record_check(ContractCheckId::WriteIfMatch, Some(FileSystemCapability::ConditionalWrite), outcome);
        IfMatchRequest::Finish
    }

    /// Returns whether two byte sequences are equal.
    fn same_bytes(left: &Vec<u8>, right: &Vec<u8>) -> (same: bool)
        ensures
            same == (left@ == right@),
    {
        if left.len() != right.len() {
            return false;
        }
        let mut index: usize = 0;
        while index < left.len()
            invariant
                left.len() == right.len(),
                index <= left.len(),
                forall|j: int| 0 <= j < index ==> left@[j] == right@[j],
            decreases left.len() - index,
        {
            if left[index] != right[index] {
                assert(left@[index as int] != right@[index as int]);
                return false;
            }
            index = index + 1;
        }
        assert(left@ =~= right@);
        true
    }

    /// Returns whether an observation saw exactly the first payload.
    fn saw_payload(&self, contents: &Contents) -> (seen: bool)
        ensures
            seen == (contents@ == ContentsView::Bytes(self@.payload)),
    {
        holds_bytes(contents, self.payload.as_slice())
    }

    /// Takes the answer to the pending request, records what the step
    /// names in the suite context, and returns the next request.
    pub fn advance(&mut self, ctx: &mut ContractContext, event: IfMatchEvent) -> (request: IfMatchRequest)
        requires
            if_match_answers(old(self)@.stage, event@),
        ensures
            (final(self)@, final(ctx)@, request@) == if_match_step(old(self)@, old(ctx)@, event@),
    {
        match self.stage {
            IfMatchStage::ResolveRejected => match event {
                IfMatchEvent::Resolved(Some(path)) => {
                    self.path = path;
                    self.stage = IfMatchStage::Rejected;
                    IfMatchRequest::OpenRejectedWriter {
                        path: self.path.clone(),
                        if_match: String::from_str("missing-capability"),
                    }
                },
                _ => self.fail("conditional write path failed", true),
            },
            IfMatchStage::Rejected => match event {
                IfMatchEvent::OpenRejected(Some(error)) => {
                    let operation_ok = match error.operation {
                        OperationKind::OpenWriter => true,
                        _ => false,
                    };
                    let capability_ok = match error.required_capability {
                        Some(FileSystemCapability::ConditionalWrite) => true,
                        _ => false,
                    };
                    if error.kind == ErrorKind::RequirementNotMet && operation_ok && text_is(&error.path, &self.path)
                        && text_is(&error.provider, &self.provider) && capability_ok {
                        self.record(ctx, ContractCheckOutcome::RejectedAsExpected)
                    } else {
                        self.fail("conditional write error context differs", true)
                    }
                },
                _ => self.fail("unavailable conditional write succeeded", false),
            },
            IfMatchStage::Prepare => match event {
                IfMatchEvent::Prepared(IfMatchPreparation::Unavailable(reason))
                | IfMatchEvent::Prepared(IfMatchPreparation::NotApplicable(reason)) => self.record(
                    ctx,
                    ContractCheckOutcome::Unverified { reason },
                ),
                IfMatchEvent::Prepared(IfMatchPreparation::Ready { path, bytes, if_match, replaces }) => {
                    ctx.record_created(path.clone());
                    self.path = path;
                    self.case_bytes = bytes;
                    self.case_if_match = if_match;
                    self.case_replaces = replaces;
                    self.stage = IfMatchStage::Current;
                    IfMatchRequest::CurrentVersion { path: self.path.clone() }
                },
                _ => self.fail("If-Match preparation failed", true),
            },
            IfMatchStage::Current => match event {
                IfMatchEvent::Current(VersionObservation::Observed(current)) => {
                    let same_version = text_is(&self.case_if_match, &current);
                    if Self::same_bytes(&self.case_bytes, &self.payload) && same_version && self.case_replaces {
                        self.stage = IfMatchStage::First;
                        IfMatchRequest::WriteFile {
                            path: self.path.clone(),
                            bytes: self.payload.clone(),
                            if_match: current,
                        }
                    } else {
                        self.fail("fixture changed If-Match request semantics", false)
                    }
                },
                IfMatchEvent::Current(VersionObservation::Unsupported) => self.record(
                    ctx,
                    ContractCheckOutcome::Unverified { reason: String::from_str("fixture current version unavailable") },
                ),
                _ => self.fail("If-Match current version observation failed", true),
            },
            IfMatchStage::First => match event {
                IfMatchEvent::Written(Ok(())) => {
                    self.stage = IfMatchStage::ReadFirst;
                    IfMatchRequest::Read { path: self.path.clone() }
                },
                _ => self.fail("conditional write first publication failed", true),
            },
            IfMatchStage::ReadFirst => match event {
                IfMatchEvent::Read(contents) => if matches!(contents, Contents::Failed) {
                    self.fail("conditional write initial observation failed", true)
                } else if self.saw_payload(&contents) {
                    self.stage = IfMatchStage::Versions;
                    IfMatchRequest::PublishedVersions { path: self.path.clone() }
                } else {
                    self.fail("conditional write first publication differs or evidence is unavailable", false)
                },
                _ => IfMatchRequest::Finish,
            },
            IfMatchStage::Versions => match event {
                IfMatchEvent::Published(PublishedVersions::Observed { stale, published }) => if stale == published {
                    self.fail("fixture stale version equals published version", false)
                } else {
                    self.stage = IfMatchStage::Retry;
                    IfMatchRequest::WriteFile { path: self.path.clone(), bytes: self.unexpected.clone(), if_match: stale }
                },
                IfMatchEvent::Published(PublishedVersions::Unsupported) => self.record(
                    ctx,
                    ContractCheckOutcome::Unverified {
                        reason: String::from_str("fixture stale or published version unavailable"),
                    },
                ),
                IfMatchEvent::Published(PublishedVersions::StaleFailed) => self.fail(
                    "If-Match stale version observation failed",
                    true,
                ),
                _ => self.fail("If-Match published version observation failed", true),
            },
            IfMatchStage::Retry => match event {
                IfMatchEvent::Written(Err(error)) => {
                    let operation_ok = match error.operation {
                        OperationKind::OpenWriter | OperationKind::CommitWriter => true,
                        _ => false,
                    };
                    if error.kind == ErrorKind::PreconditionFailed && operation_ok && text_is(&error.path, &self.path)
                        && text_is(&error.provider, &self.provider) {
                        self.stage = IfMatchStage::ReadAfter;
                        IfMatchRequest::Read { path: self.path.clone() }
                    } else {
                        self.fail("conditional write rejection differs", true)
                    }
                },
                _ => self.fail("write/if-match: stale If-Match succeeded", false),
            },
            IfMatchStage::ReadAfter => match event {
                IfMatchEvent::Read(contents) => if matches!(contents, Contents::Failed) {
                    self.fail("conditional write rejection observation failed", true)
                } else if self.saw_payload(&contents) {
                    self.record(ctx, ContractCheckOutcome::Passed)
                } else {
                    self.fail("conditional write rejection changed target bytes or evidence is unavailable", false)
                },
                _ => IfMatchRequest::Finish,
            },
            IfMatchStage::Finished => IfMatchRequest::Finish,
        }
    }
}

} // verus!
