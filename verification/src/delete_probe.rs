//! Independent basic, missing-target and conditional deletion evidence, as
//! a step machine: the driver performs each request against the file system
//! under test and hands the answer back.
use vstd::prelude::*;
use vstd::string::StringSliceAdditionalSpecFns;

use crate::capability::FileSystemCapability;
use crate::contract_check_id::ContractCheckId;
use crate::contract_check_outcome::ContractCheckOutcome;
use crate::contract_check_outcome::OutcomeView;
use crate::contract_context::ContextView;
use crate::contract_context::ContractContext;
use crate::contract_context::begun;
use crate::contract_context::relative_in;
use crate::contract_context::with_created;
use crate::contract_context::with_recorded;
use crate::fs_facts::Contents;
use crate::fs_facts::ContentsView;
use crate::fs_facts::ErrorFacts;
use crate::fs_facts::ErrorFactsView;
use crate::fs_facts::ErrorKind;
use crate::fs_facts::OperationKind;
use crate::fs_facts::Presence;
use crate::fs_facts::holds_bytes;
use crate::fs_facts::text_is;
use crate::fs_facts::text_of;

verus! {

/// The next thing the driver does for a deletion check.
#[derive(Debug, PartialEq, Eq)]
pub enum DeleteRequest {
    /// Resolve this fixture-relative name to a provider path.
    ResolvePath {
        /// The fixture-relative name.
        name: String,
    },
    /// Ask the fixture to seed a file with the UTF-8 bytes of `contents`
    /// under this name for a deletion.
    PrepareDelete {
        /// The fixture-relative name.
        name: String,
        /// The text whose bytes the file holds.
        contents: &'static str,
    },
    /// Read the bytes at `path` out of band.
    Read {
        /// The path.
        path: String,
    },
    /// Observe out of band whether `path` exists.
    Observe {
        /// The path.
        path: String,
    },
    /// Ask the fixture for the current version of `path`, then for a valid
    /// version that cannot match it.
    ObserveVersions {
        /// The path.
        path: String,
    },
    /// Delete the file at `path`.
    DeleteFile {
        /// The path.
        path: String,
        /// Whether a missing file is accepted.
        missing_ok: bool,
        /// The version the file must have, when there is one.
        if_match: Option<String>,
    },
    /// The check was recorded.
    Finish,
    /// The check failed with `message`.
    Fail {
        /// The diagnostic.
        message: &'static str,
        /// Whether the error just answered is attached as the source.
        with_error: bool,
    },
}

/// The abstract form of a deletion request.
pub enum DeleteRequestView {
    /// Resolve a name.
    ResolvePath { name: Seq<char> },
    /// Prepare a file.
    PrepareDelete { name: Seq<char>, contents: Seq<char> },
    /// Read a path.
    Read { path: Seq<char> },
    /// Observe a path.
    Observe { path: Seq<char> },
    /// Observe the versions of a path.
    ObserveVersions { path: Seq<char> },
    /// Delete a file.
    DeleteFile { path: Seq<char>, missing_ok: bool, if_match: Option<Seq<char>> },
    /// The check was recorded.
    Finish,
    /// The check failed.
    Fail { message: Seq<char>, with_error: bool },
}

impl View for DeleteRequest {
    type V = DeleteRequestView;

    open spec fn view(&self) -> DeleteRequestView {
        match self {
            DeleteRequest::ResolvePath { name } => DeleteRequestView::ResolvePath { name: name@ },
            DeleteRequest::PrepareDelete { name, contents } => DeleteRequestView::PrepareDelete {
                name: name@,
                contents: contents@,
            },
            DeleteRequest::Read { path } => DeleteRequestView::Read { path: path@ },
            DeleteRequest::Observe { path } => DeleteRequestView::Observe { path: path@ },
            DeleteRequest::ObserveVersions { path } => DeleteRequestView::ObserveVersions { path: path@ },
            DeleteRequest::DeleteFile { path, missing_ok, if_match } => DeleteRequestView::DeleteFile {
                path: path@,
                missing_ok: *missing_ok,
                if_match: text_of(*if_match),
            },
            DeleteRequest::Finish => DeleteRequestView::Finish,
            DeleteRequest::Fail { message, with_error } => DeleteRequestView::Fail {
                message: message@,
                with_error: *with_error,
            },
        }
    }
}

/// What the fixture's deletion preparation answered.
pub enum DeletePreparation {
    /// The preparation hook failed.
    Failed,
    /// The fixture cannot prepare the file, for this reason.
    Unavailable(String),
    /// The deletion does not apply to the fixture, for this reason.
    NotApplicable(String),
    /// The file is ready at this path.
    Ready(String),
}

/// What the fixture's version observations answered.
pub enum VersionAnswer {
    /// The current version could not be observed.
    CurrentFailed,
    /// The stale version could not be observed.
    StaleFailed,
    /// The fixture cannot supply one of the two versions.
    Unsupported,
    /// The current version and a version that cannot match it.
    Observed {
        /// The current version.
        current: String,
        /// The stale version.
        stale: String,
    },
}

/// A successful deletion as the facade reported it.
#[derive(Clone, Copy, Debug, PartialEq, Eq, Structural)]
pub struct DeleteFacts {
    /// Whether the outcome reports that nothing was there.
    pub already_missing: bool,
    /// How many entries the outcome reports deleted, when it says.
    pub deleted_entries: Option<u64>,
}

/// The answer to the pending deletion request.
pub enum DeleteEvent {
    /// The resolved path, or `None` when the fixture could not map it.
    Resolved(Option<String>),
    /// The fixture's preparation answered.
    Prepared(DeletePreparation),
    /// A content observation answered.
    Read(Contents),
    /// An existence observation answered.
    Observed(Presence),
    /// The version observations answered.
    Versions(VersionAnswer),
    /// The deletion answered.
    Deleted(Result<DeleteFacts, ErrorFacts>),
}

/// The abstract form of a preparation answer.
pub enum DeletePreparationView {
    /// The hook failed.
    Failed,
    /// The file cannot be prepared or does not apply, for this reason.
    Skipped(Seq<char>),
    /// The file is ready.
    Ready(Seq<char>),
}

/// The abstract form of a version answer.
pub enum VersionView {
    /// The current version could not be observed.
    CurrentFailed,
    /// The stale version could not be observed.
    StaleFailed,
    /// A version is missing.
    Unsupported,
    /// Both versions.
    Observed { current: Seq<char>, stale: Seq<char> },
}

/// The abstract form of a deletion answer.
pub enum DeleteEventView {
    /// A resolved path.
    Resolved(Option<Seq<char>>),
    /// A preparation answer.
    Prepared(DeletePreparationView),
    /// A content observation.
    Read(ContentsView),
    /// An existence observation.
    Observed(Presence),
    /// A version answer.
    Versions(VersionView),
    /// A successful deletion.
    Deleted(DeleteFacts),
    /// A refused deletion.
    Refused(ErrorFactsView),
}

impl View for DeleteEvent {
    type V = DeleteEventView;

    open spec fn view(&self) -> DeleteEventView {
        match self {
            DeleteEvent::Resolved(path) => DeleteEventView::Resolved(text_of(*path)),
            DeleteEvent::Prepared(DeletePreparation::Failed) => DeleteEventView::Prepared(
                DeletePreparationView::Failed,
            ),
            DeleteEvent::Prepared(DeletePreparation::Unavailable(reason)) => DeleteEventView::Prepared(
                DeletePreparationView::Skipped(reason@),
            ),
            DeleteEvent::Prepared(DeletePreparation::NotApplicable(reason)) => DeleteEventView::Prepared(
                DeletePreparationView::Skipped(reason@),
            ),
            DeleteEvent::Prepared(DeletePreparation::Ready(path)) => DeleteEventView::Prepared(
                DeletePreparationView::Ready(path@),
            ),
            DeleteEvent::Read(contents) => DeleteEventView::Read(contents@),
            DeleteEvent::Observed(presence) => DeleteEventView::Observed(*presence),
            DeleteEvent::Versions(VersionAnswer::CurrentFailed) => DeleteEventView::Versions(VersionView::CurrentFailed),
            DeleteEvent::Versions(VersionAnswer::StaleFailed) => DeleteEventView::Versions(VersionView::StaleFailed),
            DeleteEvent::Versions(VersionAnswer::Unsupported) => DeleteEventView::Versions(VersionView::Unsupported),
            DeleteEvent::Versions(VersionAnswer::Observed { current, stale }) => DeleteEventView::Versions(
                VersionView::Observed { current: current@, stale: stale@ },
            ),
            DeleteEvent::Deleted(Ok(facts)) => DeleteEventView::Deleted(*facts),
            DeleteEvent::Deleted(Err(error)) => DeleteEventView::Refused(error@),
        }
    }
}

/// The request a deletion check waits on.
#[derive(Clone, Copy, Debug, PartialEq, Eq, Structural)]
pub enum DeleteStage {
    /// The path of a deletion that must be rejected is being resolved.
    ResolveRejected,
    /// The deletion that must be rejected runs.
    Rejected,
    /// The path of a missing-ok deletion is being resolved.
    ResolveMissing,
    /// The target is observed to be absent before the deletion.
    ObserveAbsent,
    /// The missing-ok deletion runs.
    DeleteMissing,
    /// The target is observed to be still absent afterwards.
    ObserveStillAbsent,
    /// The path of a conditional deletion that must be rejected is being
    /// resolved.
    ResolveConditional,
    /// The conditional deletion that must be rejected runs.
    RejectedConditional,
    /// The fixture prepares the file.
    Prepare,
    /// The prepared file is read.
    ReadInitial,
    /// The versions of the file are observed.
    Versions,
    /// The deletion with a stale version runs.
    DeleteStale,
    /// The file is read after the stale deletion.
    ReadRetained,
    /// The deletion runs.
    Delete,
    /// The file is observed to be gone.
    ObserveDeleted,
    /// The check has finished.
    Finished,
}

/// The abstract state of a deletion check.
pub struct DeleteView {
    /// The check.
    pub id: ContractCheckId,
    /// The provider identity errors must report.
    pub provider: Seq<char>,
    /// The fixture-relative target name.
    pub name: Seq<char>,
    /// The target path, once known.
    pub path: Seq<char>,
    /// The current version, once known.
    pub current: Seq<char>,
    /// The stage.
    pub stage: DeleteStage,
}

/// Drives one deletion check: an unavailable deletion must be rejected with
/// exact context, a missing-ok deletion of an absent target must report
/// absence and create nothing, and a prepared file must survive a stale
/// conditional deletion and then be deleted for good.
pub struct DeleteProbe {
    id: ContractCheckId,
    provider: String,
    name: String,
    path: String,
    current: String,
    stage: DeleteStage,
}

impl View for DeleteProbe {
    type V = DeleteView;

    closed spec fn view(&self) -> DeleteView {
        DeleteView {
            id: self.id,
            provider: self.provider@,
            name: self.name@,
            path: self.path@,
            current: self.current@,
            stage: self.stage,
        }
    }
}

/// The bytes a deletion check seeds.
pub open spec fn delete_bytes() -> Seq<u8> {
    "delete evidence".spec_bytes()
}

/// Whether a check is one of the file deletion checks.
pub open spec fn file_delete_check(id: ContractCheckId) -> bool {
    id == ContractCheckId::DeleteBasic || id == ContractCheckId::DeleteMissingOk || id
        == ContractCheckId::DeleteIfMatch
}

/// The capability a deletion check is recorded under.
pub open spec fn delete_capability(id: ContractCheckId) -> FileSystemCapability {
    if id == ContractCheckId::DeleteIfMatch {
        FileSystemCapability::ConditionalDelete
    } else {
        FileSystemCapability::Delete
    }
}

/// The start of a deletion check over the suite context: a check of another
/// kind fails before any phase begins; otherwise the phase begins, an
/// unavailable deletion is either inapplicable or rejected, and an
/// available one resolves or prepares its target.
pub open spec fn delete_start(
    id: ContractCheckId,
    delete: bool,
    conditional: bool,
    provider: Seq<char>,
    ctx: ContextView,
) -> (DeleteView, ContextView, DeleteRequestView) {
    let p = DeleteView {
        id,
        provider,
        name: Seq::empty(),
        path: Seq::empty(),
        current: Seq::empty(),
        stage: DeleteStage::Finished,
    };
    if !file_delete_check(id) {
        (p, ctx, DeleteRequestView::Fail { message: "selected entry is not a file deletion check"@, with_error: false })
    } else {
        let ctx = begun(ctx, id.stable_name());
        let name = relative_in(ctx, "delete-target"@);
        let p = DeleteView { name, ..p };
        if !delete && id != ContractCheckId::DeleteBasic {
            (
                p,
                with_recorded(
                    ctx,
                    id,
                    Some(delete_capability(id)),
                    OutcomeView::NotApplicable { reason: "Delete capability is unavailable"@ },
                ),
                DeleteRequestView::Finish,
            )
        } else if !delete {
            (DeleteView { stage: DeleteStage::ResolveRejected, ..p }, ctx, DeleteRequestView::ResolvePath { name })
        } else if id == ContractCheckId::DeleteMissingOk {
            (DeleteView { stage: DeleteStage::ResolveMissing, ..p }, ctx, DeleteRequestView::ResolvePath { name })
        } else if id == ContractCheckId::DeleteIfMatch && !conditional {
            (DeleteView { stage: DeleteStage::ResolveConditional, ..p }, ctx, DeleteRequestView::ResolvePath { name })
        } else {
            (
                DeleteView { stage: DeleteStage::Prepare, ..p },
                ctx,
                DeleteRequestView::PrepareDelete { name, contents: "delete evidence"@ },
            )
        }
    }
}

/// The kind of answer a stage waits for.
pub open spec fn delete_answers(stage: DeleteStage, event: DeleteEventView) -> bool {
    match stage {
        DeleteStage::ResolveRejected | DeleteStage::ResolveMissing | DeleteStage::ResolveConditional => event is Resolved,
        DeleteStage::Rejected | DeleteStage::DeleteMissing | DeleteStage::RejectedConditional | DeleteStage::DeleteStale
        | DeleteStage::Delete => event is Deleted || event is Refused,
        DeleteStage::ObserveAbsent | DeleteStage::ObserveStillAbsent | DeleteStage::ObserveDeleted => event is Observed,
        DeleteStage::Prepare => event is Prepared,
        DeleteStage::ReadInitial | DeleteStage::ReadRetained => event is Read,
        DeleteStage::Versions => event is Versions,
        DeleteStage::Finished => false,
    }
}

/// Whether a deletion error carries exactly the expected context: its
/// kind, the delete operation, the target path, the provider and the
/// required capability.
pub open spec fn delete_error_exact(
    error: ErrorFactsView,
    kind: ErrorKind,
    path: Seq<char>,
    provider: Seq<char>,
    capability: Option<FileSystemCapability>,
) -> bool {
    &&& error.kind == kind
    &&& error.operation == OperationKind::Delete
    &&& error.path == Some(path)
    &&& error.provider == Some(provider)
    &&& error.required_capability == capability
}

/// The error a rejected deletion at `stage` must carry: its kind and the
/// capability it names.
pub open spec fn expected_refusal(stage: DeleteStage) -> (ErrorKind, Option<FileSystemCapability>) {
    match stage {
        DeleteStage::Rejected => (ErrorKind::UnsupportedCapability, Some(FileSystemCapability::Delete)),
        DeleteStage::RejectedConditional => (
            ErrorKind::RequirementNotMet,
            Some(FileSystemCapability::ConditionalDelete),
        ),
        _ => (ErrorKind::PreconditionFailed, None),
    }
}

/// The transition of a deletion check at `p.stage` on `event`.
pub open spec fn delete_step(p: DeleteView, ctx: ContextView, event: DeleteEventView) -> (
    DeleteView,
    ContextView,
    DeleteRequestView,
) {
    let done = DeleteView { stage: DeleteStage::Finished, ..p };
    let fail = |message: Seq<char>, with_error: bool| (done, ctx, DeleteRequestView::Fail { message, with_error });
    let record = |outcome: OutcomeView| (
        done,
        with_recorded(ctx, p.id, Some(delete_capability(p.id)), outcome),
        DeleteRequestView::Finish,
    );
    match (p.stage, event) {
        (DeleteStage::ResolveRejected, DeleteEventView::Resolved(Some(path))) => (
            DeleteView { path, stage: DeleteStage::Rejected, ..p },
            ctx,
            DeleteRequestView::DeleteFile { path, missing_ok: false, if_match: None },
        ),
        (DeleteStage::ResolveRejected, _) => fail("delete path preparation failed"@, true),
        (DeleteStage::ResolveConditional, DeleteEventView::Resolved(Some(path))) => (
            DeleteView { path, stage: DeleteStage::RejectedConditional, ..p },
            ctx,
            DeleteRequestView::DeleteFile { path, missing_ok: false, if_match: Some("contract-version"@) },
        ),
        (DeleteStage::ResolveConditional, _) => fail("conditional delete path preparation failed"@, true),
        (DeleteStage::Rejected, DeleteEventView::Deleted(_)) => fail("unavailable deletion succeeded"@, false),
        (DeleteStage::RejectedConditional, DeleteEventView::Deleted(_)) => fail(
            "unavailable conditional deletion succeeded"@,
            false,
        ),
        (DeleteStage::DeleteStale, DeleteEventView::Deleted(_)) => fail(
            "delete/if-match: stale version was accepted"@,
            false,
        ),
        (DeleteStage::Rejected, DeleteEventView::Refused(error))
        | (DeleteStage::RejectedConditional, DeleteEventView::Refused(error))
        | (DeleteStage::DeleteStale, DeleteEventView::Refused(error)) => if !delete_error_exact(
            error,
            expected_refusal(p.stage).0,
            p.path,
            p.provider,
            expected_refusal(p.stage).1,
        ) {
            fail("delete error context differs"@, true)
        } else if p.stage == DeleteStage::DeleteStale {
            (DeleteView { stage: DeleteStage::ReadRetained, ..p }, ctx, DeleteRequestView::Read { path: p.path })
        } else {
            record(OutcomeView::RejectedAsExpected)
        },
        (DeleteStage::ResolveMissing, DeleteEventView::Resolved(Some(path))) => (
            DeleteView { path, stage: DeleteStage::ObserveAbsent, ..p },
            ctx,
            DeleteRequestView::Observe { path },
        ),
        (DeleteStage::ResolveMissing, _) => fail("missing-delete path preparation failed"@, true),
        (DeleteStage::ObserveAbsent, DeleteEventView::Observed(Presence::Present(false))) => (
            DeleteView { stage: DeleteStage::DeleteMissing, ..p },
            with_created(ctx, p.path),
            DeleteRequestView::DeleteFile { path: p.path, missing_ok: true, if_match: None },
        ),
        (DeleteStage::ObserveAbsent, DeleteEventView::Observed(Presence::Failed)) => fail(
            "missing-delete initial observation failed"@,
            true,
        ),
        (DeleteStage::ObserveAbsent, _) => fail("missing-delete fixture target must be absent"@, false),
        (DeleteStage::DeleteMissing, DeleteEventView::Deleted(facts)) => if facts.already_missing {
            (
                DeleteView { stage: DeleteStage::ObserveStillAbsent, ..p },
                ctx,
                DeleteRequestView::Observe { path: p.path },
            )
        } else {
            fail("missing-ok outcome did not report absence"@, false)
        },
        (DeleteStage::DeleteMissing, _) => fail("missing-ok deletion failed"@, true),
        (DeleteStage::ObserveStillAbsent, DeleteEventView::Observed(Presence::Present(false))) => record(
            OutcomeView::Passed,
        ),
        (DeleteStage::ObserveStillAbsent, DeleteEventView::Observed(Presence::Failed)) => fail(
            "missing-delete final observation failed"@,
            true,
        ),
        (DeleteStage::ObserveStillAbsent, _) => fail("missing-ok deletion created a resource"@, false),
        (DeleteStage::Prepare, DeleteEventView::Prepared(DeletePreparationView::Skipped(reason))) => record(
            OutcomeView::Unverified { reason },
        ),
        (DeleteStage::Prepare, DeleteEventView::Prepared(DeletePreparationView::Ready(path))) => (
            DeleteView { path, stage: DeleteStage::ReadInitial, ..p },
            with_created(ctx, path),
            DeleteRequestView::Read { path },
        ),
        (DeleteStage::Prepare, _) => fail("delete scenario preparation failed"@, true),
        (DeleteStage::ReadInitial, DeleteEventView::Read(ContentsView::Failed)) => fail(
            "delete initial observation failed"@,
            true,
        ),
        (DeleteStage::ReadInitial, DeleteEventView::Read(contents)) => if contents != ContentsView::Bytes(
            delete_bytes(),
        ) {
            fail("delete seed lacks independently confirmed contents"@, false)
        } else if p.id == ContractCheckId::DeleteIfMatch {
            (
                DeleteView { stage: DeleteStage::Versions, ..p },
                ctx,
                DeleteRequestView::ObserveVersions { path: p.path },
            )
        } else {
            (
                DeleteView { stage: DeleteStage::Delete, ..p },
                ctx,
                DeleteRequestView::DeleteFile { path: p.path, missing_ok: false, if_match: None },
            )
        },
        (DeleteStage::Versions, DeleteEventView::Versions(VersionView::CurrentFailed)) => fail(
            "delete current version observation failed"@,
            true,
        ),
        (DeleteStage::Versions, DeleteEventView::Versions(VersionView::StaleFailed)) => fail(
            "delete stale version observation failed"@,
            true,
        ),
        (DeleteStage::Versions, DeleteEventView::Versions(VersionView::Observed { current, stale })) => if current
            == stale {
            fail("stale delete version equals the current version"@, false)
        } else {
            (
                DeleteView { current, stage: DeleteStage::DeleteStale, ..p },
                ctx,
                DeleteRequestView::DeleteFile { path: p.path, missing_ok: false, if_match: Some(stale) },
            )
        },
        (DeleteStage::Versions, _) => record(
            OutcomeView::Unverified { reason: "conditional delete needs current and stale versions"@ },
        ),
        (DeleteStage::ReadRetained, DeleteEventView::Read(ContentsView::Failed)) => fail(
            "stale delete content observation failed"@,
            true,
        ),
        (DeleteStage::ReadRetained, DeleteEventView::Read(contents)) => if contents != ContentsView::Bytes(
            delete_bytes(),
        ) {
            fail("stale delete changed target contents"@, false)
        } else {
            (
                DeleteView { stage: DeleteStage::Delete, ..p },
                ctx,
                DeleteRequestView::DeleteFile { path: p.path, missing_ok: false, if_match: Some(p.current) },
            )
        },
        (DeleteStage::Delete, DeleteEventView::Deleted(facts)) => if facts.already_missing {
            fail("delete/basic: existing file was reported missing"@, false)
        } else if facts.deleted_entries == Some(0u64) {
            fail("delete/basic: deleted count is zero"@, false)
        } else {
            (
                DeleteView { stage: DeleteStage::ObserveDeleted, ..p },
                ctx,
                DeleteRequestView::Observe { path: p.path },
            )
        },
        (DeleteStage::Delete, _) => fail("delete/basic: deletion failed"@, true),
        (DeleteStage::ObserveDeleted, DeleteEventView::Observed(Presence::Present(false))) => record(
            OutcomeView::Passed,
        ),
        (DeleteStage::ObserveDeleted, DeleteEventView::Observed(Presence::Failed)) => fail(
            "delete publication observation failed"@,
            true,
        ),
        (DeleteStage::ObserveDeleted, _) => fail("delete/basic: deleted file remained"@, false),
        (_, _) => (p, ctx, DeleteRequestView::Finish),
    }
}

/// A deletion check records a pass only when the target was observed
/// absent at the end; a conditional deletion with the current version is
/// requested only after a stale one was refused with exact context and the
/// contents were seen unchanged; and an expected rejection is recorded only
/// for an exact refusal.
pub proof fn law_delete_passes_only_on_absence(p: DeleteView, ctx: ContextView, event: DeleteEventView)
    requires
        delete_answers(p.stage, event),
    ensures
        (p.stage == DeleteStage::ObserveStillAbsent || p.stage == DeleteStage::ObserveDeleted) && delete_step(
            p,
            ctx,
            event,
        ).2 is Finish ==> event == DeleteEventView::Observed(Presence::Present(false)) && delete_step(p, ctx, event).1
            == with_recorded(ctx, p.id, Some(delete_capability(p.id)), OutcomeView::Passed),
        p.stage == DeleteStage::ReadRetained && delete_step(p, ctx, event).2 is DeleteFile ==> event
            == DeleteEventView::Read(ContentsView::Bytes(delete_bytes())) && delete_step(p, ctx, event).2
            == (DeleteRequestView::DeleteFile { path: p.path, missing_ok: false, if_match: Some(p.current) }),
        p.stage == DeleteStage::DeleteStale && delete_step(p, ctx, event).2 is Read ==> (
        event matches DeleteEventView::Refused(error) && delete_error_exact(
            error,
            ErrorKind::PreconditionFailed,
            p.path,
            p.provider,
            None,
        )),
        (p.stage == DeleteStage::Rejected || p.stage == DeleteStage::RejectedConditional) && delete_step(
            p,
            ctx,
            event,
        ).2 is Finish ==> (event matches DeleteEventView::Refused(error) && delete_error_exact(
            error,
            expected_refusal(p.stage).0,
            p.path,
            p.provider,
            expected_refusal(p.stage).1,
        )),
{
}

/// The stages a deletion check can reach: only the conditional check
/// observes versions or attempts a stale or unavailable conditional
/// deletion, only the missing-ok check deletes an absent target, and only
/// the basic check attempts an unavailable deletion.
pub open spec fn delete_consistent(p: DeleteView) -> bool {
    &&& (p.stage == DeleteStage::Versions || p.stage == DeleteStage::DeleteStale || p.stage == DeleteStage::ReadRetained
        || p.stage == DeleteStage::ResolveConditional || p.stage == DeleteStage::RejectedConditional) ==> p.id
        == ContractCheckId::DeleteIfMatch
    &&& (p.stage == DeleteStage::ResolveMissing || p.stage == DeleteStage::ObserveAbsent || p.stage
        == DeleteStage::DeleteMissing || p.stage == DeleteStage::ObserveStillAbsent) ==> p.id
        == ContractCheckId::DeleteMissingOk
    &&& (p.stage == DeleteStage::ResolveRejected || p.stage == DeleteStage::Rejected) ==> p.id
        == ContractCheckId::DeleteBasic
}

/// Every deletion check starts in a consistent stage and every step keeps
/// it consistent: each kind of deletion is attempted only by its own check.
pub proof fn law_delete_stages_consistent(
    id: ContractCheckId,
    delete: bool,
    conditional: bool,
    provider: Seq<char>,
    p: DeleteView,
    ctx: ContextView,
    event: DeleteEventView,
)
    ensures
        delete_consistent(delete_start(id, delete, conditional, provider, ctx).0),
        delete_consistent(p) && delete_answers(p.stage, event) ==> delete_consistent(delete_step(p, ctx, event).0),
{
}

impl DeleteProbe {
    /// Starts the deletion check `id` in the suite context, given whether
    /// deletion and conditional deletion are advertised and the provider
    /// identity; returns the probe with its first request.
    pub fn new(ctx: &mut ContractContext, id: ContractCheckId, delete: bool, conditional: bool, provider: String) -> (started: (
        DeleteProbe,
        DeleteRequest,
    ))
        ensures
            (started.0@, final(ctx)@, started.1@) == delete_start(id, delete, conditional, provider@, old(ctx)@),
    {
        let mut probe = DeleteProbe {
            id,
            provider,
            name: String::new(),
            path: String::new(),
            current: String::new(),
            stage: DeleteStage::Finished,
        };
        let file_delete = match id {
            ContractCheckId::DeleteBasic | ContractCheckId::DeleteMissingOk | ContractCheckId::DeleteIfMatch => true,
            _ => false,
        };
        if !file_delete {
            return (
                probe,
                DeleteRequest::Fail { message: "selected entry is not a file deletion check", with_error: false },
            );
        }
        ctx.begin(id.as_str());
        probe.name = ctx.relative_name("delete-target");
        let name = probe.name.clone();
        if !delete && id != ContractCheckId::DeleteBasic {
            ctx.record_check(
                id,
                Some(probe.capability()),
                ContractCheckOutcome::NotApplicable { reason: String::from_str("Delete capability is unavailable") },
            );
            (probe, DeleteRequest::Finish)
        } else if !delete {
            probe.stage = DeleteStage::ResolveRejected;
            (probe, DeleteRequest::ResolvePath { name })
        } else if id == ContractCheckId::DeleteMissingOk {
            probe.stage = DeleteStage::ResolveMissing;
            (probe, DeleteRequest::ResolvePath { name })
        } else if id == ContractCheckId::DeleteIfMatch && !conditional {
            probe.stage = DeleteStage::ResolveConditional;
            (probe, DeleteRequest::ResolvePath { name })
        } else {
            probe.stage = DeleteStage::Prepare;
            (probe, DeleteRequest::PrepareDelete { name, contents: "delete evidence" })
        }
    }

    /// Returns the capability the check is recorded under.
    fn capability(&self) -> (capability: FileSystemCapability)
        ensures
            capability == delete_capability(self@.id),
    {
        if self.id == ContractCheckId::DeleteIfMatch {
            FileSystemCapability::ConditionalDelete
        } else {
            FileSystemCapability::Delete
        }
    }

    /// Returns the stage the check waits in.
    pub fn stage(&self) -> (stage: DeleteStage)
        ensures
            stage == self@.stage,
    {
        self.stage
    }

    /// Returns whether `event` answers the request the check waits on.
    pub fn expects(&self, event: &DeleteEvent) -> (answered: bool)
        ensures
            answered == delete_answers(self@.stage, event@),
    {
        match self.stage {
            DeleteStage::ResolveRejected | DeleteStage::ResolveMissing | DeleteStage::ResolveConditional => matches!(
                event,
                DeleteEvent::Resolved(_)
            ),
            DeleteStage::Rejected
            | DeleteStage::DeleteMissing
            | DeleteStage::RejectedConditional
            | DeleteStage::DeleteStale
            | DeleteStage::Delete => matches!(event, DeleteEvent::Deleted(_)),
            DeleteStage::ObserveAbsent | DeleteStage::ObserveStillAbsent | DeleteStage::ObserveDeleted => matches!(
                event,
                DeleteEvent::Observed(_)
            ),
            DeleteStage::Prepare => matches!(event, DeleteEvent::Prepared(_)),
            DeleteStage::ReadInitial | DeleteStage::ReadRetained => matches!(event, DeleteEvent::Read(_)),
            DeleteStage::Versions => matches!(event, DeleteEvent::Versions(_)),
            DeleteStage::Finished => false,
        }
    }

    /// Ends the check with the failure `message`.
    fn fail(&mut self, message: &'static str, with_error: bool) -> (request: DeleteRequest)
        ensures
            final(self)@ == (DeleteView { stage: DeleteStage::Finished, ..old(self)@ }),
            request@ == (DeleteRequestView::Fail { message: message@, with_error }),
    {
        self.stage = DeleteStage::Finished;
        DeleteRequest::Fail { message, with_error }
    }

    /// Ends the check by recording `outcome`.
    fn record(&mut self, ctx: &mut ContractContext, outcome: ContractCheckOutcome) -> (request: DeleteRequest)
        ensures
            final(self)@ == (DeleteView { stage: DeleteStage::Finished, ..old(self)@ }),
            final(ctx)@ == with_recorded(old(ctx)@, old(self)@.id, Some(delete_capability(old(self)@.id)), outcome@),
            request@ == DeleteRequestView::Finish,
    {
        self.stage = DeleteStage::Finished;
        let capability = self.capability();
        ctx.record_check(self.id, Some(capability), outcome);
        DeleteRequest::Finish
    }

    /// Returns whether a refusal carries exactly the context the current
    /// stage expects.
    fn refusal_matches(&self, error: &ErrorFacts) -> (exact: bool)
        ensures
            exact == delete_error_exact(
                error@,
                expected_refusal(self@.stage).0,
                self@.path,
                self@.provider,
                expected_refusal(self@.stage).1,
            ),
    {
        let (kind, capability) = match self.stage {
            DeleteStage::Rejected => (ErrorKind::UnsupportedCapability, Some(FileSystemCapability::Delete)),
            DeleteStage::RejectedConditional => (
                ErrorKind::RequirementNotMet,
                Some(FileSystemCapability::ConditionalDelete),
            ),
            _ => (ErrorKind::PreconditionFailed, None),
        };
        let operation_ok = match error.operation {
            OperationKind::Delete => true,
            _ => false,
        };
        error.kind == kind && operation_ok && text_is(&error.path, &self.path) && text_is(
            &error.provider,
            &self.provider,
        ) && error.required_capability == capability
    }

    /// Takes the answer to the pending request, records what the step
    /// names in the suite context, and returns the next request.
    pub fn advance(&mut self, ctx: &mut ContractContext, event: DeleteEvent) -> (request: DeleteRequest)
        requires
            delete_answers(old(self)@.stage, event@),
        ensures
            (final(self)@, final(ctx)@, request@) == delete_step(old(self)@, old(ctx)@, event@),
    {
        match self.stage {
            DeleteStage::ResolveRejected | DeleteStage::ResolveConditional | DeleteStage::ResolveMissing => {
                let path = match event {
                    DeleteEvent::Resolved(Some(path)) => path,
                    _ => {
                        return match self.stage {
                            DeleteStage::ResolveRejected => self.fail("delete path preparation failed", true),
                            DeleteStage::ResolveConditional => self.fail(
                                "conditional delete path preparation failed",
                                true,
                            ),
                            _ => self.fail("missing-delete path preparation failed", true),
                        };
                    },
                };
                self.path = path;
                match self.stage {
                    DeleteStage::ResolveRejected => {
                        self.stage = DeleteStage::Rejected;
                        DeleteRequest::DeleteFile { path: self.path.clone(), missing_ok: false, if_match: None }
                    },
                    DeleteStage::ResolveConditional => {
                        self.stage = DeleteStage::RejectedConditional;
                        DeleteRequest::DeleteFile {
                            path: self.path.clone(),
                            missing_ok: false,
                            if_match: Some(String::from_str("contract-version")),
                        }
                    },
                    _ => {
                        self.stage = DeleteStage::ObserveAbsent;
                        DeleteRequest::Observe { path: self.path.clone() }
                    },
                }
            },
            DeleteStage::Rejected | DeleteStage::RejectedConditional | DeleteStage::DeleteStale => match event {
                DeleteEvent::Deleted(Err(error)) => if !self.refusal_matches(&error) {
                    self.fail("delete error context differs", true)
                } else if self.stage == DeleteStage::DeleteStale {
                    self.stage = DeleteStage::ReadRetained;
                    DeleteRequest::Read { path: self.path.clone() }
                } else {
                    self.record(ctx, ContractCheckOutcome::RejectedAsExpected)
                },
                _ => match self.stage {
                    DeleteStage::Rejected => self.fail("unavailable deletion succeeded", false),
                    DeleteStage::RejectedConditional => self.fail("unavailable conditional deletion succeeded", false),
                    _ => self.fail("delete/if-match: stale version was accepted", false),
                },
            },
            DeleteStage::ObserveAbsent => match event {
                DeleteEvent::Observed(Presence::Present(false)) => {
                    ctx.record_created(self.path.clone());
                    self.stage = DeleteStage::DeleteMissing;
                    DeleteRequest::DeleteFile { path: self.path.clone(), missing_ok: true, if_match: None }
                },
                DeleteEvent::Observed(Presence::Failed) => self.fail("missing-delete initial observation failed", true),
                _ => self.fail("missing-delete fixture target must be absent", false),
            },
            DeleteStage::DeleteMissing => match event {
                DeleteEvent::Deleted(Ok(facts)) => if facts.already_missing {
                    self.stage = DeleteStage::ObserveStillAbsent;
                    DeleteRequest::Observe { path: self.path.clone() }
                } else {
                    self.fail("missing-ok outcome did not report absence", false)
                },
                _ => self.fail("missing-ok deletion failed", true),
            },
            DeleteStage::ObserveStillAbsent => match event {
                DeleteEvent::Observed(Presence::Present(false)) => self.record(ctx, ContractCheckOutcome::Passed),
                DeleteEvent::Observed(Presence::Failed) => self.fail("missing-delete final observation failed", true),
                _ => self.fail("missing-ok deletion created a resource", false),
            },
            DeleteStage::Prepare => match event {
                DeleteEvent::Prepared(DeletePreparation::Unavailable(reason))
                | DeleteEvent::Prepared(DeletePreparation::NotApplicable(reason)) => self.record(
                    ctx,
                    ContractCheckOutcome::Unverified { reason },
                ),
                DeleteEvent::Prepared(DeletePreparation::Ready(path)) => {
                    ctx.record_created(path.clone());
                    self.path = path;
                    self.stage = DeleteStage::ReadInitial;
                    DeleteRequest::Read { path: self.path.clone() }
                },
                _ => self.fail("delete scenario preparation failed", true),
            },
            DeleteStage::ReadInitial | DeleteStage::ReadRetained => {
                let contents = match event {
                    DeleteEvent::Read(contents) => contents,
                    _ => {
                        return DeleteRequest::Finish;
                    },
                };
                let failed = matches!(contents, Contents::Failed);
                let seen = holds_bytes(&contents, "delete evidence".as_bytes());
                if self.stage == DeleteStage::ReadInitial {
                    if failed {
                        self.fail("delete initial observation failed", true)
                    } else if !seen {
                        self.fail("delete seed lacks independently confirmed contents", false)
                    } else if self.id == ContractCheckId::DeleteIfMatch {
                        self.stage = DeleteStage::Versions;
                        DeleteRequest::ObserveVersions { path: self.path.clone() }
                    } else {
                        self.stage = DeleteStage::Delete;
                        DeleteRequest::DeleteFile { path: self.path.clone(), missing_ok: false, if_match: None }
                    }
                } else if failed {
                    self.fail("stale delete content observation failed", true)
                } else if !seen {
                    self.fail("stale delete changed target contents", false)
                } else {
                    self.stage = DeleteStage::Delete;
                    DeleteRequest::DeleteFile {
                        path: self.path.clone(),
                        missing_ok: false,
                        if_match: Some(self.current.clone()),
                    }
                }
            },
            DeleteStage::Versions => match event {
                DeleteEvent::Versions(VersionAnswer::CurrentFailed) => self.fail(
                    "delete current version observation failed",
                    true,
                ),
                DeleteEvent::Versions(VersionAnswer::StaleFailed) => self.fail(
                    "delete stale version observation failed",
                    true,
                ),
                DeleteEvent::Versions(VersionAnswer::Observed { current, stale }) => if current == stale {
                    self.fail("stale delete version equals the current version", false)
                } else {
                    self.current = current;
                    self.stage = DeleteStage::DeleteStale;
                    DeleteRequest::DeleteFile { path: self.path.clone(), missing_ok: false, if_match: Some(stale) }
                },
                _ => self.record(
                    ctx,
                    ContractCheckOutcome::Unverified {
                        reason: String::from_str("conditional delete needs current and stale versions"),
                    },
                ),
            },
            DeleteStage::Delete => match event {
                DeleteEvent::Deleted(Ok(facts)) => if facts.already_missing {
                    self.fail("delete/basic: existing file was reported missing", false)
                } else if matches!(facts.deleted_entries, Some(0)) {
                    self.fail("delete/basic: deleted count is zero", false)
                } else {
                    self.stage = DeleteStage::ObserveDeleted;
                    DeleteRequest::Observe { path: self.path.clone() }
                },
                _ => self.fail("delete/basic: deletion failed", true),
            },
            DeleteStage::ObserveDeleted => match event {
                DeleteEvent::Observed(Presence::Present(false)) => self.record(ctx, ContractCheckOutcome::Passed),
                DeleteEvent::Observed(Presence::Failed) => self.fail("delete publication observation failed", true),
                _ => self.fail("delete/basic: deleted file remained", false),
            },
            DeleteStage::Finished => DeleteRequest::Finish,
        }
    }
}

} // verus!
