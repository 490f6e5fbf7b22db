use vstd::prelude::*;

use crate::s3::error_mapper::StoreErrorClass;
use crate::s3::error_mapper::classify;
use crate::s3::error_mapper::fs_error_with_source;
use crate::s3::error_mapper::StoreFailureKind;
use crate::s3::error_mapper::failure_kind;
use crate::s3::error_mapper::kind_of;
use crate::s3::error_mapper::facade_kind;
use crate::s3::error_mapper::fs_error_kind;
use crate::s3::error_mapper::fs_error_operation;
use crate::s3::error_mapper::fs_error_message;
use crate::s3::error_mapper::fs_error_store_source;
use crate::s3::error_mapper::store_error_class;
use crate::fs_facts::ErrorKind;

verus! {

/// The most bytes a fixture writer buffers for its single PUT.
pub const WRITE_LIMIT: usize = 1048576;

/// How a write treats an existing destination.
#[derive(Clone, Copy, Debug, PartialEq, Eq, Structural)]
pub enum WriteDisposition {
    /// Create a new destination and fail if one exists.
    CreateNew,
    /// Create a destination or replace its contents.
    CreateOrReplace,
    /// Append to an existing destination.
    Append,
}

/// The version precondition of a write, without the version text.
#[derive(Clone, Copy, Debug, PartialEq, Eq, Structural)]
pub enum WritePreconditionKind {
    /// No precondition.
    Unconditional,
    /// The destination must not exist.
    IfAbsent,
    /// The destination must carry a given version.
    IfMatch,
}

/// The SDK PUT mode a write maps to.
#[derive(Clone, Copy, Debug, PartialEq, Eq, Structural)]
pub enum PutModeChoice {
    /// Create only when absent.
    Create,
    /// Replace only the version named by the precondition.
    Update,
}

/// The PUT mode a disposition and precondition map to, when the single-PUT
/// fixture can honor them.
pub open spec fn put_mode_of(disposition: WriteDisposition, precondition: WritePreconditionKind) -> Option<
    PutModeChoice,
> {
    match (disposition, precondition) {
        (WriteDisposition::CreateNew, WritePreconditionKind::Unconditional) => Some(PutModeChoice::Create),
        (WriteDisposition::CreateNew, WritePreconditionKind::IfAbsent) => Some(PutModeChoice::Create),
        (WriteDisposition::CreateOrReplace, WritePreconditionKind::IfAbsent) => Some(PutModeChoice::Create),
        (WriteDisposition::CreateOrReplace, WritePreconditionKind::IfMatch) => Some(PutModeChoice::Update),
        _ => None,
    }
}

/// Maps a disposition and precondition to the PUT mode, or `None` when the
/// fixture cannot honor them.
pub fn put_mode(disposition: WriteDisposition, precondition: WritePreconditionKind) -> (mode: Option<PutModeChoice>)
    ensures
        mode == put_mode_of(disposition, precondition),
{
    match (disposition, precondition) {
        (WriteDisposition::CreateNew, WritePreconditionKind::Unconditional) => Some(PutModeChoice::Create),
        (WriteDisposition::CreateNew, WritePreconditionKind::IfAbsent) => Some(PutModeChoice::Create),
        (WriteDisposition::CreateOrReplace, WritePreconditionKind::IfAbsent) => Some(PutModeChoice::Create),
        (WriteDisposition::CreateOrReplace, WritePreconditionKind::IfMatch) => Some(PutModeChoice::Update),
        _ => None,
    }
}

/// The write options beyond disposition and precondition that the fixture
/// cannot honor when requested.
pub struct WriteExtras {
    /// Creating missing parents was requested.
    pub create_parent: bool,
    /// Atomic publication was required.
    pub atomicity_required: bool,
    /// Durable publication was required.
    pub durability_required: bool,
    /// A content type was supplied.
    pub content_type: bool,
    /// A checksum was supplied.
    pub checksum: bool,
    /// User metadata was supplied.
    pub user_metadata: bool,
}

/// Whether any unsupported extra was requested.
pub open spec fn extras_requested(extras: WriteExtras) -> bool {
    extras.create_parent || extras.atomicity_required || extras.durability_required || extras.content_type
        || extras.checksum || extras.user_metadata
}

/// The diagnostic of options the single-PUT fixture cannot honor.
pub open spec fn unsupported_options_text() -> Seq<char> {
    "S3 fixture supports create-new or ETag-conditional replacement with best-effort untyped writes"@
}

/// Returns the diagnostic of options the single-PUT fixture cannot honor.
pub fn unsupported_options_message() -> (text: &'static str)
    ensures
        text@ == unsupported_options_text(),
{
    "S3 fixture supports create-new or ETag-conditional replacement with best-effort untyped writes"
}

/// Decides whether a writer can open: it needs a supported PUT mode and no
/// unsupported extra; `None` means the options are rejected before anything
/// is published.
pub fn admit_options(disposition: WriteDisposition, precondition: WritePreconditionKind, extras: &WriteExtras) -> (mode:
    Option<PutModeChoice>)
    ensures
        mode == (if extras_requested(*extras) {
            None
        } else {
            put_mode_of(disposition, precondition)
        }),
{
    let mode = put_mode(disposition, precondition);
    if extras.create_parent || extras.atomicity_required || extras.durability_required || extras.content_type
        || extras.checksum || extras.user_metadata {
        return None;
    }
    mode
}

/// The diagnostic of a write after the session stopped accepting bytes.
pub open spec fn closed_text() -> Seq<char> {
    "writer no longer accepts bytes"@
}

/// Returns the diagnostic of a write after the session stopped accepting
/// bytes.
pub fn closed_message() -> (text: &'static str)
    ensures
        text@ == closed_text(),
{
    "writer no longer accepts bytes"
}

/// The diagnostic of a write beyond the writer limit.
pub open spec fn limit_text() -> Seq<char> {
    "S3 contract writer limit exceeded"@
}

/// Returns the diagnostic of a write beyond the writer limit.
pub fn limit_message() -> (text: &'static str)
    ensures
        text@ == limit_text(),
{
    "S3 contract writer limit exceeded"
}

/// The diagnostic of a second commit.
pub open spec fn already_committed_text() -> Seq<char> {
    "writer already committed"@
}

/// Returns the diagnostic of a second commit.
pub fn already_committed_message() -> (text: &'static str)
    ensures
        text@ == already_committed_text(),
{
    "writer already committed"
}

/// The diagnostic of a conditional creation that met an existing object.
pub open spec fn conditional_creation_text() -> Seq<char> {
    "S3 conditional creation found an existing object"@
}

/// Returns the diagnostic of a conditional creation that met an existing
/// object.
pub fn conditional_creation_message() -> (text: &'static str)
    ensures
        text@ == conditional_creation_text(),
{
    "S3 conditional creation found an existing object"
}

/// The diagnostic of an injected abort failure.
pub open spec fn injected_abort_text() -> Seq<char> {
    "injected abort failure"@
}

/// Returns the diagnostic of an injected abort failure.
pub fn injected_abort_message() -> (text: &'static str)
    ensures
        text@ == injected_abort_text(),
{
    "injected abort failure"
}

/// Where a write session stands with respect to publication.
#[derive(Clone, Copy, Debug, PartialEq, Eq, Structural)]
pub enum SessionState {
    /// Nothing was published; the session accepts bytes and a commit.
    Open,
    /// The PUT succeeded.
    Published,
    /// A PUT was dispatched and its effect is unknown.
    Indeterminate,
}

/// Whether a write call is accepted.
#[derive(Clone, Copy, Debug, PartialEq, Eq, Structural)]
pub enum WriteAdmission {
    /// The bytes are buffered.
    Accepted,
    /// The session no longer accepts bytes.
    Closed,
    /// The bytes would exceed the writer limit.
    LimitExceeded,
}

/// The publication state a failed commit reports.
#[derive(Clone, Copy, Debug, PartialEq, Eq, Structural)]
pub enum FailureState {
    /// The target was not published.
    NotPublished,
    /// The target was published.
    Published,
    /// Publication is unknown.
    Indeterminate,
}

/// The SDK's answer to the PUT.
#[derive(Clone, Copy, Debug, PartialEq, Eq, Structural)]
pub enum PutResult {
    /// The PUT succeeded.
    Stored,
    /// The SDK rejected the PUT with the given error class.
    Rejected(StoreErrorClass),
}

/// What a commit decides.
#[derive(Clone, Copy, Debug, PartialEq, Eq, Structural)]
pub enum CommitVerdict {
    /// Dispatch the PUT with the buffered bytes.
    Dispatch,
    /// The session was already committed: refuse with an invalid-state
    /// error reporting this publication state.
    AlreadyCommitted(FailureState),
    /// The PUT succeeded with this many bytes.
    Committed(usize),
    /// The PUT failed; report this facade kind and publication state. A
    /// conditional creation that found an existing object reports a failed
    /// precondition.
    Failed {
        /// The facade error kind.
        kind: StoreFailureKind,
        /// Whether the existing-object case of a conditional creation applies.
        conditional_creation: bool,
        /// The publication state.
        state: FailureState,
    },
}

/// What an abort decides.
#[derive(Clone, Copy, Debug, PartialEq, Eq, Structural)]
pub enum AbortVerdict {
    /// An injected one-shot failure: the session is kept.
    InjectedFailure,
    /// Nothing was published; the buffered bytes are discarded.
    NotPublished,
    /// The target was already published.
    Published,
    /// Publication is unknown.
    Indeterminate,
}

/// The decisions of one single-PUT write session.
pub struct WriteSession {
    state: SessionState,
    buffered: usize,
    if_absent: bool,
}

/// The observable fields of a write session.
pub struct SessionView {
    /// The publication state.
    pub state: SessionState,
    /// The number of buffered bytes.
    pub buffered: usize,
    /// Whether the write required absence.
    pub if_absent: bool,
}

impl View for WriteSession {
    type V = SessionView;

    closed spec fn view(&self) -> SessionView {
        SessionView { state: self.state, buffered: self.buffered, if_absent: self.if_absent }
    }
}

/// The verdict on a write call.
pub open spec fn admission_of(state: SessionState, buffered: usize, count: usize) -> WriteAdmission {
    if state != SessionState::Open {
        WriteAdmission::Closed
    } else if buffered + count > WRITE_LIMIT {
        WriteAdmission::LimitExceeded
    } else {
        WriteAdmission::Accepted
    }
}

/// The verdict on the SDK's answer to a dispatched PUT.
pub open spec fn put_verdict(result: PutResult, if_absent: bool, buffered: usize) -> (SessionState, CommitVerdict) {
    match result {
        PutResult::Stored => (SessionState::Published, CommitVerdict::Committed(buffered)),
        PutResult::Rejected(class) => {
            let rejected = class == StoreErrorClass::AlreadyExists || class == StoreErrorClass::Precondition;
            let conditional = if_absent && class == StoreErrorClass::AlreadyExists;
            (
                if rejected {
                    SessionState::Open
                } else {
                    SessionState::Indeterminate
                },
                CommitVerdict::Failed {
                    kind: if conditional {
                        StoreFailureKind::PreconditionFailed
                    } else {
                        kind_of(class)
                    },
                    conditional_creation: conditional,
                    state: if rejected {
                        FailureState::NotPublished
                    } else {
                        FailureState::Indeterminate
                    },
                },
            )
        },
    }
}

/// The verdict on an abort.
pub open spec fn abort_of(state: SessionState, fail: bool) -> AbortVerdict {
    if fail {
        AbortVerdict::InjectedFailure
    } else {
        match state {
            SessionState::Open => AbortVerdict::NotPublished,
            SessionState::Published => AbortVerdict::Published,
            SessionState::Indeterminate => AbortVerdict::Indeterminate,
        }
    }
}

impl WriteSession {
    /// Opens a session with nothing buffered.
    pub fn new(if_absent: bool) -> (session: WriteSession)
        ensures
            session@ == (SessionView { state: SessionState::Open, buffered: 0, if_absent }),
    {
        WriteSession { state: SessionState::Open, buffered: 0, if_absent }
    }

    /// Returns the publication state.
    pub fn state(&self) -> (state: SessionState)
        ensures
            state == self@.state,
    {
        self.state
    }

    /// Returns the number of buffered bytes.
    pub fn buffered(&self) -> (count: usize)
        ensures
            count == self@.buffered,
    {
        self.buffered
    }

    /// Decides a write call of `count` bytes and buffers them when accepted.
    pub fn admit_write(&mut self, count: usize) -> (admission: WriteAdmission)
        ensures
            admission == admission_of(old(self)@.state, old(self)@.buffered, count),
            admission == WriteAdmission::Accepted ==> final(self)@ == (SessionView {
                buffered: (old(self)@.buffered + count) as usize,
                ..old(self)@
            }),
            admission != WriteAdmission::Accepted ==> final(self)@ == old(self)@,
    {
        if self.state != SessionState::Open {
            return WriteAdmission::Closed;
        }
        if self.buffered.saturating_add(count) > WRITE_LIMIT {
            return WriteAdmission::LimitExceeded;
        }
        self.buffered = self.buffered + count;
        WriteAdmission::Accepted
    }

    /// Returns how a commit would be refused now: `None` for an open
    /// session, else the publication state a second commit reports.
    pub fn commit_refusal(&self) -> (refusal: Option<FailureState>)
        ensures
            refusal == (match self@.state {
                SessionState::Open => None,
                SessionState::Published => Some(FailureState::Published),
                SessionState::Indeterminate => Some(FailureState::Indeterminate),
            }),
    {
        match self.state {
            SessionState::Open => None,
            SessionState::Published => Some(FailureState::Published),
            SessionState::Indeterminate => Some(FailureState::Indeterminate),
        }
    }

    /// Starts a commit. An open session dispatches its PUT and, from then
    /// on, counts as indeterminate until the SDK answers; any other session
    /// refuses the commit.
    pub fn begin_commit(&mut self) -> (verdict: CommitVerdict)
        ensures
            old(self)@.state == SessionState::Open ==> verdict == CommitVerdict::Dispatch && final(self)@ == (
            SessionView { state: SessionState::Indeterminate, ..old(self)@ }),
            old(self)@.state == SessionState::Published ==> verdict == CommitVerdict::AlreadyCommitted(
                FailureState::Published,
            ) && final(self)@ == old(self)@,
            old(self)@.state == SessionState::Indeterminate ==> verdict == CommitVerdict::AlreadyCommitted(
                FailureState::Indeterminate,
            ) && final(self)@ == old(self)@,
    {
        match self.state {
            SessionState::Open => {
                self.state = SessionState::Indeterminate;
                CommitVerdict::Dispatch
            },
            SessionState::Published => CommitVerdict::AlreadyCommitted(FailureState::Published),
            SessionState::Indeterminate => CommitVerdict::AlreadyCommitted(FailureState::Indeterminate),
        }
    }

    /// Settles a dispatched commit from the SDK's answer: success publishes
    /// and empties the buffer; an existence or precondition rejection
    /// reopens the session with its payload; anything else leaves
    /// publication unknown.
    pub fn finish_commit(&mut self, result: PutResult) -> (verdict: CommitVerdict)
        ensures
            (final(self)@.state, verdict) == put_verdict(result, old(self)@.if_absent, old(self)@.buffered),
            final(self)@.if_absent == old(self)@.if_absent,
            final(self)@.buffered == (if result == PutResult::Stored {
                0
            } else {
                old(self)@.buffered
            }),
    {
        match result {
            PutResult::Stored => {
                let count = self.buffered;
                self.buffered = 0;
                self.state = SessionState::Published;
                CommitVerdict::Committed(count)
            },
            PutResult::Rejected(class) => {
                let rejected = class == StoreErrorClass::AlreadyExists || class == StoreErrorClass::Precondition;
                let conditional = self.if_absent && class == StoreErrorClass::AlreadyExists;
                self.state = if rejected {
                    SessionState::Open
                } else {
                    SessionState::Indeterminate
                };
                CommitVerdict::Failed {
                    kind: if conditional {
                        StoreFailureKind::PreconditionFailed
                    } else {
                        failure_kind(class)
                    },
                    conditional_creation: conditional,
                    state: if rejected {
                        FailureState::NotPublished
                    } else {
                        FailureState::Indeterminate
                    },
                }
            },
        }
    }

    /// Settles a dispatched commit from the SDK's own answer: the variant of
    /// a rejection decides the verdict as `finish_commit` does, and a
    /// rejection also yields the facade error for `operation`, which keeps
    /// the SDK error as its source: a failed precondition for a conditional
    /// creation that met an existing object, the mapped kind otherwise.
    pub fn settle_put(
        &mut self,
        result: Result<(), object_store::Error>,
        operation: qubit_fs::error::FsOperation,
    ) -> (settled: (CommitVerdict, Option<qubit_fs::error::FsError>))
        ensures
            result is Ok ==> (final(self)@.state, settled.0) == put_verdict(
                PutResult::Stored,
                old(self)@.if_absent,
                old(self)@.buffered,
            ) && settled.1 is None,
            result matches Err(error) ==> {
                &&& (final(self)@.state, settled.0) == put_verdict(
                    PutResult::Rejected(store_error_class(error)),
                    old(self)@.if_absent,
                    old(self)@.buffered,
                )
                &&& settled.1 matches Some(failure) && fs_error_operation(failure) == operation
                    && fs_error_kind(failure) == (if old(self)@.if_absent && store_error_class(error)
                    == StoreErrorClass::AlreadyExists {
                    ErrorKind::PreconditionFailed
                } else {
                    facade_kind(kind_of(store_error_class(error)))
                })
                    && fs_error_message(failure) == (if old(self)@.if_absent && store_error_class(error)
                    == StoreErrorClass::AlreadyExists {
                    conditional_creation_text()
                } else {
                    crate::s3::error_mapper::mapped_message()
                }) && fs_error_store_source(failure) == Some(error)
            },
            final(self)@.if_absent == old(self)@.if_absent,
            final(self)@.buffered == (if result is Ok {
                0
            } else {
                old(self)@.buffered
            }),
    {
        match result {
            Ok(()) => (self.finish_commit(PutResult::Stored), None),
            Err(error) => {
                let class = classify(&error);
                let verdict = self.finish_commit(PutResult::Rejected(class));
                let conditional = match verdict {
                    CommitVerdict::Failed { conditional_creation, .. } => conditional_creation,
                    _ => false,
                };
                let failure = if conditional {
                    fs_error_with_source(
                        StoreFailureKind::PreconditionFailed,
                        operation,
                        conditional_creation_message(),
                        error,
                    )
                } else {
                    crate::s3::error_mapper::map(error, operation)
                };
                (verdict, Some(failure))
            },
        }
    }

    /// Decides an abort; an unpublished session discards its buffer.
    pub fn abort(&mut self, fail: bool) -> (verdict: AbortVerdict)
        ensures
            verdict == abort_of(old(self)@.state, fail),
            verdict == AbortVerdict::NotPublished ==> final(self)@ == (SessionView { buffered: 0, ..old(self)@ }),
            verdict != AbortVerdict::NotPublished ==> final(self)@ == old(self)@,
    {
        if fail {
            return AbortVerdict::InjectedFailure;
        }
        match self.state {
            SessionState::Open => {
                self.buffered = 0;
                AbortVerdict::NotPublished
            },
            SessionState::Published => AbortVerdict::Published,
            SessionState::Indeterminate => AbortVerdict::Indeterminate,
        }
    }
}

/// A session never buffers more than the writer limit.
pub proof fn law_buffer_stays_within_limit(state: SessionState, buffered: usize, count: usize)
    requires
        buffered <= WRITE_LIMIT,
        admission_of(state, buffered, count) == WriteAdmission::Accepted,
    ensures
        buffered + count <= WRITE_LIMIT,
{
}

/// Publication is final: a published session accepts no bytes, refuses a
/// second commit as published, and an abort reports it published.
pub proof fn law_publication_is_final(buffered: usize, count: usize, fail: bool)
    ensures
        admission_of(SessionState::Published, buffered, count) == WriteAdmission::Closed,
        !fail ==> abort_of(SessionState::Published, fail) == AbortVerdict::Published,
{
}

/// A commit that reached the SDK is reported unpublished only when the SDK
/// rejected it for existence or a precondition; otherwise a failure is
/// indeterminate, never unpublished.
pub proof fn law_dispatched_commit_is_never_falsely_unpublished(result: PutResult, if_absent: bool, buffered: usize)
    ensures
        (put_verdict(result, if_absent, buffered).1 matches CommitVerdict::Failed { state, .. } && state
            == FailureState::NotPublished) <==> (result == PutResult::Rejected(StoreErrorClass::AlreadyExists)
            || result == PutResult::Rejected(StoreErrorClass::Precondition)),
        put_verdict(result, if_absent, buffered).0 == SessionState::Open <==> (result == PutResult::Rejected(
            StoreErrorClass::AlreadyExists,
        ) || result == PutResult::Rejected(StoreErrorClass::Precondition)),
{
}

/// A conditional creation that meets an existing object fails its
/// precondition and keeps the payload for a retry.
pub proof fn law_create_only_collision_keeps_payload(buffered: usize)
    ensures
        put_verdict(PutResult::Rejected(StoreErrorClass::AlreadyExists), true, buffered) == (
            SessionState::Open,
            CommitVerdict::Failed {
                kind: StoreFailureKind::PreconditionFailed,
                conditional_creation: true,
                state: FailureState::NotPublished,
            },
        ),
{
}

} // verus!
