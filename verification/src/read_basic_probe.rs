//! Reader evidence for the basic read check, as a step machine: the driver
//! performs each request against the file system under test and hands the
//! answer back; a basic read that passes hands the seeded file on to the
//! read option checks.
use vstd::prelude::*;
use vstd::string::StringSliceAdditionalSpecFns;

use crate::capability::FileSystemCapability;
use crate::contract_check_id::ContractCheckId;
use crate::contract_check_outcome::ContractCheckOutcome;
use crate::contract_check_outcome::OutcomeView;
use crate::contract_context::ContextView;
use crate::contract_context::ContractContext;
use crate::contract_context::begun;
use crate::contract_context::relative_in;
use crate::contract_context::with_created;
use crate::contract_context::with_recorded;
use crate::fs_facts::ErrorFacts;
use crate::fs_facts::ErrorFactsView;
use crate::fs_facts::ErrorKind;
use crate::fs_facts::OperationKind;
use crate::fs_facts::SeedOutcome;
use crate::fs_facts::SeedView;
use crate::fs_facts::seed_view;
use crate::fs_facts::text_is;
use crate::fs_facts::text_of;

verus! {

/// The next thing the driver does for the basic read check.
#[derive(Debug, PartialEq, Eq)]
pub enum ReadRequest {
    /// Resolve this fixture-relative name to a provider path.
    ResolvePath {
        /// The fixture-relative name.
        name: String,
    },
    /// Open a reader at `path` with default options, which must be
    /// rejected.
    OpenRejectedReader {
        /// The path.
        path: String,
    },
    /// Ask the fixture to seed a file named `name` holding `bytes`.
    Seed {
        /// The fixture's name for the file.
        name: &'static str,
        /// The bytes to seed.
        bytes: &'static [u8],
    },
    /// Read all of `path` through the facade, accepting at most `limit`
    /// bytes.
    ReadAll {
        /// The path.
        path: String,
        /// The caller's byte limit.
        limit: u64,
    },
    /// The basic read passed: run the read option checks on `path`.
    ReadOptions {
        /// The seeded file.
        path: String,
    },
    /// The check was recorded.
    Finish,
    /// The check failed with `message`.
    Fail {
        /// The diagnostic.
        message: &'static str,
        /// Whether the error just answered is attached as the source.
        with_error: bool,
    },
}

/// The abstract form of a basic read request.
pub enum ReadRequestView {
    /// Resolve a name.
    ResolvePath { name: Seq<char> },
    /// Open a reader that must be rejected.
    OpenRejectedReader { path: Seq<char> },
    /// Seed a file.
    Seed { name: Seq<char>, bytes: Seq<u8> },
    /// Read with a byte limit.
    ReadAll { path: Seq<char>, limit: u64 },
    /// Run the read option checks.
    ReadOptions { path: Seq<char> },
    /// The check was recorded.
    Finish,
    /// The check failed.
    Fail { message: Seq<char>, with_error: bool },
}

impl View for ReadRequest {
    type V = ReadRequestView;

    open spec fn view(&self) -> ReadRequestView {
        match self {
            ReadRequest::ResolvePath { name } => ReadRequestView::ResolvePath { name: name@ },
            ReadRequest::OpenRejectedReader { path } => ReadRequestView::OpenRejectedReader { path: path@ },
            ReadRequest::Seed { name, bytes } => ReadRequestView::Seed { name: name@, bytes: bytes@ },
            ReadRequest::ReadAll { path, limit } => ReadRequestView::ReadAll { path: path@, limit: *limit },
            ReadRequest::ReadOptions { path } => ReadRequestView::ReadOptions { path: path@ },
            ReadRequest::Finish => ReadRequestView::Finish,
            ReadRequest::Fail { message, with_error } => ReadRequestView::Fail {
                message: message@,
                with_error: *with_error,
            },
        }
    }
}

/// The answer to the pending basic read request.
pub enum ReadEvent {
    /// The resolved path, or `None` when the fixture could not map it.
    Resolved(Option<String>),
    /// The reader that had to be rejected: its error, or `None` when it
    /// opened.
    Opened(Option<ErrorFacts>),
    /// The fixture's seeding answered.
    Seeded(SeedOutcome),
    /// A limited read answered: the bytes, or the error.
    ReadAll(Result<Vec<u8>, ErrorFacts>),
}

/// The abstract form of a basic read answer.
pub enum ReadEventView {
    /// A resolved path.
    Resolved(Option<Seq<char>>),
    /// An open rejection, or `None` for an opened reader.
    Opened(Option<ErrorFactsView>),
    /// A seeding answer.
    Seeded(SeedView),
    /// A limited read answer.
    ReadAll(Result<Seq<u8>, ErrorFactsView>),
}

impl View for ReadEvent {
    type V = ReadEventView;

    open spec fn view(&self) -> ReadEventView {
        match self {
            ReadEvent::Resolved(path) => ReadEventView::Resolved(text_of(*path)),
            ReadEvent::Opened(None) => ReadEventView::Opened(None),
            ReadEvent::Opened(Some(error)) => ReadEventView::Opened(Some(error@)),
            ReadEvent::Seeded(outcome) => ReadEventView::Seeded(seed_view(*outcome)),
            ReadEvent::ReadAll(Ok(bytes)) => ReadEventView::ReadAll(Ok(bytes@)),
            ReadEvent::ReadAll(Err(error)) => ReadEventView::ReadAll(Err(error@)),
        }
    }
}

/// The request the basic read check waits on.
#[derive(Clone, Copy, Debug, PartialEq, Eq, Structural)]
pub enum ReadStage {
    /// The path of a reader that must be rejected is being resolved.
    ResolveRejected,
    /// The reader that must be rejected is opening.
    Rejected,
    /// The fixture seeds the file.
    Seed,
    /// The seeded file is read within a generous limit.
    ReadAll,
    /// The seeded file is read within a limit below its length.
    ReadLimited,
    /// The check has finished.
    Finished,
}

/// The abstract state of the basic read check.
pub struct ReadView {
    /// The provider identity errors must report.
    pub provider: Seq<char>,
    /// The path read, once known.
    pub path: Seq<char>,
    /// The stage.
    pub stage: ReadStage,
}

/// Drives the basic read check: without read, opening a reader must be
/// rejected with exact context and every reader check does not apply; with
/// it, a seeded file must read back exactly and a read limit below its
/// length must be refused with exact context.
pub struct ReadBasicProbe {
    provider: String,
    path: String,
    stage: ReadStage,
}

impl View for ReadBasicProbe {
    type V = ReadView;

    closed spec fn view(&self) -> ReadView {
        ReadView { provider: self.provider@, path: self.path@, stage: self.stage }
    }
}

/// The bytes the basic read check seeds.
pub open spec fn seeded_bytes() -> Seq<u8> {
    "async bytes".spec_bytes()
}

/// The start of the basic read check over the suite context: the read
/// phase begins; without read the rejected path is resolved, and otherwise
/// the file is seeded.
pub open spec fn read_start(read: bool, provider: Seq<char>, ctx: ContextView) -> (
    ReadView,
    ContextView,
    ReadRequestView,
) {
    let ctx = begun(ctx, "read"@);
    let p = ReadView { provider, path: Seq::empty(), stage: ReadStage::Finished };
    if !read {
        (
            ReadView { stage: ReadStage::ResolveRejected, ..p },
            ctx,
            ReadRequestView::ResolvePath { name: relative_in(ctx, "async-read-unavailable"@) },
        )
    } else {
        (
            ReadView { stage: ReadStage::Seed, ..p },
            ctx,
            ReadRequestView::Seed { name: "async-read"@, bytes: seeded_bytes() },
        )
    }
}

/// The kind of answer a stage waits for.
pub open spec fn read_answers(stage: ReadStage, event: ReadEventView) -> bool {
    match stage {
        ReadStage::ResolveRejected => event is Resolved,
        ReadStage::Rejected => event is Opened,
        ReadStage::Seed => event is Seeded,
        ReadStage::ReadAll | ReadStage::ReadLimited => event is ReadAll,
        ReadStage::Finished => false,
    }
}

/// Whether an error reports exactly `kind` for `operation` on `path`,
/// naming no target and the provider.
pub open spec fn read_error_exact(
    error: ErrorFactsView,
    kind: ErrorKind,
    operation: OperationKind,
    path: Seq<char>,
    provider: Seq<char>,
) -> bool {
    &&& error.kind == kind
    &&& error.operation == operation
    &&& error.path == Some(path)
    &&& error.target is None
    &&& error.provider == Some(provider)
}

/// The context after a reader was refused without read: the basic read is
/// rejected as expected, and every other reader check does not apply.
pub open spec fn unavailable_recorded(ctx: ContextView) -> ContextView {
    let reason = OutcomeView::NotApplicable { reason: "Read capability is unavailable"@ };
    let ctx = with_recorded(
        ctx,
        ContractCheckId::ReadBasic,
        Some(FileSystemCapability::Read),
        OutcomeView::RejectedAsExpected,
    );
    let ctx = with_recorded(ctx, ContractCheckId::ReadRange, Some(FileSystemCapability::RangeRead), reason);
    let ctx = with_recorded(ctx, ContractCheckId::ReadRangeLimit, Some(FileSystemCapability::RangeRead), reason);
    let ctx = with_recorded(
        ctx,
        ContractCheckId::ReadIfMatchCurrent,
        Some(FileSystemCapability::ConditionalRead),
        reason,
    );
    let ctx = with_recorded(ctx, ContractCheckId::ReadIfMatchStale, Some(FileSystemCapability::ConditionalRead), reason);
    let ctx = with_recorded(
        ctx,
        ContractCheckId::ReadIfNoneMatchCurrent,
        Some(FileSystemCapability::ConditionalRead),
        reason,
    );
    let ctx = with_recorded(
        ctx,
        ContractCheckId::ReadIfNoneMatchStale,
        Some(FileSystemCapability::ConditionalRead),
        reason,
    );
    let ctx = with_recorded(ctx, ContractCheckId::ReadChecksum, Some(FileSystemCapability::ChecksumValidation), reason);
    with_recorded(ctx, ContractCheckId::ReadChecksumCorruption, Some(FileSystemCapability::ChecksumValidation), reason)
}

/// The transition of the basic read check at `p.stage` on `event`.
pub open spec fn read_step(p: ReadView, ctx: ContextView, event: ReadEventView) -> (
    ReadView,
    ContextView,
    ReadRequestView,
) {
    let done = ReadView { stage: ReadStage::Finished, ..p };
    let fail = |message: Seq<char>, with_error: bool| (done, ctx, ReadRequestView::Fail { message, with_error });
    match (p.stage, event) {
        (ReadStage::ResolveRejected, ReadEventView::Resolved(Some(path))) => (
            ReadView { path, stage: ReadStage::Rejected, ..p },
            ctx,
            ReadRequestView::OpenRejectedReader { path },
        ),
        (ReadStage::ResolveRejected, _) => fail("read contract: path preparation failed"@, true),
        (ReadStage::Rejected, ReadEventView::Opened(Some(error))) => if !read_error_exact(
            error,
            ErrorKind::UnsupportedCapability,
            OperationKind::OpenReader,
            p.path,
            p.provider,
        ) {
            fail("read contract: error context differs"@, true)
        } else if error.required_capability != Some(FileSystemCapability::Read) {
            fail("read contract: missing required-capability context"@, true)
        } else {
            (done, unavailable_recorded(ctx), ReadRequestView::Finish)
        },
        (ReadStage::Rejected, _) => fail("read contract: unadvertised reader open succeeded"@, false),
        (ReadStage::Seed, ReadEventView::Seeded(SeedView::Supported(path))) => (
            ReadView { path, stage: ReadStage::ReadAll, ..p },
            with_created(ctx, path),
            ReadRequestView::ReadAll { path, limit: 64 },
        ),
        (ReadStage::Seed, ReadEventView::Seeded(SeedView::Unsupported)) => fail(
            "read contract: advertised capability requires fixture.seed_file support"@,
            false,
        ),
        (ReadStage::Seed, _) => fail("read contract: fixture seed failed"@, true),
        (ReadStage::ReadAll, ReadEventView::ReadAll(Ok(bytes))) => if bytes == seeded_bytes() {
            (
                ReadView { stage: ReadStage::ReadLimited, ..p },
                ctx,
                ReadRequestView::ReadAll { path: p.path, limit: 4 },
            )
        } else {
            fail("read/basic: seeded bytes mismatch"@, false)
        },
        (ReadStage::ReadAll, _) => fail("read contract: facade could not read seeded bytes"@, true),
        (ReadStage::ReadLimited, ReadEventView::ReadAll(Err(error))) => if read_error_exact(
            error,
            ErrorKind::ResourceLimitExceeded,
            OperationKind::Read,
            p.path,
            p.provider,
        ) {
            (
                done,
                with_recorded(ctx, ContractCheckId::ReadBasic, Some(FileSystemCapability::Read), OutcomeView::Passed),
                ReadRequestView::ReadOptions { path: p.path },
            )
        } else {
            fail("read contract: error context differs"@, true)
        },
        (ReadStage::ReadLimited, _) => fail("read contract: caller byte limit was ignored"@, false),
        (_, _) => (p, ctx, ReadRequestView::Finish),
    }
}

/// The check after answering `events` in turn from `state`, stopping at the
/// first event that the pending stage does not wait for.
pub open spec fn read_trace(state: (ReadView, ContextView, ReadRequestView), events: Seq<ReadEventView>) -> (
    ReadView,
    ContextView,
    ReadRequestView,
)
    decreases events.len(),
{
    if events.len() == 0 || !read_answers(state.0.stage, events[0]) {
        state
    } else {
        read_trace(read_step(state.0, state.1, events[0]), events.drop_first())
    }
}

/// The basic read check records a pass, and hands the file on to the read
/// option checks, only when the limited read was refused with exact
/// context; it records the refusal without read only for an exact refusal
/// that names read as the missing capability.
pub proof fn law_read_passes_only_on_refused_limit(p: ReadView, ctx: ContextView, event: ReadEventView)
    requires
        read_answers(p.stage, event),
    ensures
        read_step(p, ctx, event).2 is ReadOptions ==> p.stage == ReadStage::ReadLimited && (
        event matches ReadEventView::ReadAll(Err(error)) && read_error_exact(
            error,
            ErrorKind::ResourceLimitExceeded,
            OperationKind::Read,
            p.path,
            p.provider,
        )) && read_step(p, ctx, event).1 == with_recorded(
            ctx,
            ContractCheckId::ReadBasic,
            Some(FileSystemCapability::Read),
            OutcomeView::Passed,
        ),
        p.stage == ReadStage::Rejected && read_step(p, ctx, event).2 is Finish ==> (event matches ReadEventView::Opened(
            Some(error),
        ) && read_error_exact(error, ErrorKind::UnsupportedCapability, OperationKind::OpenReader, p.path, p.provider)
            && error.required_capability == Some(FileSystemCapability::Read)),
{
}

/// With read advertised, the basic read check reaches the limited read only
/// after the fixture seeded the file and the facade read it back exactly;
/// that limited read then passes the check, handing the seeded file on,
/// exactly when it is refused for its limit with exact context.
pub proof fn law_read_pass_needs_full_evidence(
    provider: Seq<char>,
    ctx: ContextView,
    events: Seq<ReadEventView>,
    last: Result<Seq<u8>, ErrorFactsView>,
)
    requires
        read_trace(read_start(true, provider, ctx), events).0.stage == ReadStage::ReadLimited,
    ensures
        ({
            let reached = read_trace(read_start(true, provider, ctx), events);
            let answered = read_step(reached.0, reached.1, ReadEventView::ReadAll(last));
            &&& events.len() >= 2
            &&& events[0] == ReadEventView::Seeded(SeedView::Supported(reached.0.path))
            &&& events[1] == ReadEventView::ReadAll(Ok(seeded_bytes()))
            &&& (answered.2 is ReadOptions <==> (last matches Err(error) && read_error_exact(
                error,
                ErrorKind::ResourceLimitExceeded,
                OperationKind::Read,
                reached.0.path,
                provider,
            )))
            &&& !(answered.2 is ReadOptions) ==> answered.2 is Fail
        }),
{
    reveal_with_fuel(read_trace, 4);
    let start = read_start(true, provider, ctx);
    assert(events.len() >= 1 && read_answers(start.0.stage, events[0]));
    let first = read_step(start.0, start.1, events[0]);
    assert(first.0.stage == ReadStage::ReadAll);
    assert(events.drop_first().len() >= 1);
    assert(events.drop_first()[0] == events[1]);
}

impl ReadBasicProbe {
    /// Starts the basic read check in the suite context, given whether read
    /// is advertised and the provider identity; returns the probe with its
    /// first request.
    pub fn new(ctx: &mut ContractContext, read: bool, provider: String) -> (started: (ReadBasicProbe, ReadRequest))
        ensures
            (started.0@, final(ctx)@, started.1@) == read_start(read, provider@, old(ctx)@),
    {
        ctx.begin("read");
        let mut probe = ReadBasicProbe { provider, path: String::new(), stage: ReadStage::Finished };
        if !read {
            probe.stage = ReadStage::ResolveRejected;
            let name = ctx.relative_name("async-read-unavailable");
            (probe, ReadRequest::ResolvePath { name })
        } else {
            probe.stage = ReadStage::Seed;
            (probe, ReadRequest::Seed { name: "async-read", bytes: "async bytes".as_bytes() })
        }
    }

    /// Returns the request the check waits on.
    pub fn stage(&self) -> (stage: ReadStage)
        ensures
            stage == self@.stage,
    {
        self.stage
    }

    /// Returns whether `event` is the kind of answer the check waits for.
    pub fn expects(&self, event: &ReadEvent) -> (answered: bool)
        ensures
            answered == read_answers(self@.stage, event@),
    {
        match self.stage {
            ReadStage::ResolveRejected => matches!(event, ReadEvent::Resolved(_)),
            ReadStage::Rejected => matches!(event, ReadEvent::Opened(_)),
            ReadStage::Seed => matches!(event, ReadEvent::Seeded(_)),
            ReadStage::ReadAll | ReadStage::ReadLimited => matches!(event, ReadEvent::ReadAll(_)),
            ReadStage::Finished => false,
        }
    }

    /// Ends the check with the failure `message`.
    fn fail(&mut self, message: &'static str, with_error: bool) -> (request: ReadRequest)
        ensures
            final(self)@ == (ReadView { stage: ReadStage::Finished, ..old(self)@ }),
            request@ == (ReadRequestView::Fail { message: message@, with_error }),
    {
        self.stage = ReadStage::Finished;
        ReadRequest::Fail { message, with_error }
    }

    /// Returns whether `error` reports exactly `kind` for `operation` on the
    /// check's path, naming no target and the provider.
    fn exact(&self, error: &ErrorFacts, kind: ErrorKind, operation: OperationKind) -> (same: bool)
        ensures
            same == read_error_exact(error@, kind, operation, self@.path, self@.provider),
    {
        error.kind == kind && error.operation == operation && text_is(&error.path, &self.path)
            && error.target.is_none() && text_is(&error.provider, &self.provider)
    }

    /// Records the outcomes of a reader refused without read.
    fn record_unavailable(ctx: &mut ContractContext)
        ensures
            final(ctx)@ == unavailable_recorded(old(ctx)@),
    {
        ctx.record_check(
            ContractCheckId::ReadBasic,
            Some(FileSystemCapability::Read),
            ContractCheckOutcome::RejectedAsExpected,
        );
        let ids = [
            (ContractCheckId::ReadRange, FileSystemCapability::RangeRead),
            (ContractCheckId::ReadRangeLimit, FileSystemCapability::RangeRead),
            (ContractCheckId::ReadIfMatchCurrent, FileSystemCapability::ConditionalRead),
            (ContractCheckId::ReadIfMatchStale, FileSystemCapability::ConditionalRead),
            (ContractCheckId::ReadIfNoneMatchCurrent, FileSystemCapability::ConditionalRead),
            (ContractCheckId::ReadIfNoneMatchStale, FileSystemCapability::ConditionalRead),
            (ContractCheckId::ReadChecksum, FileSystemCapability::ChecksumValidation),
            (ContractCheckId::ReadChecksumCorruption, FileSystemCapability::ChecksumValidation),
        ];
        let ghost start = ctx@;
        let mut index: usize = 0;
        while index < 8
            invariant
                index <= 8,
                ids@ == seq![
                    (ContractCheckId::ReadRange, FileSystemCapability::RangeRead),
                    (ContractCheckId::ReadRangeLimit, FileSystemCapability::RangeRead),
                    (ContractCheckId::ReadIfMatchCurrent, FileSystemCapability::ConditionalRead),
                    (ContractCheckId::ReadIfMatchStale, FileSystemCapability::ConditionalRead),
                    (ContractCheckId::ReadIfNoneMatchCurrent, FileSystemCapability::ConditionalRead),
                    (ContractCheckId::ReadIfNoneMatchStale, FileSystemCapability::ConditionalRead),
                    (ContractCheckId::ReadChecksum, FileSystemCapability::ChecksumValidation),
                    (ContractCheckId::ReadChecksumCorruption, FileSystemCapability::ChecksumValidation),
                ],
                ctx@ == not_applicable_from(start, ids@, index as int),
            decreases 8 - index,
        {
            let (id, capability) = ids[index];
            ctx.record_check(
                id,
                Some(capability),
                ContractCheckOutcome::NotApplicable { reason: String::from_str("Read capability is unavailable") },
            );
            index = index + 1;
        }
        proof {
            reveal_with_fuel(not_applicable_from, 9);
        }
    }

    /// Takes the answer to the pending request, records what the step
    /// names in the suite context, and returns the next request.
    pub fn advance(&mut self, ctx: &mut ContractContext, event: ReadEvent) -> (request: ReadRequest)
        requires
            read_answers(old(self)@.stage, event@),
        ensures
            (final(self)@, final(ctx)@, request@) == read_step(old(self)@, old(ctx)@, event@),
    {
        match self.stage {
            ReadStage::ResolveRejected => match event {
                ReadEvent::Resolved(Some(path)) => {
                    self.path = path;
                    self.stage = ReadStage::Rejected;
                    ReadRequest::OpenRejectedReader { path: self.path.clone() }
                },
                _ => self.fail("read contract: path preparation failed", true),
            },
            ReadStage::Rejected => match event {
                ReadEvent::Opened(Some(error)) => {
                    if !self.exact(&error, ErrorKind::UnsupportedCapability, OperationKind::OpenReader) {
                        return self.fail("read contract: error context differs", true);
                    }
                    let names_read = match error.required_capability {
                        Some(FileSystemCapability::Read) => true,
                        _ => false,
                    };
                    if !names_read {
                        return self.fail("read contract: missing required-capability context", true);
                    }
                    self.stage = ReadStage::Finished;
                    Self::record_unavailable(ctx);
                    ReadRequest::Finish
                },
                _ => self.fail("read contract: unadvertised reader open succeeded", false),
            },
            ReadStage::Seed => match event {
                ReadEvent::Seeded(SeedOutcome::Supported(path)) => {
                    ctx.record_created(path.clone());
                    self.path = path;
                    self.stage = ReadStage::ReadAll;
                    ReadRequest::ReadAll { path: self.path.clone(), limit: 64 }
                },
                ReadEvent::Seeded(SeedOutcome::Unsupported) => self.fail(
                    "read contract: advertised capability requires fixture.seed_file support",
                    false,
                ),
                _ => self.fail("read contract: fixture seed failed", true),
            },
            ReadStage::ReadAll => match event {
                ReadEvent::ReadAll(Ok(bytes)) => {
                    let seen = crate::fs_facts::holds_bytes(
                        &crate::fs_facts::Contents::Bytes(bytes),
                        "async bytes".as_bytes(),
                    );
                    if seen {
                        self.stage = ReadStage::ReadLimited;
                        ReadRequest::ReadAll { path: self.path.clone(), limit: 4 }
                    } else {
                        self.fail("read/basic: seeded bytes mismatch", false)
                    }
                },
                _ => self.fail("read contract: facade could not read seeded bytes", true),
            },
            ReadStage::ReadLimited => match event {
                ReadEvent::ReadAll(Err(error)) => {
                    if self.exact(&error, ErrorKind::ResourceLimitExceeded, OperationKind::Read) {
                        self.stage = ReadStage::Finished;
                        ctx.record_check(
                            ContractCheckId::ReadBasic,
                            Some(FileSystemCapability::Read),
                            ContractCheckOutcome::Passed,
                        );
                        ReadRequest::ReadOptions { path: self.path.clone() }
                    } else {
                        self.fail("read contract: error context differs", true)
                    }
                },
                _ => self.fail("read contract: caller byte limit was ignored", false),
            },
            ReadStage::Finished => ReadRequest::Finish,
        }
    }
}

/// The context after recording, from position `count` back to the start of
/// `ids`, that each listed check does not apply for want of read.
pub open spec fn not_applicable_from(
    ctx: ContextView,
    ids: Seq<(ContractCheckId, FileSystemCapability)>,
    count: int,
) -> ContextView
    decreases count,
{
    if count <= 0 {
        ctx
    } else {
        with_recorded(
            not_applicable_from(ctx, ids, count - 1),
            ids[count - 1].0,
            Some(ids[count - 1].1),
            OutcomeView::NotApplicable { reason: "Read capability is unavailable"@ },
        )
    }
}

} // verus!
