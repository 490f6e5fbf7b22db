//! Range, conditional and checksum read evidence over one seeded file, as a
//! step machine: the driver performs each request against the file system
//! under test and hands the answer back.
use vstd::prelude::*;
use vstd::string::StringSliceAdditionalSpecFns;

use crate::capability::FileSystemCapability;
use crate::contract_check_id::ContractCheckId;
use crate::contract_check_outcome::ContractCheckOutcome;
use crate::contract_check_outcome::OutcomeView;
use crate::contract_context::ContextView;
use crate::contract_context::ContractContext;
use crate::contract_context::relative_in;
use crate::contract_context::with_created;
use crate::contract_context::with_recorded;
use crate::fs_facts::ErrorFacts;
use crate::fs_facts::ErrorFactsView;
use crate::fs_facts::ErrorKind;
use crate::fs_facts::OperationKind;
use crate::fs_facts::SeedOutcome;
use crate::fs_facts::SeedView;
use crate::fs_facts::seed_view;
use crate::fs_facts::text_is;
use crate::fs_facts::text_of;

verus! {

/// The options of one read request.
#[derive(Debug, PartialEq, Eq)]
pub struct ReadRequestOptions {
    /// The first byte to read, when given.
    pub offset: Option<u64>,
    /// How many bytes to read, when given.
    pub length: Option<u64>,
    /// The version the file must have, when given.
    pub if_match: Option<String>,
    /// A version the file must not have, when given.
    pub if_none_match: Option<String>,
    /// Whether checksum validation is required.
    pub checksum: bool,
}

/// The abstract form of read options.
pub struct ReadOptionsView {
    /// The first byte.
    pub offset: Option<u64>,
    /// The length.
    pub length: Option<u64>,
    /// The required version.
    pub if_match: Option<Seq<char>>,
    /// The excluded version.
    pub if_none_match: Option<Seq<char>>,
    /// Whether checksum validation is required.
    pub checksum: bool,
}

impl View for ReadRequestOptions {
    type V = ReadOptionsView;

    open spec fn view(&self) -> ReadOptionsView {
        ReadOptionsView {
            offset: self.offset,
            length: self.length,
            if_match: text_of(self.if_match),
            if_none_match: text_of(self.if_none_match),
            checksum: self.checksum,
        }
    }
}

/// The next thing the driver does for the read options checks.
#[derive(Debug, PartialEq, Eq)]
pub enum ReadRequest {
    /// Read all bytes of `path` with `options` through the facade.
    ReadAll {
        /// The path.
        path: String,
        /// The options.
        options: ReadRequestOptions,
    },
    /// Open a reader at `path` with `options` through the facade.
    OpenReader {
        /// The path.
        path: String,
        /// The options.
        options: ReadRequestOptions,
    },
    /// Ask the fixture whether it prepares the If-Match and If-None-Match
    /// cases and, when it prepares either, for the current version of
    /// `path`.
    ConditionalSupport {
        /// The path.
        path: String,
    },
    /// Ask the fixture for a valid version that cannot match `path`.
    StaleVersion {
        /// The path.
        path: String,
    },
    /// Ask the fixture for a resource whose checksum is invalid, under this
    /// fixture-relative name.
    ChecksumFailureCase {
        /// The fixture-relative name.
        name: String,
    },
    /// The checks were recorded.
    Finish,
    /// The checks failed with `message`.
    Fail {
        /// The diagnostic.
        message: &'static str,
        /// Whether the error just answered is attached as the source.
        with_error: bool,
    },
}

/// The abstract form of a read options request.
pub enum ReadRequestView {
    /// Read all bytes.
    ReadAll { path: Seq<char>, options: ReadOptionsView },
    /// Open a reader.
    OpenReader { path: Seq<char>, options: ReadOptionsView },
    /// Ask for conditional support.
    ConditionalSupport { path: Seq<char> },
    /// Ask for a stale version.
    StaleVersion { path: Seq<char> },
    /// Ask for a checksum failure case.
    ChecksumFailureCase { name: Seq<char> },
    /// The checks were recorded.
    Finish,
    /// The checks failed.
    Fail { message: Seq<char>, with_error: bool },
}

impl View for ReadRequest {
    type V = ReadRequestView;

    open spec fn view(&self) -> ReadRequestView {
        match self {
            ReadRequest::ReadAll { path, options } => ReadRequestView::ReadAll { path: path@, options: options@ },
            ReadRequest::OpenReader { path, options } => ReadRequestView::OpenReader {
                path: path@,
                options: options@,
            },
            ReadRequest::ConditionalSupport { path } => ReadRequestView::ConditionalSupport { path: path@ },
            ReadRequest::StaleVersion { path } => ReadRequestView::StaleVersion { path: path@ },
            ReadRequest::ChecksumFailureCase { name } => ReadRequestView::ChecksumFailureCase { name: name@ },
            ReadRequest::Finish => ReadRequestView::Finish,
            ReadRequest::Fail { message, with_error } => ReadRequestView::Fail {
                message: message@,
                with_error: *with_error,
            },
        }
    }
}

/// What the fixture said of the conditional read cases.
pub enum ConditionalSupport {
    /// Asking about the If-Match case failed.
    IfMatchQueryFailed,
    /// Asking about the If-None-Match case failed.
    IfNoneMatchQueryFailed,
    /// Observing the current version failed.
    VersionFailed,
    /// Which cases the fixture prepares, and the current version when it
    /// prepares either and supplies one.
    Known {
        /// Whether the If-Match case is prepared.
        if_match: bool,
        /// Whether the If-None-Match case is prepared.
        if_none_match: bool,
        /// The current version.
        version: Option<String>,
    },
}

/// What a stale version request answered.
pub enum StaleAnswer {
    /// The observation failed.
    Failed,
    /// The fixture cannot supply one.
    Unsupported,
    /// The stale version.
    Observed(String),
}

/// The answer to the pending read options request.
pub enum ReadEvent {
    /// A full read answered: the bytes, or the error.
    ReadAll(Result<Vec<u8>, ErrorFacts>),
    /// An open answered: success, or the error.
    Opened(Result<(), ErrorFacts>),
    /// The conditional support answered.
    Support(ConditionalSupport),
    /// The stale version answered.
    Stale(StaleAnswer),
    /// The checksum failure case answered.
    FailureCase(SeedOutcome),
}

/// The abstract form of the conditional support.
pub enum SupportView {
    /// If-Match query failed.
    IfMatchQueryFailed,
    /// If-None-Match query failed.
    IfNoneMatchQueryFailed,
    /// Version observation failed.
    VersionFailed,
    /// Known support.
    Known { if_match: bool, if_none_match: bool, version: Option<Seq<char>> },
}

/// The abstract form of a stale version answer.
pub enum StaleView {
    /// Failed.
    Failed,
    /// Unsupported.
    Unsupported,
    /// Observed.
    Observed(Seq<char>),
}

/// The abstract form of a read options answer.
pub enum ReadEventView {
    /// Bytes read.
    Bytes(Seq<u8>),
    /// A reader opened.
    Opened,
    /// A read or open failed.
    Refused(ErrorFactsView),
    /// The conditional support.
    Support(SupportView),
    /// A stale version answer.
    Stale(StaleView),
    /// A checksum failure case answer.
    FailureCase(SeedView),
}

impl View for ReadEvent {
    type V = ReadEventView;

    open spec fn view(&self) -> ReadEventView {
        match self {
            ReadEvent::ReadAll(Ok(bytes)) => ReadEventView::Bytes(bytes@),
            ReadEvent::ReadAll(Err(error)) => ReadEventView::Refused(error@),
            ReadEvent::Opened(Ok(())) => ReadEventView::Opened,
            ReadEvent::Opened(Err(error)) => ReadEventView::Refused(error@),
            ReadEvent::Support(ConditionalSupport::IfMatchQueryFailed) => ReadEventView::Support(
                SupportView::IfMatchQueryFailed,
            ),
            ReadEvent::Support(ConditionalSupport::IfNoneMatchQueryFailed) => ReadEventView::Support(
                SupportView::IfNoneMatchQueryFailed,
            ),
            ReadEvent::Support(ConditionalSupport::VersionFailed) => ReadEventView::Support(SupportView::VersionFailed),
            ReadEvent::Support(ConditionalSupport::Known { if_match, if_none_match, version }) => ReadEventView::Support(
                SupportView::Known { if_match: *if_match, if_none_match: *if_none_match, version: text_of(*version) },
            ),
            ReadEvent::Stale(StaleAnswer::Failed) => ReadEventView::Stale(StaleView::Failed),
            ReadEvent::Stale(StaleAnswer::Unsupported) => ReadEventView::Stale(StaleView::Unsupported),
            ReadEvent::Stale(StaleAnswer::Observed(version)) => ReadEventView::Stale(StaleView::Observed(version@)),
            ReadEvent::FailureCase(outcome) => ReadEventView::FailureCase(seed_view(*outcome)),
        }
    }
}

/// The request the read options checks wait on.
#[derive(Clone, Copy, Debug, PartialEq, Eq, Structural)]
pub enum ReadStage {
    /// The advertised range is read.
    Range,
    /// A reader at the declared range limit opens.
    Boundary,
    /// A reader one byte over the limit opens.
    Over,
    /// The unadvertised range read must be rejected.
    RangeRejected,
    /// The fixture's conditional support is asked for.
    Support,
    /// The file is read under its current version.
    IfMatchCurrent,
    /// A stale version for If-Match is asked for.
    IfMatchStaleVersion,
    /// A reader under the stale version opens.
    IfMatchStale,
    /// The unadvertised conditional read must be rejected.
    ConditionalRejected,
    /// A reader excluding the current version opens.
    NoneMatchCurrent,
    /// A stale version for If-None-Match is asked for.
    NoneMatchStaleVersion,
    /// The file is read excluding the stale version.
    NoneMatchStale,
    /// The file is read with checksum validation.
    Checksum,
    /// The fixture's checksum failure case is asked for.
    ChecksumCase,
    /// The corrupted file is read with checksum validation.
    ChecksumCorrupt,
    /// The unadvertised checksum validation must be rejected.
    ChecksumRejected,
    /// The checks have finished.
    Finished,
}

/// The abstract state of the read options checks.
pub struct ReadView {
    /// The seeded file.
    pub path: Seq<char>,
    /// The provider identity errors must report.
    pub provider: Seq<char>,
    /// The declared largest range, when it is a known maximum.
    pub range_limit: Option<u64>,
    /// The largest range limit the checks probe.
    pub budget: u64,
    /// Whether conditional reads are advertised.
    pub conditional: bool,
    /// Whether checksum validation is advertised.
    pub checksum: bool,
    /// Whether the fixture prepares the If-None-Match cases.
    pub none_match_case: bool,
    /// The current version, once known.
    pub version: Option<Seq<char>>,
    /// The checksum failure case, once known.
    pub corrupt: Seq<char>,
    /// The stage.
    pub stage: ReadStage,
}

/// Drives the range, conditional and checksum read checks over one file
/// holding the basic read bytes: each advertised option must behave as
/// the contract says, and each unadvertised one must be refused as an
/// unmet requirement.
pub struct ReadOptionsProbe {
    path: String,
    provider: String,
    range_limit: Option<u64>,
    budget: u64,
    conditional: bool,
    checksum: bool,
    none_match_case: bool,
    version: Option<String>,
    corrupt: String,
    stage: ReadStage,
}

impl View for ReadOptionsProbe {
    type V = ReadView;

    closed spec fn view(&self) -> ReadView {
        ReadView {
            path: self.path@,
            provider: self.provider@,
            range_limit: self.range_limit,
            budget: self.budget,
            conditional: self.conditional,
            checksum: self.checksum,
            none_match_case: self.none_match_case,
            version: text_of(self.version),
            corrupt: self.corrupt@,
            stage: self.stage,
        }
    }
}

/// The bytes of the seeded file.
pub open spec fn seeded_bytes() -> Seq<u8> {
    "async bytes".spec_bytes()
}

/// The range length the checks read: five bytes, or the declared limit
/// when it is smaller.
pub open spec fn range_length(limit: Option<u64>) -> u64 {
    match limit {
        Some(maximum) => if maximum < 5 {
            maximum
        } else {
            5
        },
        None => 5,
    }
}

/// Read options with nothing set.
pub open spec fn plain() -> ReadOptionsView {
    ReadOptionsView { offset: None, length: None, if_match: None, if_none_match: None, checksum: false }
}

/// Whether an error is exactly the expected failure of opening a reader on
/// `path`: its kind, the open-reader operation, the path, no target, and
/// the provider.
pub open spec fn reader_error_exact(error: ErrorFactsView, kind: ErrorKind, path: Seq<char>, provider: Seq<char>) -> bool {
    &&& error.kind == kind
    &&& error.operation == OperationKind::OpenReader
    &&& error.path == Some(path)
    &&& error.target is None
    &&& error.provider == Some(provider)
}

/// Whether an error is exactly the refusal of an unadvertised read option:
/// an unmet requirement of opening a reader, naming the provider and the
/// option's capability.
pub open spec fn requirement_exact(error: ErrorFactsView, capability: FileSystemCapability, provider: Seq<char>) -> bool {
    &&& error.kind == ErrorKind::RequirementNotMet
    &&& error.operation == OperationKind::OpenReader
    &&& error.provider == Some(provider)
    &&& error.required_capability == Some(capability)
}

/// Records `outcome` for `id` under `capability`.
pub open spec fn noted(
    ctx: ContextView,
    id: ContractCheckId,
    capability: FileSystemCapability,
    outcome: OutcomeView,
) -> ContextView {
    with_recorded(ctx, id, Some(capability), outcome)
}

/// The start of the read options checks: an advertised range is read, and
/// an unadvertised one must be refused.
pub open spec fn read_start(
    path: Seq<char>,
    range: bool,
    range_limit: Option<u64>,
    budget: u64,
    conditional: bool,
    checksum: bool,
    provider: Seq<char>,
) -> (ReadView, ReadRequestView) {
    let p = ReadView {
        path,
        provider,
        range_limit,
        budget,
        conditional,
        checksum,
        none_match_case: false,
        version: None,
        corrupt: Seq::empty(),
        stage: if range {
            ReadStage::Range
        } else {
            ReadStage::RangeRejected
        },
    };
    let options = ReadOptionsView { offset: Some(0), length: Some(range_length(range_limit)), ..plain() };
    if range {
        (p, ReadRequestView::ReadAll { path, options })
    } else {
        (p, ReadRequestView::OpenReader { path, options })
    }
}

/// The checksum checks, once the conditional ones are recorded.
pub open spec fn checksum_phase(p: ReadView, ctx: ContextView) -> (ReadView, ContextView, ReadRequestView) {
    let options = ReadOptionsView { checksum: true, ..plain() };
    if p.checksum {
        (ReadView { stage: ReadStage::Checksum, ..p }, ctx, ReadRequestView::ReadAll { path: p.path, options })
    } else {
        (
            ReadView { stage: ReadStage::ChecksumRejected, ..p },
            ctx,
            ReadRequestView::OpenReader { path: p.path, options },
        )
    }
}

/// The If-None-Match checks, once the If-Match ones are recorded.
pub open spec fn none_match_phase(p: ReadView, ctx: ContextView) -> (ReadView, ContextView, ReadRequestView) {
    if !p.conditional {
        checksum_phase(
            p,
            noted(
                noted(ctx, ContractCheckId::ReadIfNoneMatchCurrent, FileSystemCapability::ConditionalRead, OutcomeView::RejectedAsExpected),
                ContractCheckId::ReadIfNoneMatchStale,
                FileSystemCapability::ConditionalRead,
                OutcomeView::RejectedAsExpected,
            ),
        )
    } else {
        match p.version {
            Some(version) => if p.none_match_case {
                (
                    ReadView { stage: ReadStage::NoneMatchCurrent, ..p },
                    ctx,
                    ReadRequestView::OpenReader {
                        path: p.path,
                        options: ReadOptionsView { if_none_match: Some(version), ..plain() },
                    },
                )
            } else {
                none_match_unverified(p, ctx)
            },
            None => none_match_unverified(p, ctx),
        }
    }
}

/// Both If-None-Match checks recorded as unverifiable, then the checksum
/// checks.
pub open spec fn none_match_unverified(p: ReadView, ctx: ContextView) -> (ReadView, ContextView, ReadRequestView) {
    let reason = OutcomeView::Unverified { reason: "fixture cannot prepare If-None-Match cases"@ };
    checksum_phase(
        p,
        noted(
            noted(ctx, ContractCheckId::ReadIfNoneMatchCurrent, FileSystemCapability::ConditionalRead, reason),
            ContractCheckId::ReadIfNoneMatchStale,
            FileSystemCapability::ConditionalRead,
            reason,
        ),
    )
}

/// The conditional checks, once the range ones are recorded.
pub open spec fn conditional_phase(p: ReadView, ctx: ContextView) -> (ReadView, ContextView, ReadRequestView) {
    if p.conditional {
        (ReadView { stage: ReadStage::Support, ..p }, ctx, ReadRequestView::ConditionalSupport { path: p.path })
    } else {
        (
            ReadView { stage: ReadStage::ConditionalRejected, ..p },
            ctx,
            ReadRequestView::OpenReader {
                path: p.path,
                options: ReadOptionsView { if_match: Some("contract-version"@), ..plain() },
            },
        )
    }
}

/// The range-limit check after the range read passed.
pub open spec fn range_limit_phase(p: ReadView, ctx: ContextView) -> (ReadView, ContextView, ReadRequestView) {
    match p.range_limit {
        Some(maximum) => if maximum < p.budget {
            (
                ReadView { stage: ReadStage::Boundary, ..p },
                ctx,
                ReadRequestView::OpenReader {
                    path: p.path,
                    options: ReadOptionsView { length: Some(maximum), ..plain() },
                },
            )
        } else {
            conditional_phase(
                p,
                noted(
                    ctx,
                    ContractCheckId::ReadRangeLimit,
                    FileSystemCapability::RangeRead,
                    OutcomeView::SkippedOptional { reason: "range boundary exceeds the bounded probe budget"@ },
                ),
            )
        },
        None => conditional_phase(
            p,
            noted(
                ctx,
                ContractCheckId::ReadRangeLimit,
                FileSystemCapability::RangeRead,
                OutcomeView::SkippedOptional { reason: "range limit is unknown, inapplicable, or unbounded"@ },
            ),
        ),
    }
}

/// The kind of answer a stage waits for.
pub open spec fn read_answers(stage: ReadStage, event: ReadEventView) -> bool {
    match stage {
        ReadStage::Support => event is Support,
        ReadStage::IfMatchStaleVersion | ReadStage::NoneMatchStaleVersion => event is Stale,
        ReadStage::ChecksumCase => event is FailureCase,
        ReadStage::Range | ReadStage::IfMatchCurrent | ReadStage::NoneMatchStale | ReadStage::Checksum
        | ReadStage::ChecksumCorrupt => event is Bytes || event is Refused,
        ReadStage::Finished => false,
        _ => event is Opened || event is Refused,
    }
}

/// The transition of the read options checks at `p.stage` on `event`.
pub open spec fn read_step(p: ReadView, ctx: ContextView, event: ReadEventView) -> (ReadView, ContextView, ReadRequestView) {
    let done = ReadView { stage: ReadStage::Finished, ..p };
    let fail = |message: Seq<char>, with_error: bool| (done, ctx, ReadRequestView::Fail { message, with_error });
    let mismatch = fail("read contract: error context differs"@, true);
    let conditional_read = FileSystemCapability::ConditionalRead;
    match (p.stage, event) {
        (ReadStage::Range, ReadEventView::Bytes(bytes)) => if bytes == seeded_bytes().subrange(
            0,
            range_length(p.range_limit) as int,
        ) {
            range_limit_phase(
                p,
                noted(ctx, ContractCheckId::ReadRange, FileSystemCapability::RangeRead, OutcomeView::Passed),
            )
        } else {
            fail("read contract: range mismatch"@, false)
        },
        (ReadStage::Range, _) => fail("read contract: advertised range read failed"@, true),
        (ReadStage::Boundary, ReadEventView::Opened) => match p.range_limit {
            Some(maximum) => if maximum < p.budget {
                (
                    ReadView { stage: ReadStage::Over, ..p },
                    ctx,
                    ReadRequestView::OpenReader {
                        path: p.path,
                        options: ReadOptionsView { length: Some((maximum + 1) as u64), ..plain() },
                    },
                )
            } else {
                (p, ctx, ReadRequestView::Finish)
            },
            None => (p, ctx, ReadRequestView::Finish),
        },
        (ReadStage::Boundary, _) => fail("read/range-limit: boundary request was rejected"@, true),
        (ReadStage::Over, ReadEventView::Refused(error)) => if reader_error_exact(
            error,
            ErrorKind::ResourceLimitExceeded,
            p.path,
            p.provider,
        ) {
            conditional_phase(
                p,
                noted(ctx, ContractCheckId::ReadRangeLimit, FileSystemCapability::RangeRead, OutcomeView::Passed),
            )
        } else {
            mismatch
        },
        (ReadStage::Over, _) => fail("read/range-limit: declared range limit was ignored"@, false),
        (ReadStage::RangeRejected, ReadEventView::Refused(error)) => if requirement_exact(
            error,
            FileSystemCapability::RangeRead,
            p.provider,
        ) {
            conditional_phase(
                p,
                noted(
                    noted(
                        ctx,
                        ContractCheckId::ReadRange,
                        FileSystemCapability::RangeRead,
                        OutcomeView::RejectedAsExpected,
                    ),
                    ContractCheckId::ReadRangeLimit,
                    FileSystemCapability::RangeRead,
                    OutcomeView::NotApplicable { reason: "RangeRead capability is unavailable"@ },
                ),
            )
        } else {
            mismatch
        },
        (ReadStage::RangeRejected, _) => fail("read contract: unadvertised range read succeeded"@, false),
        (ReadStage::Support, ReadEventView::Support(SupportView::Known { if_match, if_none_match, version })) => {
            let version = if if_match || if_none_match {
                version
            } else {
                None
            };
            let p = ReadView { none_match_case: if_none_match, version, ..p };
            match version {
                Some(current) => if if_match {
                    (
                        ReadView { stage: ReadStage::IfMatchCurrent, ..p },
                        ctx,
                        ReadRequestView::ReadAll {
                            path: p.path,
                            options: ReadOptionsView { if_match: Some(current), ..plain() },
                        },
                    )
                } else {
                    if_match_unverified(p, ctx)
                },
                None => if_match_unverified(p, ctx),
            }
        },
        (ReadStage::Support, ReadEventView::Support(SupportView::IfMatchQueryFailed)) => fail(
            "conditional-read contract: If-Match case query failed"@,
            true,
        ),
        (ReadStage::Support, ReadEventView::Support(SupportView::IfNoneMatchQueryFailed)) => fail(
            "conditional-read contract: If-None-Match case query failed"@,
            true,
        ),
        (ReadStage::Support, _) => fail("read contract: version observation failed"@, true),
        (ReadStage::IfMatchCurrent, ReadEventView::Bytes(bytes)) => if bytes == seeded_bytes() {
            (
                ReadView { stage: ReadStage::IfMatchStaleVersion, ..p },
                noted(ctx, ContractCheckId::ReadIfMatchCurrent, conditional_read, OutcomeView::Passed),
                ReadRequestView::StaleVersion { path: p.path },
            )
        } else {
            fail("read/if-match-current: conditional read returned other bytes"@, false)
        },
        (ReadStage::IfMatchCurrent, _) => fail("read contract: advertised conditional read failed"@, true),
        (ReadStage::IfMatchStaleVersion, ReadEventView::Stale(StaleView::Observed(stale))) => (
            ReadView { stage: ReadStage::IfMatchStale, ..p },
            ctx,
            ReadRequestView::OpenReader { path: p.path, options: ReadOptionsView { if_match: Some(stale), ..plain() } },
        ),
        (ReadStage::IfMatchStaleVersion, ReadEventView::Stale(StaleView::Unsupported)) => none_match_phase(
            p,
            noted(
                ctx,
                ContractCheckId::ReadIfMatchStale,
                conditional_read,
                OutcomeView::Unverified { reason: "fixture cannot prepare stale If-Match case"@ },
            ),
        ),
        (ReadStage::IfMatchStaleVersion, _) => fail(
            "conditional-read contract: stale version observation failed"@,
            true,
        ),
        (ReadStage::IfMatchStale, ReadEventView::Refused(error)) => if reader_error_exact(
            error,
            ErrorKind::PreconditionFailed,
            p.path,
            p.provider,
        ) {
            none_match_phase(
                p,
                noted(ctx, ContractCheckId::ReadIfMatchStale, conditional_read, OutcomeView::RejectedAsExpected),
            )
        } else {
            mismatch
        },
        (ReadStage::IfMatchStale, _) => fail("read/if-match-stale: stale If-Match succeeded"@, false),
        (ReadStage::ConditionalRejected, ReadEventView::Refused(error)) => if requirement_exact(
            error,
            conditional_read,
            p.provider,
        ) {
            none_match_phase(
                p,
                noted(
                    noted(ctx, ContractCheckId::ReadIfMatchCurrent, conditional_read, OutcomeView::RejectedAsExpected),
                    ContractCheckId::ReadIfMatchStale,
                    conditional_read,
                    OutcomeView::RejectedAsExpected,
                ),
            )
        } else {
            mismatch
        },
        (ReadStage::ConditionalRejected, _) => fail("read contract: unadvertised conditional read succeeded"@, false),
        (ReadStage::NoneMatchCurrent, ReadEventView::Refused(error)) => if reader_error_exact(
            error,
            ErrorKind::PreconditionFailed,
            p.path,
            p.provider,
        ) {
            (
                ReadView { stage: ReadStage::NoneMatchStaleVersion, ..p },
                noted(ctx, ContractCheckId::ReadIfNoneMatchCurrent, conditional_read, OutcomeView::RejectedAsExpected),
                ReadRequestView::StaleVersion { path: p.path },
            )
        } else {
            mismatch
        },
        (ReadStage::NoneMatchCurrent, _) => fail("read/if-none-match-current: current If-None-Match succeeded"@, false),
        (ReadStage::NoneMatchStaleVersion, ReadEventView::Stale(StaleView::Observed(stale))) => (
            ReadView { stage: ReadStage::NoneMatchStale, ..p },
            ctx,
            ReadRequestView::ReadAll {
                path: p.path,
                options: ReadOptionsView { if_none_match: Some(stale), ..plain() },
            },
        ),
        (ReadStage::NoneMatchStaleVersion, ReadEventView::Stale(StaleView::Unsupported)) => checksum_phase(
            p,
            noted(
                ctx,
                ContractCheckId::ReadIfNoneMatchStale,
                conditional_read,
                OutcomeView::Unverified { reason: "fixture cannot prepare stale If-None-Match case"@ },
            ),
        ),
        (ReadStage::NoneMatchStaleVersion, _) => fail(
            "conditional-read contract: stale version observation failed"@,
            true,
        ),
        (ReadStage::NoneMatchStale, ReadEventView::Bytes(bytes)) => if bytes == seeded_bytes() {
            checksum_phase(p, noted(ctx, ContractCheckId::ReadIfNoneMatchStale, conditional_read, OutcomeView::Passed))
        } else {
            fail("read/if-none-match-stale: conditional read returned other bytes"@, false)
        },
        (ReadStage::NoneMatchStale, _) => fail("conditional-read contract: stale If-None-Match failed"@, true),
        (ReadStage::Checksum, ReadEventView::Bytes(bytes)) => if bytes == seeded_bytes() {
            (
                ReadView { stage: ReadStage::ChecksumCase, ..p },
                noted(ctx, ContractCheckId::ReadChecksum, FileSystemCapability::ChecksumValidation, OutcomeView::Passed),
                ReadRequestView::ChecksumFailureCase { name: relative_in(ctx, "async-checksum-failure"@) },
            )
        } else {
            fail("read/checksum: validated read returned other bytes"@, false)
        },
        (ReadStage::Checksum, _) => fail("read contract: advertised checksum validation failed"@, true),
        (ReadStage::ChecksumCase, ReadEventView::FailureCase(SeedView::Supported(corrupt))) => (
            ReadView { corrupt, stage: ReadStage::ChecksumCorrupt, ..p },
            with_created(ctx, corrupt),
            ReadRequestView::ReadAll { path: corrupt, options: ReadOptionsView { checksum: true, ..plain() } },
        ),
        (ReadStage::ChecksumCase, ReadEventView::FailureCase(SeedView::Unsupported)) => (
            done,
            noted(
                ctx,
                ContractCheckId::ReadChecksumCorruption,
                FileSystemCapability::ChecksumValidation,
                OutcomeView::SkippedOptional { reason: "fixture has no independent checksum corruption probe"@ },
            ),
            ReadRequestView::Finish,
        ),
        (ReadStage::ChecksumCase, _) => fail("checksum-read contract: failure case setup failed"@, true),
        (ReadStage::ChecksumCorrupt, ReadEventView::Refused(error)) => if reader_error_exact(
            error,
            ErrorKind::DataCorruption,
            p.corrupt,
            p.provider,
        ) {
            (
                done,
                noted(
                    ctx,
                    ContractCheckId::ReadChecksumCorruption,
                    FileSystemCapability::ChecksumValidation,
                    OutcomeView::Passed,
                ),
                ReadRequestView::Finish,
            )
        } else {
            mismatch
        },
        (ReadStage::ChecksumCorrupt, _) => fail("read/checksum: corrupted bytes were accepted"@, false),
        (ReadStage::ChecksumRejected, ReadEventView::Refused(error)) => if requirement_exact(
            error,
            FileSystemCapability::ChecksumValidation,
            p.provider,
        ) {
            (
                done,
                noted(
                    noted(
                        ctx,
                        ContractCheckId::ReadChecksum,
                        FileSystemCapability::ChecksumValidation,
                        OutcomeView::RejectedAsExpected,
                    ),
                    ContractCheckId::ReadChecksumCorruption,
                    FileSystemCapability::ChecksumValidation,
                    OutcomeView::NotApplicable { reason: "ChecksumValidation capability is unavailable"@ },
                ),
                ReadRequestView::Finish,
            )
        } else {
            mismatch
        },
        (ReadStage::ChecksumRejected, _) => fail("read contract: unadvertised checksum validation succeeded"@, false),
        (_, _) => (p, ctx, ReadRequestView::Finish),
    }
}

/// Both If-Match checks recorded as unverifiable, then the If-None-Match
/// checks.
pub open spec fn if_match_unverified(p: ReadView, ctx: ContextView) -> (ReadView, ContextView, ReadRequestView) {
    none_match_phase(
        p,
        noted(
            noted(
                ctx,
                ContractCheckId::ReadIfMatchCurrent,
                FileSystemCapability::ConditionalRead,
                OutcomeView::Unverified { reason: "fixture cannot prepare current If-Match case"@ },
            ),
            ContractCheckId::ReadIfMatchStale,
            FileSystemCapability::ConditionalRead,
            OutcomeView::Unverified { reason: "fixture cannot prepare stale If-Match case"@ },
        ),
    )
}

/// The range check passes only on exactly the requested prefix of the
/// seeded bytes; a stale If-Match is recorded as rejected only for an
/// exact failed precondition; and checksum corruption passes only for an
/// exact data-corruption refusal of the corrupted file.
pub proof fn law_read_options_record_only_exact_evidence(p: ReadView, ctx: ContextView, event: ReadEventView)
    requires
        read_answers(p.stage, event),
    ensures
        p.stage == ReadStage::Range && !(read_step(p, ctx, event).2 is Fail) ==> event == ReadEventView::Bytes(
            seeded_bytes().subrange(0, range_length(p.range_limit) as int),
        ),
        p.stage == ReadStage::IfMatchStale && !(read_step(p, ctx, event).2 is Fail) ==> (
        event matches ReadEventView::Refused(error) && reader_error_exact(
            error,
            ErrorKind::PreconditionFailed,
            p.path,
            p.provider,
        )),
        p.stage == ReadStage::ChecksumCorrupt && read_step(p, ctx, event).2 is Finish ==> (
        event matches ReadEventView::Refused(error) && reader_error_exact(
            error,
            ErrorKind::DataCorruption,
            p.corrupt,
            p.provider,
        )),
{
}

/// A read over the declared range limit passes only when it is refused as
/// exceeding a resource limit, by the open-reader operation, on the probed
/// path, with no target and the provider named.
pub proof fn law_range_limit_passes_only_on_limit_refusal(p: ReadView, ctx: ContextView, event: ReadEventView)
    requires
        p.stage == ReadStage::Over,
        read_answers(p.stage, event),
    ensures
        !(read_step(p, ctx, event).2 is Fail) ==> (event matches ReadEventView::Refused(error) && {
            &&& error.kind == ErrorKind::ResourceLimitExceeded
            &&& error.operation == OperationKind::OpenReader
            &&& error.path == Some(p.path)
            &&& error.target is None
            &&& error.provider == Some(p.provider)
        }),
{
}

/// A read with a stale If-None-Match passes only when it returns exactly
/// the seeded bytes; any other bytes fail the check.
pub proof fn law_stale_none_match_passes_only_on_seeded_bytes(p: ReadView, ctx: ContextView, event: ReadEventView)
    requires
        p.stage == ReadStage::NoneMatchStale,
        read_answers(p.stage, event),
    ensures
        !(read_step(p, ctx, event).2 is Fail) ==> event == ReadEventView::Bytes("async bytes".spec_bytes()),
        forall|bytes: Seq<u8>|
            bytes != "async bytes".spec_bytes() ==> #[trigger] read_step(p, ctx, ReadEventView::Bytes(bytes)).2
                == (ReadRequestView::Fail {
                message: "read/if-none-match-stale: conditional read returned other bytes"@,
                with_error: false,
            }),
{
}

/// A checksum-validated read passes only when it returns exactly the
/// seeded bytes; any other bytes fail the check.
pub proof fn law_checksum_read_passes_only_on_seeded_bytes(p: ReadView, ctx: ContextView, event: ReadEventView)
    requires
        p.stage == ReadStage::Checksum,
        read_answers(p.stage, event),
    ensures
        !(read_step(p, ctx, event).2 is Fail) ==> event == ReadEventView::Bytes("async bytes".spec_bytes()),
        forall|bytes: Seq<u8>|
            bytes != "async bytes".spec_bytes() ==> #[trigger] read_step(p, ctx, ReadEventView::Bytes(bytes)).2
                == (ReadRequestView::Fail {
                message: "read/checksum: validated read returned other bytes"@,
                with_error: false,
            }),
{
}

/// The other read-option checks move on only on exact evidence: a read
/// with the current If-Match returns exactly the seeded bytes; a stale
/// If-Match, a current If-None-Match and a corrupted checksummed file are
/// refused by the open-reader operation with the matching kind, on the
/// read path, naming the provider; and an unadvertised range, conditional
/// or checksummed read is refused as an unmet requirement naming its
/// capability and the provider.
pub proof fn law_read_checks_move_on_only_on_exact_evidence(p: ReadView, ctx: ContextView, event: ReadEventView)
    requires
        read_answers(p.stage, event),
        !(read_step(p, ctx, event).2 is Fail),
    ensures
        p.stage == ReadStage::IfMatchCurrent ==> event == ReadEventView::Bytes("async bytes".spec_bytes()),
        p.stage == ReadStage::IfMatchStale || p.stage == ReadStage::NoneMatchCurrent ==> (
        event matches ReadEventView::Refused(error) && {
            &&& error.kind == ErrorKind::PreconditionFailed
            &&& error.operation == OperationKind::OpenReader
            &&& error.path == Some(p.path)
            &&& error.target is None
            &&& error.provider == Some(p.provider)
        }),
        p.stage == ReadStage::ChecksumCorrupt ==> (event matches ReadEventView::Refused(error) && {
            &&& error.kind == ErrorKind::DataCorruption
            &&& error.operation == OperationKind::OpenReader
            &&& error.path == Some(p.corrupt)
            &&& error.target is None
            &&& error.provider == Some(p.provider)
        }),
        p.stage == ReadStage::RangeRejected ==> (event matches ReadEventView::Refused(error) && {
            &&& error.kind == ErrorKind::RequirementNotMet
            &&& error.operation == OperationKind::OpenReader
            &&& error.provider == Some(p.provider)
            &&& error.required_capability == Some(FileSystemCapability::RangeRead)
        }),
        p.stage == ReadStage::ConditionalRejected ==> (event matches ReadEventView::Refused(error) && {
            &&& error.kind == ErrorKind::RequirementNotMet
            &&& error.operation == OperationKind::OpenReader
            &&& error.provider == Some(p.provider)
            &&& error.required_capability == Some(FileSystemCapability::ConditionalRead)
        }),
        p.stage == ReadStage::ChecksumRejected ==> (event matches ReadEventView::Refused(error) && {
            &&& error.kind == ErrorKind::RequirementNotMet
            &&& error.operation == OperationKind::OpenReader
            &&& error.provider == Some(p.provider)
            &&& error.required_capability == Some(FileSystemCapability::ChecksumValidation)
        }),
        p.stage == ReadStage::Boundary ==> event == ReadEventView::Opened,
{
}

/// The bytes of the seeded file, as a slice.
fn seeded_slice() -> (bytes: &'static [u8])
    ensures
        bytes@ == seeded_bytes(),
        bytes@.len() == 11,
{
    let bytes = "async bytes".as_bytes();
    proof {
        reveal_strlit("async bytes");
        vstd::string::is_ascii_spec_bytes("async bytes");
    }
    bytes
}

/// Read options with the given fields.
fn read_options(
    offset: Option<u64>,
    length: Option<u64>,
    if_match: Option<String>,
    if_none_match: Option<String>,
    checksum: bool,
) -> (options: ReadRequestOptions)
    ensures
        options@ == (ReadOptionsView {
            offset,
            length,
            if_match: text_of(if_match),
            if_none_match: text_of(if_none_match),
            checksum,
        }),
{
    ReadRequestOptions { offset, length, if_match, if_none_match, checksum }
}

/// Returns whether `bytes` is exactly the first `length` bytes of
/// `expected`.
fn is_prefix_of(bytes: &Vec<u8>, expected: &[u8], length: usize) -> (same: bool)
    requires
        length <= expected@.len(),
    ensures
        same == (bytes@ == expected@.subrange(0, length as int)),
{
    if bytes.len() != length {
        assert(bytes@.len() != expected@.subrange(0, length as int).len());
        return false;
    }
    let mut index: usize = 0;
    while index < length
        invariant
            bytes.len() == length,
            length <= expected@.len(),
            index <= length,
            forall|j: int| 0 <= j < index ==> bytes@[j] == expected@[j],
        decreases length - index,
    {
        if bytes[index] != expected[index] {
            assert(bytes@[index as int] != expected@.subrange(0, length as int)[index as int]);
            return false;
        }
        index = index + 1;
    }
    assert(bytes@ =~= expected@.subrange(0, length as int));
    true
}

impl ReadOptionsProbe {
    /// Starts the read options checks over the file at `path`, which holds
    /// the basic read bytes, given whether range reads are advertised, the
    /// declared largest range when it is a known maximum, the largest range
    /// limit to probe, whether conditional reads and checksum validation are
    /// advertised, and the provider identity.
    pub fn new(
        path: String,
        range: bool,
        range_limit: Option<u64>,
        budget: u64,
        conditional: bool,
        checksum: bool,
        provider: String,
    ) -> (started: (ReadOptionsProbe, ReadRequest))
        ensures
            (started.0@, started.1@) == read_start(path@, range, range_limit, budget, conditional, checksum, provider@),
    {
        let length: u64 = match range_limit {
            Some(maximum) => if maximum < 5 {
                maximum
            } else {
                5
            },
            None => 5,
        };
        let options = read_options(Some(0), Some(length), None, None, false);
        let target = path.clone();
        let probe = ReadOptionsProbe {
            path,
            provider,
            range_limit,
            budget,
            conditional,
            checksum,
            none_match_case: false,
            version: None,
            corrupt: String::new(),
            stage: if range {
                ReadStage::Range
            } else {
                ReadStage::RangeRejected
            },
        };
        if range {
            (probe, ReadRequest::ReadAll { path: target, options })
        } else {
            (probe, ReadRequest::OpenReader { path: target, options })
        }
    }

    /// Returns the stage the checks wait in.
    pub fn stage(&self) -> (stage: ReadStage)
        ensures
            stage == self@.stage,
    {
        self.stage
    }

    /// Returns whether `event` answers the request the checks wait on.
    pub fn expects(&self, event: &ReadEvent) -> (answered: bool)
        ensures
            answered == read_answers(self@.stage, event@),
    {
        match self.stage {
            ReadStage::Support => matches!(event, ReadEvent::Support(_)),
            ReadStage::IfMatchStaleVersion | ReadStage::NoneMatchStaleVersion => matches!(event, ReadEvent::Stale(_)),
            ReadStage::ChecksumCase => matches!(event, ReadEvent::FailureCase(_)),
            ReadStage::Range
            | ReadStage::IfMatchCurrent
            | ReadStage::NoneMatchStale
            | ReadStage::Checksum
            | ReadStage::ChecksumCorrupt => matches!(event, ReadEvent::ReadAll(_)) || matches!(
                event,
                ReadEvent::Opened(Err(_))
            ),
            ReadStage::Finished => false,
            _ => matches!(event, ReadEvent::Opened(_)) || matches!(event, ReadEvent::ReadAll(Err(_))),
        }
    }

    /// Ends the checks with the failure `message`.
    fn fail(&mut self, message: &'static str, with_error: bool) -> (request: ReadRequest)
        ensures
            final(self)@ == (ReadView { stage: ReadStage::Finished, ..old(self)@ }),
            request@ == (ReadRequestView::Fail { message: message@, with_error }),
    {
        self.stage = ReadStage::Finished;
        ReadRequest::Fail { message, with_error }
    }

    /// Records `outcome` for `id` under `capability`.
    fn note(ctx: &mut ContractContext, id: ContractCheckId, capability: FileSystemCapability, outcome: ContractCheckOutcome)
        ensures
            final(ctx)@ == noted(old(ctx)@, id, capability, outcome@),
    {
        ctx.record_check(id, Some(capability), outcome);
    }

    /// Moves to the checksum checks.
    fn checksum_phase(&mut self, ctx: &mut ContractContext) -> (request: ReadRequest)
        ensures
            (final(self)@, final(ctx)@, request@) == checksum_phase(old(self)@, old(ctx)@),
    {
        let options = read_options(None, None, None, None, true);
        if self.checksum {
            self.stage = ReadStage::Checksum;
            ReadRequest::ReadAll { path: self.path.clone(), options }
        } else {
            self.stage = ReadStage::ChecksumRejected;
            ReadRequest::OpenReader { path: self.path.clone(), options }
        }
    }

    /// Records both If-None-Match checks as unverifiable and moves on.
    fn none_match_unverified(&mut self, ctx: &mut ContractContext) -> (request: ReadRequest)
        ensures
            (final(self)@, final(ctx)@, request@) == none_match_unverified(old(self)@, old(ctx)@),
    {
        Self::note(
            ctx,
            ContractCheckId::ReadIfNoneMatchCurrent,
            FileSystemCapability::ConditionalRead,
            ContractCheckOutcome::Unverified { reason: String::from_str("fixture cannot prepare If-None-Match cases") },
        );
        Self::note(
            ctx,
            ContractCheckId::ReadIfNoneMatchStale,
            FileSystemCapability::ConditionalRead,
            ContractCheckOutcome::Unverified { reason: String::from_str("fixture cannot prepare If-None-Match cases") },
        );
        self.checksum_phase(ctx)
    }

    /// Moves to the If-None-Match checks.
    fn none_match_phase(&mut self, ctx: &mut ContractContext) -> (request: ReadRequest)
        ensures
            (final(self)@, final(ctx)@, request@) == none_match_phase(old(self)@, old(ctx)@),
    {
        if !self.conditional {
            Self::note(
                ctx,
                ContractCheckId::ReadIfNoneMatchCurrent,
                FileSystemCapability::ConditionalRead,
                ContractCheckOutcome::RejectedAsExpected,
            );
            Self::note(
                ctx,
                ContractCheckId::ReadIfNoneMatchStale,
                FileSystemCapability::ConditionalRead,
                ContractCheckOutcome::RejectedAsExpected,
            );
            return self.checksum_phase(ctx);
        }
        match self.version.clone() {
            Some(version) => if self.none_match_case {
                self.stage = ReadStage::NoneMatchCurrent;
                ReadRequest::OpenReader {
                    path: self.path.clone(),
                    options: read_options(None, None, None, Some(version), false),
                }
            } else {
                self.none_match_unverified(ctx)
            },
            None => self.none_match_unverified(ctx),
        }
    }

    /// Records both If-Match checks as unverifiable and moves on.
    fn if_match_unverified(&mut self, ctx: &mut ContractContext) -> (request: ReadRequest)
        ensures
            (final(self)@, final(ctx)@, request@) == if_match_unverified(old(self)@, old(ctx)@),
    {
        Self::note(
            ctx,
            ContractCheckId::ReadIfMatchCurrent,
            FileSystemCapability::ConditionalRead,
            ContractCheckOutcome::Unverified { reason: String::from_str("fixture cannot prepare current If-Match case") },
        );
        Self::note(
            ctx,
            ContractCheckId::ReadIfMatchStale,
            FileSystemCapability::ConditionalRead,
            ContractCheckOutcome::Unverified { reason: String::from_str("fixture cannot prepare stale If-Match case") },
        );
        self.none_match_phase(ctx)
    }

    /// Moves to the conditional checks.
    fn conditional_phase(&mut self, ctx: &mut ContractContext) -> (request: ReadRequest)
        ensures
            (final(self)@, final(ctx)@, request@) == conditional_phase(old(self)@, old(ctx)@),
    {
        if self.conditional {
            self.stage = ReadStage::Support;
            ReadRequest::ConditionalSupport { path: self.path.clone() }
        } else {
            self.stage = ReadStage::ConditionalRejected;
            ReadRequest::OpenReader {
                path: self.path.clone(),
                options: read_options(None, None, Some(String::from_str("contract-version")), None, false),
            }
        }
    }

    /// Moves to the range-limit check after a passing range read.
    fn range_limit_phase(&mut self, ctx: &mut ContractContext) -> (request: ReadRequest)
        ensures
            (final(self)@, final(ctx)@, request@) == range_limit_phase(old(self)@, old(ctx)@),
    {
        match self.range_limit {
            Some(maximum) => if maximum < self.budget {
                self.stage = ReadStage::Boundary;
                ReadRequest::OpenReader {
                    path: self.path.clone(),
                    options: read_options(None, Some(maximum), None, None, false),
                }
            } else {
                Self::note(
                    ctx,
                    ContractCheckId::ReadRangeLimit,
                    FileSystemCapability::RangeRead,
                    ContractCheckOutcome::SkippedOptional {
                        reason: String::from_str("range boundary exceeds the bounded probe budget"),
                    },
                );
                self.conditional_phase(ctx)
            },
            None => {
                Self::note(
                    ctx,
                    ContractCheckId::ReadRangeLimit,
                    FileSystemCapability::RangeRead,
                    ContractCheckOutcome::SkippedOptional {
                        reason: String::from_str("range limit is unknown, inapplicable, or unbounded"),
                    },
                );
                self.conditional_phase(ctx)
            },
        }
    }

    /// Returns whether an error is exactly the expected reader failure.
    fn reader_error_matches(&self, error: &ErrorFacts, kind: ErrorKind, path: &String) -> (exact: bool)
        ensures
            exact == reader_error_exact(error@, kind, path@, self@.provider),
    {
        let operation_ok = match error.operation {
            OperationKind::OpenReader => true,
            _ => false,
        };
        error.kind == kind && operation_ok && text_is(&error.path, path) && error.target.is_none() && text_is(
            &error.provider,
            &self.provider,
        )
    }

    /// Returns whether an error is exactly the refusal of an unadvertised
    /// option.
    fn requirement_matches(&self, error: &ErrorFacts, capability: FileSystemCapability) -> (exact: bool)
        ensures
            exact == requirement_exact(error@, capability, self@.provider),
    {
        let operation_ok = match error.operation {
            OperationKind::OpenReader => true,
            _ => false,
        };
        error.kind == ErrorKind::RequirementNotMet && operation_ok && text_is(&error.provider, &self.provider)
            && error.required_capability == Some(capability)
    }

    /// Settles an answer at one of the stages of the range checks.
    fn settle_range(&mut self, ctx: &mut ContractContext, event: ReadEvent) -> (request: ReadRequest)
        requires
            old(self)@.stage == ReadStage::Range || old(self)@.stage == ReadStage::Boundary || old(self)@.stage == ReadStage::Over || old(self)@.stage == ReadStage::RangeRejected,
            read_answers(old(self)@.stage, event@),
        ensures
            (final(self)@, final(ctx)@, request@) == read_step(old(self)@, old(ctx)@, event@),
    {
        let seeded = seeded_slice();
        match self.stage {
            ReadStage::Range => match event {
                ReadEvent::ReadAll(Ok(bytes)) => {
                    let length: usize = match self.range_limit {
                        Some(maximum) => if maximum < 5 {
                            maximum as usize
                        } else {
                            5
                        },
                        None => 5,
                    };
                    if is_prefix_of(&bytes, seeded, length) {
                        Self::note(
                            ctx,
                            ContractCheckId::ReadRange,
                            FileSystemCapability::RangeRead,
                            ContractCheckOutcome::Passed,
                        );
                        self.range_limit_phase(ctx)
                    } else {
                        self.fail("read contract: range mismatch", false)
                    }
                },
                _ => self.fail("read contract: advertised range read failed", true),
            },
            ReadStage::Boundary => match event {
                ReadEvent::Opened(Ok(())) => match self.range_limit {
                    Some(maximum) => if maximum < self.budget {
                        self.stage = ReadStage::Over;
                        ReadRequest::OpenReader {
                            path: self.path.clone(),
                            options: read_options(None, Some(maximum + 1), None, None, false),
                        }
                    } else {
                        ReadRequest::Finish
                    },
                    None => ReadRequest::Finish,
                },
                _ => self.fail("read/range-limit: boundary request was rejected", true),
            },
            ReadStage::Over => match event {
                ReadEvent::Opened(Err(error)) | ReadEvent::ReadAll(Err(error)) => if self.reader_error_matches(
                    &error,
                    ErrorKind::ResourceLimitExceeded,
                    &self.path,
                ) {
                    Self::note(
                        ctx,
                        ContractCheckId::ReadRangeLimit,
                        FileSystemCapability::RangeRead,
                        ContractCheckOutcome::Passed,
                    );
                    self.conditional_phase(ctx)
                } else {
                    self.fail("read contract: error context differs", true)
                },
                _ => self.fail("read/range-limit: declared range limit was ignored", false),
            },
            ReadStage::RangeRejected => match event {
                ReadEvent::Opened(Err(error)) | ReadEvent::ReadAll(Err(error)) => if self.requirement_matches(&error, FileSystemCapability::RangeRead) {
                    Self::note(
                        ctx,
                        ContractCheckId::ReadRange,
                        FileSystemCapability::RangeRead,
                        ContractCheckOutcome::RejectedAsExpected,
                    );
                    Self::note(
                        ctx,
                        ContractCheckId::ReadRangeLimit,
                        FileSystemCapability::RangeRead,
                        ContractCheckOutcome::NotApplicable {
                            reason: String::from_str("RangeRead capability is unavailable"),
                        },
                    );
                    self.conditional_phase(ctx)
                } else {
                    self.fail("read contract: error context differs", true)
                },
                _ => self.fail("read contract: unadvertised range read succeeded", false),
            },
            _ => ReadRequest::Finish,
        }
    }

    /// Settles an answer at one of the stages of the If-Match checks.
    fn settle_if_match(&mut self, ctx: &mut ContractContext, event: ReadEvent) -> (request: ReadRequest)
        requires
            old(self)@.stage == ReadStage::Support || old(self)@.stage == ReadStage::IfMatchCurrent || old(self)@.stage == ReadStage::IfMatchStaleVersion || old(self)@.stage == ReadStage::IfMatchStale || old(self)@.stage == ReadStage::ConditionalRejected,
            read_answers(old(self)@.stage, event@),
        ensures
            (final(self)@, final(ctx)@, request@) == read_step(old(self)@, old(ctx)@, event@),
    {
        let seeded = seeded_slice();
        match self.stage {
            ReadStage::Support => match event {
                ReadEvent::Support(ConditionalSupport::Known { if_match, if_none_match, version }) => {
                    let version = if if_match || if_none_match {
                        version
                    } else {
                        None
                    };
                    self.none_match_case = if_none_match;
                    self.version = version.clone();
                    match version {
                        Some(current) => if if_match {
                            self.stage = ReadStage::IfMatchCurrent;
                            ReadRequest::ReadAll {
                                path: self.path.clone(),
                                options: read_options(None, None, Some(current), None, false),
                            }
                        } else {
                            self.if_match_unverified(ctx)
                        },
                        None => self.if_match_unverified(ctx),
                    }
                },
                ReadEvent::Support(ConditionalSupport::IfMatchQueryFailed) => self.fail(
                    "conditional-read contract: If-Match case query failed",
                    true,
                ),
                ReadEvent::Support(ConditionalSupport::IfNoneMatchQueryFailed) => self.fail(
                    "conditional-read contract: If-None-Match case query failed",
                    true,
                ),
                _ => self.fail("read contract: version observation failed", true),
            },
            ReadStage::IfMatchCurrent => match event {
                ReadEvent::ReadAll(Ok(bytes)) => if is_prefix_of(&bytes, seeded, seeded.len()) {
                    proof {
                        assert(seeded@.subrange(0, seeded@.len() as int) =~= seeded@);
                    }
                    Self::note(
                        ctx,
                        ContractCheckId::ReadIfMatchCurrent,
                        FileSystemCapability::ConditionalRead,
                        ContractCheckOutcome::Passed,
                    );
                    self.stage = ReadStage::IfMatchStaleVersion;
                    ReadRequest::StaleVersion { path: self.path.clone() }
                } else {
                    proof {
                        assert(seeded@.subrange(0, seeded@.len() as int) =~= seeded@);
                    }
                    self.fail("read/if-match-current: conditional read returned other bytes", false)
                },
                _ => self.fail("read contract: advertised conditional read failed", true),
            },
            ReadStage::IfMatchStaleVersion => match event {
                ReadEvent::Stale(StaleAnswer::Observed(stale)) => {
                    self.stage = ReadStage::IfMatchStale;
                    ReadRequest::OpenReader {
                        path: self.path.clone(),
                        options: read_options(None, None, Some(stale), None, false),
                    }
                },
                ReadEvent::Stale(StaleAnswer::Unsupported) => {
                    Self::note(
                        ctx,
                        ContractCheckId::ReadIfMatchStale,
                        FileSystemCapability::ConditionalRead,
                        ContractCheckOutcome::Unverified {
                            reason: String::from_str("fixture cannot prepare stale If-Match case"),
                        },
                    );
                    self.none_match_phase(ctx)
                },
                _ => self.fail("conditional-read contract: stale version observation failed", true),
            },
            ReadStage::IfMatchStale => match event {
                ReadEvent::Opened(Err(error)) | ReadEvent::ReadAll(Err(error)) => if self.reader_error_matches(
                    &error,
                    ErrorKind::PreconditionFailed,
                    &self.path,
                ) {
                    Self::note(
                        ctx,
                        ContractCheckId::ReadIfMatchStale,
                        FileSystemCapability::ConditionalRead,
                        ContractCheckOutcome::RejectedAsExpected,
                    );
                    self.none_match_phase(ctx)
                } else {
                    self.fail("read contract: error context differs", true)
                },
                _ => self.fail("read/if-match-stale: stale If-Match succeeded", false),
            },
            ReadStage::ConditionalRejected => match event {
                ReadEvent::Opened(Err(error)) | ReadEvent::ReadAll(Err(error)) => if self.requirement_matches(
                    &error,
                    FileSystemCapability::ConditionalRead,
                ) {
                    Self::note(
                        ctx,
                        ContractCheckId::ReadIfMatchCurrent,
                        FileSystemCapability::ConditionalRead,
                        ContractCheckOutcome::RejectedAsExpected,
                    );
                    Self::note(
                        ctx,
                        ContractCheckId::ReadIfMatchStale,
                        FileSystemCapability::ConditionalRead,
                        ContractCheckOutcome::RejectedAsExpected,
                    );
                    self.none_match_phase(ctx)
                } else {
                    self.fail("read contract: error context differs", true)
                },
                _ => self.fail("read contract: unadvertised conditional read succeeded", false),
            },
            _ => ReadRequest::Finish,
        }
    }

    /// Settles an answer at one of the stages of the If-None-Match checks.
    fn settle_none_match(&mut self, ctx: &mut ContractContext, event: ReadEvent) -> (request: ReadRequest)
        requires
            old(self)@.stage == ReadStage::NoneMatchCurrent || old(self)@.stage == ReadStage::NoneMatchStaleVersion || old(self)@.stage == ReadStage::NoneMatchStale,
            read_answers(old(self)@.stage, event@),
        ensures
            (final(self)@, final(ctx)@, request@) == read_step(old(self)@, old(ctx)@, event@),
    {
        let seeded = seeded_slice();
        match self.stage {
            ReadStage::NoneMatchCurrent => match event {
                ReadEvent::Opened(Err(error)) | ReadEvent::ReadAll(Err(error)) => if self.reader_error_matches(
                    &error,
                    ErrorKind::PreconditionFailed,
                    &self.path,
                ) {
                    Self::note(
                        ctx,
                        ContractCheckId::ReadIfNoneMatchCurrent,
                        FileSystemCapability::ConditionalRead,
                        ContractCheckOutcome::RejectedAsExpected,
                    );
                    self.stage = ReadStage::NoneMatchStaleVersion;
                    ReadRequest::StaleVersion { path: self.path.clone() }
                } else {
                    self.fail("read contract: error context differs", true)
                },
                _ => self.fail("read/if-none-match-current: current If-None-Match succeeded", false),
            },
            ReadStage::NoneMatchStaleVersion => match event {
                ReadEvent::Stale(StaleAnswer::Observed(stale)) => {
                    self.stage = ReadStage::NoneMatchStale;
                    ReadRequest::ReadAll {
                        path: self.path.clone(),
                        options: read_options(None, None, None, Some(stale), false),
                    }
                },
                ReadEvent::Stale(StaleAnswer::Unsupported) => {
                    Self::note(
                        ctx,
                        ContractCheckId::ReadIfNoneMatchStale,
                        FileSystemCapability::ConditionalRead,
                        ContractCheckOutcome::Unverified {
                            reason: String::from_str("fixture cannot prepare stale If-None-Match case"),
                        },
                    );
                    self.checksum_phase(ctx)
                },
                _ => self.fail("conditional-read contract: stale version observation failed", true),
            },
            ReadStage::NoneMatchStale => match event {
                ReadEvent::ReadAll(Ok(bytes)) => {
                    proof {
                        assert(seeded@.subrange(0, seeded@.len() as int) =~= seeded@);
                    }
                    if is_prefix_of(&bytes, seeded, seeded.len()) {
                        Self::note(
                            ctx,
                            ContractCheckId::ReadIfNoneMatchStale,
                            FileSystemCapability::ConditionalRead,
                            ContractCheckOutcome::Passed,
                        );
                        self.checksum_phase(ctx)
                    } else {
                        self.fail("read/if-none-match-stale: conditional read returned other bytes", false)
                    }
                },
                _ => self.fail("conditional-read contract: stale If-None-Match failed", true),
            },
            _ => ReadRequest::Finish,
        }
    }

    /// Settles an answer at one of the stages of the checksum checks.
    #[verifier::spinoff_prover]
    #[verifier::rlimit(30)]
    fn settle_checksum(&mut self, ctx: &mut ContractContext, event: ReadEvent) -> (request: ReadRequest)
        requires
            old(self)@.stage == ReadStage::Checksum || old(self)@.stage == ReadStage::ChecksumCase || old(self)@.stage == ReadStage::ChecksumCorrupt || old(self)@.stage == ReadStage::ChecksumRejected,
            read_answers(old(self)@.stage, event@),
        ensures
            (final(self)@, final(ctx)@, request@) == read_step(old(self)@, old(ctx)@, event@),
    {
        let seeded = seeded_slice();
        match self.stage {
            ReadStage::Checksum => match event {
                ReadEvent::ReadAll(Ok(bytes)) => {
                    proof {
                        assert(seeded@.subrange(0, seeded@.len() as int) =~= seeded@);
                    }
                    if is_prefix_of(&bytes, seeded, seeded.len()) {
                        let name = ctx.relative_name("async-checksum-failure");
                        Self::note(
                            ctx,
                            ContractCheckId::ReadChecksum,
                            FileSystemCapability::ChecksumValidation,
                            ContractCheckOutcome::Passed,
                        );
                        self.stage = ReadStage::ChecksumCase;
                        ReadRequest::ChecksumFailureCase { name }
                    } else {
                        self.fail("read/checksum: validated read returned other bytes", false)
                    }
                },
                _ => self.fail("read contract: advertised checksum validation failed", true),
            },
            ReadStage::ChecksumCase => match event {
                ReadEvent::FailureCase(SeedOutcome::Supported(corrupt)) => {
                    ctx.record_created(corrupt.clone());
                    self.corrupt = corrupt;
                    self.stage = ReadStage::ChecksumCorrupt;
                    ReadRequest::ReadAll {
                        path: self.corrupt.clone(),
                        options: read_options(None, None, None, None, true),
                    }
                },
                ReadEvent::FailureCase(SeedOutcome::Unsupported) => {
                    self.stage = ReadStage::Finished;
                    Self::note(
                        ctx,
                        ContractCheckId::ReadChecksumCorruption,
                        FileSystemCapability::ChecksumValidation,
                        ContractCheckOutcome::SkippedOptional {
                            reason: String::from_str("fixture has no independent checksum corruption probe"),
                        },
                    );
                    ReadRequest::Finish
                },
                _ => self.fail("checksum-read contract: failure case setup failed", true),
            },
            ReadStage::ChecksumCorrupt => match event {
                ReadEvent::ReadAll(Err(error)) | ReadEvent::Opened(Err(error)) => if self.reader_error_matches(
                    &error,
                    ErrorKind::DataCorruption,
                    &self.corrupt,
                ) {
                    self.stage = ReadStage::Finished;
                    Self::note(
                        ctx,
                        ContractCheckId::ReadChecksumCorruption,
                        FileSystemCapability::ChecksumValidation,
                        ContractCheckOutcome::Passed,
                    );
                    ReadRequest::Finish
                } else {
                    self.fail("read contract: error context differs", true)
                },
                _ => self.fail("read/checksum: corrupted bytes were accepted", false),
            },
            ReadStage::ChecksumRejected => match event {
                ReadEvent::Opened(Err(error)) | ReadEvent::ReadAll(Err(error)) => if self.requirement_matches(
                    &error,
                    FileSystemCapability::ChecksumValidation,
                ) {
                    self.stage = ReadStage::Finished;
                    Self::note(
                        ctx,
                        ContractCheckId::ReadChecksum,
                        FileSystemCapability::ChecksumValidation,
                        ContractCheckOutcome::RejectedAsExpected,
                    );
                    Self::note(
                        ctx,
                        ContractCheckId::ReadChecksumCorruption,
                        FileSystemCapability::ChecksumValidation,
                        ContractCheckOutcome::NotApplicable {
                            reason: String::from_str("ChecksumValidation capability is unavailable"),
                        },
                    );
                    ReadRequest::Finish
                } else {
                    self.fail("read contract: error context differs", true)
                },
                _ => self.fail("read contract: unadvertised checksum validation succeeded", false),
            },
            _ => ReadRequest::Finish,
        }
    }

    /// Takes the answer to the pending request, records what the step
    /// names in the suite context, and returns the next request.
    pub fn advance(&mut self, ctx: &mut ContractContext, event: ReadEvent) -> (request: ReadRequest)
        requires
            read_answers(old(self)@.stage, event@),
        ensures
            (final(self)@, final(ctx)@, request@) == read_step(old(self)@, old(ctx)@, event@),
    {
        match self.stage {
            ReadStage::Range | ReadStage::Boundary | ReadStage::Over | ReadStage::RangeRejected => self.settle_range(
                ctx,
                event,
            ),
            ReadStage::Support
            | ReadStage::IfMatchCurrent
            | ReadStage::IfMatchStaleVersion
            | ReadStage::IfMatchStale
            | ReadStage::ConditionalRejected => self.settle_if_match(ctx, event),
            ReadStage::NoneMatchCurrent | ReadStage::NoneMatchStaleVersion | ReadStage::NoneMatchStale => self.settle_none_match(
                ctx,
                event,
            ),
            ReadStage::Finished => ReadRequest::Finish,
            _ => self.settle_checksum(ctx, event),
        }
    }
}

} // verus!
