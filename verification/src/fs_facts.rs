use vstd::prelude::*;

use crate::capability::FileSystemCapability;

verus! {

/// The classification of a facade error.
#[derive(Clone, Copy, Debug, PartialEq, Eq, Structural)]
pub enum ErrorKind {
    /// The resource does not exist.
    NotFound,
    /// The resource already exists.
    AlreadyExists,
    /// A directory was expected.
    NotDirectory,
    /// A non-directory was expected.
    IsDirectory,
    /// The path is invalid for the provider.
    InvalidPath,
    /// The URI is invalid.
    InvalidUri,
    /// The options are invalid.
    InvalidOptions,
    /// The provider broke the facade contract.
    ProviderContractViolation,
    /// Access was denied.
    PermissionDenied,
    /// Authentication failed.
    AuthenticationFailed,
    /// The provider is unavailable.
    ProviderUnavailable,
    /// The operation is not supported.
    UnsupportedOperation,
    /// A capability is not advertised.
    UnsupportedCapability,
    /// A requested guarantee cannot be met.
    RequirementNotMet,
    /// The resource is in the wrong state for the call.
    InvalidState,
    /// The effect is unknown.
    Indeterminate,
    /// The operation was cancelled.
    Cancelled,
    /// A conflicting change was observed.
    Conflict,
    /// A precondition failed.
    PreconditionFailed,
    /// The operation timed out.
    Timeout,
    /// The operation was interrupted.
    Interrupted,
    /// A quota was exceeded.
    QuotaExceeded,
    /// A resource limit was exceeded.
    ResourceLimitExceeded,
    /// Data was corrupt.
    DataCorruption,
    /// An input or output failure.
    Io,
    /// Any other failure.
    Other,
}

/// The public facade operation an error reports.
#[derive(Clone, Copy, Debug, PartialEq, Eq, Structural)]
pub enum OperationKind {
    /// Path parsing.
    ParsePath,
    /// URI parsing.
    ParseUri,
    /// Property validation.
    ValidateProperties,
    /// Provider outcome validation.
    ValidateProviderOutcome,
    /// Metadata lookup.
    Stat,
    /// Existence lookup.
    Exists,
    /// Listing.
    List,
    /// Opening a reader.
    OpenReader,
    /// Reading.
    Read,
    /// Opening a writer.
    OpenWriter,
    /// Writing.
    Write,
    /// Committing a writer.
    CommitWriter,
    /// Aborting a writer.
    AbortWriter,
    /// Directory creation.
    CreateDir,
    /// Deletion.
    Delete,
    /// Renaming.
    Rename,
    /// Copying.
    Copy,
    /// Starting a copy.
    BeginCopy,
    /// Temporary resource creation.
    CreateTemp,
    /// Temporary resource cleanup.
    CleanupTemp,
    /// Keeping a temporary resource.
    KeepTemp,
    /// Publishing a temporary resource.
    PersistTemp,
    /// A provider-specific operation.
    Provider,
    /// Any other operation.
    Other,
}

/// Where an open call failed.
#[derive(Clone, Copy, Debug, PartialEq, Eq, Structural)]
pub enum OpenStage {
    /// Before the provider was asked.
    Preflight,
    /// While the provider opened the resource.
    ProviderOpen,
    /// While the provider's outcome was validated.
    OutcomeValidation,
}

/// The lifecycle state of a temporary resource.
#[derive(Clone, Copy, Debug, PartialEq, Eq, Structural)]
pub enum TempState {
    /// The handle owns the resource.
    Owned,
    /// The resource was published to a target.
    Persisted,
    /// The resource was kept in place.
    Kept,
    /// The resource was removed.
    Cleaned,
    /// Removal is still required.
    CleanupRequired,
    /// The state is unknown.
    Indeterminate,
}

/// What a failed publication left behind.
#[derive(Clone, Copy, Debug, PartialEq, Eq, Structural)]
pub enum PersistState {
    /// Nothing was published and the source is intact.
    NotPublished,
    /// Nothing was published and the source is unknown.
    NotPublishedSourceIndeterminate,
    /// Nothing was published and the source needs cleanup.
    NotPublishedSourceCleanupRequired,
    /// Nothing was published and the source is gone.
    NotPublishedSourceReleased,
    /// The target was published and the source remains.
    PublishedSourceRetained,
    /// The target was published and the source is unknown.
    PublishedSourceIndeterminate,
    /// The target was published and the source is gone.
    PublishedSourceReleased,
    /// Publication is unknown.
    Indeterminate,
}

/// What a failed rename left behind.
#[derive(Clone, Copy, Debug, PartialEq, Eq, Structural)]
pub enum RenameState {
    /// Nothing changed.
    Unchanged,
    /// The rename took effect.
    Renamed,
    /// The effect is unknown.
    Indeterminate,
}

/// The structured context of a facade error, with paths by their text.
pub struct ErrorFacts {
    /// The classification.
    pub kind: ErrorKind,
    /// The public operation.
    pub operation: OperationKind,
    /// The source path, if reported.
    pub path: Option<String>,
    /// The target path, if reported.
    pub target: Option<String>,
    /// The provider identity, if reported.
    pub provider: Option<String>,
    /// The capability the call required, if reported.
    pub required_capability: Option<FileSystemCapability>,
}

/// The abstract form of error facts.
pub struct ErrorFactsView {
    /// The classification.
    pub kind: ErrorKind,
    /// The public operation.
    pub operation: OperationKind,
    /// The source path text, if reported.
    pub path: Option<Seq<char>>,
    /// The target path text, if reported.
    pub target: Option<Seq<char>>,
    /// The provider identity, if reported.
    pub provider: Option<Seq<char>>,
    /// The capability the call required, if reported.
    pub required_capability: Option<FileSystemCapability>,
}

/// The text of an optional string.
pub open spec fn text_of(value: Option<String>) -> Option<Seq<char>> {
    match value {
        Some(text) => Some(text@),
        None => None,
    }
}

impl View for ErrorFacts {
    type V = ErrorFactsView;

    open spec fn view(&self) -> ErrorFactsView {
        ErrorFactsView {
            kind: self.kind,
            operation: self.operation,
            path: text_of(self.path),
            target: text_of(self.target),
            provider: text_of(self.provider),
            required_capability: self.required_capability,
        }
    }
}

/// The facts of a failed open of a temporary resource.
pub struct OpenRejection {
    /// The error.
    pub error: ErrorFacts,
    /// Where the open failed.
    pub stage: OpenStage,
    /// Whether a recovery handle came with the failure.
    pub recovery: bool,
}

/// The facts of a failed publication of a temporary resource.
pub struct PersistRejection {
    /// The error.
    pub error: ErrorFacts,
    /// What the failure left behind.
    pub state: PersistState,
    /// The published target text, if the failure names one.
    pub publication_target: Option<String>,
}

/// What a fixture hook that prepares a resource answered.
pub enum SeedOutcome {
    /// The hook failed.
    Failed,
    /// The fixture cannot prepare the resource.
    Unsupported,
    /// The resource exists at this path.
    Supported(String),
}

/// What an out-of-band existence observation answered.
#[derive(Clone, Copy, Debug, PartialEq, Eq, Structural)]
pub enum Presence {
    /// The observation failed.
    Failed,
    /// The fixture cannot observe existence.
    Unsupported,
    /// The path exists or not.
    Present(bool),
}

/// The abstract form of a seeding answer.
pub enum SeedView {
    /// The hook failed.
    Failed,
    /// The fixture cannot prepare the resource.
    Unsupported,
    /// The resource exists at this path.
    Supported(Seq<char>),
}

/// The abstract form of a seeding answer.
pub open spec fn seed_view(outcome: SeedOutcome) -> SeedView {
    match outcome {
        SeedOutcome::Failed => SeedView::Failed,
        SeedOutcome::Unsupported => SeedView::Unsupported,
        SeedOutcome::Supported(path) => SeedView::Supported(path@),
    }
}

/// What an out-of-band content observation answered.
pub enum Contents {
    /// The observation failed.
    Failed,
    /// The fixture cannot read contents.
    Unsupported,
    /// The resource holds these bytes.
    Bytes(Vec<u8>),
}

/// The abstract form of a content observation.
pub enum ContentsView {
    /// The observation failed.
    Failed,
    /// The fixture cannot read contents.
    Unsupported,
    /// The resource holds these bytes.
    Bytes(Seq<u8>),
}

impl View for Contents {
    type V = ContentsView;

    open spec fn view(&self) -> ContentsView {
        match self {
            Contents::Failed => ContentsView::Failed,
            Contents::Unsupported => ContentsView::Unsupported,
            Contents::Bytes(bytes) => ContentsView::Bytes(bytes@),
        }
    }
}

/// Returns whether an observation saw exactly `expected`.
pub fn holds_bytes(contents: &Contents, expected: &[u8]) -> (same: bool)
    ensures
        same == (contents@ == ContentsView::Bytes(expected@)),
{
    match contents {
        Contents::Bytes(actual) => {
            if actual.len() != expected.len() {
                assert(actual@.len() != expected@.len());
                return false;
            }
            let mut index: usize = 0;
            while index < actual.len()
                invariant
                    actual.len() == expected.len(),
                    actual@.len() == expected@.len(),
                    contents@ == ContentsView::Bytes(actual@),
                    index <= actual.len(),
                    forall|j: int| 0 <= j < index ==> actual@[j] == expected@[j],
                decreases actual.len() - index,
            {
                if actual[index] != expected[index] {
                    assert(actual@[index as int] != expected@[index as int]);
                    assert(actual@ != expected@);
                    return false;
                }
                index = index + 1;
            }
            assert(actual@ =~= expected@);
            true
        },
        _ => false,
    }
}

/// Returns whether an optional text equals `expected`.
pub fn text_is(value: &Option<String>, expected: &String) -> (same: bool)
    ensures
        same == (text_of(*value) == Some(expected@)),
{
    match value {
        Some(text) => *text == *expected,
        None => false,
    }
}

/// Returns whether an optional capability is exactly `expected`.
pub fn capability_is(value: Option<FileSystemCapability>, expected: FileSystemCapability) -> (same: bool)
    ensures
        same == (value == Some(expected)),
{
    match value {
        Some(capability) => capability == expected,
        None => false,
    }
}

} // verus!
