use vstd::prelude::*;

use crate::check_catalog;
use crate::file_system_contract::FileSystemContract;

verus! {

/// Identifies one independently reported provider contract check.
///
/// Every check has exactly one stable diagnostic name, used by selection,
/// reports and diagnostics alike; a report cannot hold a check outside
/// this set.
#[derive(Clone, Copy, Debug, PartialEq, Eq, Hash, PartialOrd, Ord, Structural)]
pub enum ContractCheckId {
    /// Evidence for the `append/basic` contract.
    AppendBasic,
    /// Evidence for the `async-copy/cancel-commit` contract.
    AsyncCopyCancelCommit,
    /// Evidence for the `async-copy/cancel-native-attempt` contract.
    AsyncCopyCancelNativeAttempt,
    /// Evidence for the `async-copy/cancel-reader` contract.
    AsyncCopyCancelReader,
    /// Evidence for the `async-copy/cancel-writer` contract.
    AsyncCopyCancelWriter,
    /// Evidence for the `copy/atomic-file` contract.
    CopyAtomicFile,
    /// Evidence for the `copy/atomic-tree` contract.
    CopyAtomicTree,
    /// Evidence for the `copy/basic` contract.
    CopyBasic,
    /// Evidence for the `copy/durable-file` contract.
    CopyDurableFile,
    /// Evidence for the `copy/durable-tree` contract.
    CopyDurableTree,
    /// Evidence for the `copy/fallback-overwrite-rejected` contract.
    CopyFallbackOverwriteRejected,
    /// Evidence for the `copy/repeated-execute` contract.
    CopyRepeatedExecute,
    /// Evidence for the `copy/server-side` contract.
    CopyServerSide,
    /// Evidence for the `delete/basic` contract.
    DeleteBasic,
    /// Evidence for the `delete/if-match` contract.
    DeleteIfMatch,
    /// Evidence for the `delete/missing-ok` contract.
    DeleteMissingOk,
    /// Evidence for the `delete/tree` contract.
    DeleteTree,
    /// Evidence for the `directory/create` contract.
    DirectoryCreate,
    /// Evidence for the `directory/recursive` contract.
    DirectoryRecursive,
    /// Evidence for the `error/context` contract.
    ErrorContext,
    /// Evidence for the `list/basic` contract.
    ListBasic,
    /// Evidence for the `list/literal-prefix` contract.
    ListLiteralPrefix,
    /// Evidence for the `list/pagination` contract.
    ListPagination,
    /// Evidence for the `list/prefix` contract.
    ListPrefix,
    /// Evidence for the `properties/capability-dependencies` contract.
    PropertiesCapabilityDependencies,
    /// Evidence for the `properties/limit-component-admission` contract.
    PropertiesLimitComponentAdmission,
    /// Evidence for the `properties/limit-list-page` contract.
    PropertiesLimitListPage,
    /// Evidence for the `properties/limit-path-admission` contract.
    PropertiesLimitPathAdmission,
    /// Evidence for the `properties/limits` contract.
    PropertiesLimits,
    /// Evidence for the `properties/path-constraints` contract.
    PropertiesPathConstraints,
    /// Evidence for the `properties/snapshot` contract.
    PropertiesSnapshot,
    /// Evidence for the `properties/symlink-policy` contract.
    PropertiesSymlinkPolicy,
    /// Evidence for the `read/basic` contract.
    ReadBasic,
    /// Evidence for the `read/checksum` contract.
    ReadChecksum,
    /// Evidence for the `read/checksum-corruption` contract.
    ReadChecksumCorruption,
    /// Evidence for the `read/if-match-current` contract.
    ReadIfMatchCurrent,
    /// Evidence for the `read/if-match-stale` contract.
    ReadIfMatchStale,
    /// Evidence for the `read/if-none-match-current` contract.
    ReadIfNoneMatchCurrent,
    /// Evidence for the `read/if-none-match-stale` contract.
    ReadIfNoneMatchStale,
    /// Evidence for the `read/range` contract.
    ReadRange,
    /// Evidence for the `read/range-limit` contract.
    ReadRangeLimit,
    /// Evidence for the `rename/atomic` contract.
    RenameAtomic,
    /// Evidence for the `rename/basic` contract.
    RenameBasic,
    /// Evidence for the `rename/conflict` contract.
    RenameConflict,
    /// Evidence for the `rename/durable` contract.
    RenameDurable,
    /// Evidence for the `representation/empty` contract.
    RepresentationEmpty,
    /// Evidence for the `representation/symlink` contract.
    RepresentationSymlink,
    /// Evidence for the `stat/basic` contract.
    StatBasic,
    /// Evidence for the `stat/file-kind` contract.
    StatFileKind,
    /// Evidence for the `temp/atomic` contract.
    TempAtomic,
    /// Evidence for the `temp/directory` contract.
    TempDirectory,
    /// Evidence for the `temp/file` contract.
    TempFile,
    /// Evidence for the `temp/repeated-lifecycle` contract.
    TempRepeatedLifecycle,
    /// Evidence for the `write/atomic-replace-existing` contract.
    WriteAtomicReplaceExisting,
    /// Evidence for the `write/basic` contract.
    WriteBasic,
    /// Evidence for the `write/create-conflict` contract.
    WriteCreateConflict,
    /// Evidence for the `write/replace` contract.
    WriteReplace,
    /// Evidence for the `write/abort` contract.
    WriteAbort,
    /// Evidence for the `write/cancel-commit` contract.
    WriteCancelCommit,
    /// Evidence for the `write/cancel-flush` contract.
    WriteCancelFlush,
    /// Evidence for the `write/cancel-open` contract.
    WriteCancelOpen,
    /// Evidence for the `write/cancel-write` contract.
    WriteCancelWrite,
    /// Evidence for the `write/durable` contract.
    WriteDurable,
    /// Evidence for the `write/if-absent` contract.
    WriteIfAbsent,
    /// Evidence for the `write/if-match` contract.
    WriteIfMatch,
    /// Evidence for the `write/limit` contract.
    WriteLimit,
    /// Evidence for the `write/owning-operation` contract.
    WriteOwningOperation,
    /// Evidence for the `write/repeated-execute` contract.
    WriteRepeatedExecute,
}

impl ContractCheckId {
    /// The stable diagnostic name of this check.
    pub open spec fn stable_name(self) -> Seq<char> {
        match self {
            ContractCheckId::AppendBasic => "append/basic"@,
            ContractCheckId::AsyncCopyCancelCommit => "async-copy/cancel-commit"@,
            ContractCheckId::AsyncCopyCancelNativeAttempt => "async-copy/cancel-native-attempt"@,
            ContractCheckId::AsyncCopyCancelReader => "async-copy/cancel-reader"@,
            ContractCheckId::AsyncCopyCancelWriter => "async-copy/cancel-writer"@,
            ContractCheckId::CopyAtomicFile => "copy/atomic-file"@,
            ContractCheckId::CopyAtomicTree => "copy/atomic-tree"@,
            ContractCheckId::CopyBasic => "copy/basic"@,
            ContractCheckId::CopyDurableFile => "copy/durable-file"@,
            ContractCheckId::CopyDurableTree => "copy/durable-tree"@,
            ContractCheckId::CopyFallbackOverwriteRejected => "copy/fallback-overwrite-rejected"@,
            ContractCheckId::CopyRepeatedExecute => "copy/repeated-execute"@,
            ContractCheckId::CopyServerSide => "copy/server-side"@,
            ContractCheckId::DeleteBasic => "delete/basic"@,
            ContractCheckId::DeleteIfMatch => "delete/if-match"@,
            ContractCheckId::DeleteMissingOk => "delete/missing-ok"@,
            ContractCheckId::DeleteTree => "delete/tree"@,
            ContractCheckId::DirectoryCreate => "directory/create"@,
            ContractCheckId::DirectoryRecursive => "directory/recursive"@,
            ContractCheckId::ErrorContext => "error/context"@,
            ContractCheckId::ListBasic => "list/basic"@,
            ContractCheckId::ListLiteralPrefix => "list/literal-prefix"@,
            ContractCheckId::ListPagination => "list/pagination"@,
            ContractCheckId::ListPrefix => "list/prefix"@,
            ContractCheckId::PropertiesCapabilityDependencies => "properties/capability-dependencies"@,
            ContractCheckId::PropertiesLimitComponentAdmission => "properties/limit-component-admission"@,
            ContractCheckId::PropertiesLimitListPage => "properties/limit-list-page"@,
            ContractCheckId::PropertiesLimitPathAdmission => "properties/limit-path-admission"@,
            ContractCheckId::PropertiesLimits => "properties/limits"@,
            ContractCheckId::PropertiesPathConstraints => "properties/path-constraints"@,
            ContractCheckId::PropertiesSnapshot => "properties/snapshot"@,
            ContractCheckId::PropertiesSymlinkPolicy => "properties/symlink-policy"@,
            ContractCheckId::ReadBasic => "read/basic"@,
            ContractCheckId::ReadChecksum => "read/checksum"@,
            ContractCheckId::ReadChecksumCorruption => "read/checksum-corruption"@,
            ContractCheckId::ReadIfMatchCurrent => "read/if-match-current"@,
            ContractCheckId::ReadIfMatchStale => "read/if-match-stale"@,
            ContractCheckId::ReadIfNoneMatchCurrent => "read/if-none-match-current"@,
            ContractCheckId::ReadIfNoneMatchStale => "read/if-none-match-stale"@,
            ContractCheckId::ReadRange => "read/range"@,
            ContractCheckId::ReadRangeLimit => "read/range-limit"@,
            ContractCheckId::RenameAtomic => "rename/atomic"@,
            ContractCheckId::RenameBasic => "rename/basic"@,
            ContractCheckId::RenameConflict => "rename/conflict"@,
            ContractCheckId::RenameDurable => "rename/durable"@,
            ContractCheckId::RepresentationEmpty => "representation/empty"@,
            ContractCheckId::RepresentationSymlink => "representation/symlink"@,
            ContractCheckId::StatBasic => "stat/basic"@,
            ContractCheckId::StatFileKind => "stat/file-kind"@,
            ContractCheckId::TempAtomic => "temp/atomic"@,
            ContractCheckId::TempDirectory => "temp/directory"@,
            ContractCheckId::TempFile => "temp/file"@,
            ContractCheckId::TempRepeatedLifecycle => "temp/repeated-lifecycle"@,
            ContractCheckId::WriteAtomicReplaceExisting => "write/atomic-replace-existing"@,
            ContractCheckId::WriteBasic => "write/basic"@,
            ContractCheckId::WriteCreateConflict => "write/create-conflict"@,
            ContractCheckId::WriteReplace => "write/replace"@,
            ContractCheckId::WriteAbort => "write/abort"@,
            ContractCheckId::WriteCancelCommit => "write/cancel-commit"@,
            ContractCheckId::WriteCancelFlush => "write/cancel-flush"@,
            ContractCheckId::WriteCancelOpen => "write/cancel-open"@,
            ContractCheckId::WriteCancelWrite => "write/cancel-write"@,
            ContractCheckId::WriteDurable => "write/durable"@,
            ContractCheckId::WriteIfAbsent => "write/if-absent"@,
            ContractCheckId::WriteIfMatch => "write/if-match"@,
            ContractCheckId::WriteLimit => "write/limit"@,
            ContractCheckId::WriteOwningOperation => "write/owning-operation"@,
            ContractCheckId::WriteRepeatedExecute => "write/repeated-execute"@,
        }
    }

    /// Every recognized identity, in catalog order.
    pub open spec fn spec_all() -> Seq<ContractCheckId> {
        seq![
            ContractCheckId::AppendBasic,
            ContractCheckId::AsyncCopyCancelCommit,
            ContractCheckId::AsyncCopyCancelNativeAttempt,
            ContractCheckId::AsyncCopyCancelReader,
            ContractCheckId::AsyncCopyCancelWriter,
            ContractCheckId::CopyAtomicFile,
            ContractCheckId::CopyAtomicTree,
            ContractCheckId::CopyBasic,
            ContractCheckId::CopyDurableFile,
            ContractCheckId::CopyDurableTree,
            ContractCheckId::CopyFallbackOverwriteRejected,
            ContractCheckId::CopyRepeatedExecute,
            ContractCheckId::CopyServerSide,
            ContractCheckId::DeleteBasic,
            ContractCheckId::DeleteIfMatch,
            ContractCheckId::DeleteMissingOk,
            ContractCheckId::DeleteTree,
            ContractCheckId::DirectoryCreate,
            ContractCheckId::DirectoryRecursive,
            ContractCheckId::ErrorContext,
            ContractCheckId::ListBasic,
            ContractCheckId::ListLiteralPrefix,
            ContractCheckId::ListPagination,
            ContractCheckId::ListPrefix,
            ContractCheckId::PropertiesCapabilityDependencies,
            ContractCheckId::PropertiesLimitComponentAdmission,
            ContractCheckId::PropertiesLimitListPage,
            ContractCheckId::PropertiesLimitPathAdmission,
            ContractCheckId::PropertiesLimits,
            ContractCheckId::PropertiesPathConstraints,
            ContractCheckId::PropertiesSnapshot,
            ContractCheckId::PropertiesSymlinkPolicy,
            ContractCheckId::ReadBasic,
            ContractCheckId::ReadChecksum,
            ContractCheckId::ReadChecksumCorruption,
            ContractCheckId::ReadIfMatchCurrent,
            ContractCheckId::ReadIfMatchStale,
            ContractCheckId::ReadIfNoneMatchCurrent,
            ContractCheckId::ReadIfNoneMatchStale,
            ContractCheckId::ReadRange,
            ContractCheckId::ReadRangeLimit,
            ContractCheckId::RenameAtomic,
            ContractCheckId::RenameBasic,
            ContractCheckId::RenameConflict,
            ContractCheckId::RenameDurable,
            ContractCheckId::RepresentationEmpty,
            ContractCheckId::RepresentationSymlink,
            ContractCheckId::StatBasic,
            ContractCheckId::StatFileKind,
            ContractCheckId::TempAtomic,
            ContractCheckId::TempDirectory,
            ContractCheckId::TempFile,
            ContractCheckId::TempRepeatedLifecycle,
            ContractCheckId::WriteAtomicReplaceExisting,
            ContractCheckId::WriteBasic,
            ContractCheckId::WriteCreateConflict,
            ContractCheckId::WriteReplace,
            ContractCheckId::WriteAbort,
            ContractCheckId::WriteCancelCommit,
            ContractCheckId::WriteCancelFlush,
            ContractCheckId::WriteCancelOpen,
            ContractCheckId::WriteCancelWrite,
            ContractCheckId::WriteDurable,
            ContractCheckId::WriteIfAbsent,
            ContractCheckId::WriteIfMatch,
            ContractCheckId::WriteLimit,
            ContractCheckId::WriteOwningOperation,
            ContractCheckId::WriteRepeatedExecute,
        ]
    }

    /// The position of this identity in catalog order.
    pub open spec fn catalog_index(self) -> int {
        match self {
            ContractCheckId::AppendBasic => 0,
            ContractCheckId::AsyncCopyCancelCommit => 1,
            ContractCheckId::AsyncCopyCancelNativeAttempt => 2,
            ContractCheckId::AsyncCopyCancelReader => 3,
            ContractCheckId::AsyncCopyCancelWriter => 4,
            ContractCheckId::CopyAtomicFile => 5,
            ContractCheckId::CopyAtomicTree => 6,
            ContractCheckId::CopyBasic => 7,
            ContractCheckId::CopyDurableFile => 8,
            ContractCheckId::CopyDurableTree => 9,
            ContractCheckId::CopyFallbackOverwriteRejected => 10,
            ContractCheckId::CopyRepeatedExecute => 11,
            ContractCheckId::CopyServerSide => 12,
            ContractCheckId::DeleteBasic => 13,
            ContractCheckId::DeleteIfMatch => 14,
            ContractCheckId::DeleteMissingOk => 15,
            ContractCheckId::DeleteTree => 16,
            ContractCheckId::DirectoryCreate => 17,
            ContractCheckId::DirectoryRecursive => 18,
            ContractCheckId::ErrorContext => 19,
            ContractCheckId::ListBasic => 20,
            ContractCheckId::ListLiteralPrefix => 21,
            ContractCheckId::ListPagination => 22,
            ContractCheckId::ListPrefix => 23,
            ContractCheckId::PropertiesCapabilityDependencies => 24,
            ContractCheckId::PropertiesLimitComponentAdmission => 25,
            ContractCheckId::PropertiesLimitListPage => 26,
            ContractCheckId::PropertiesLimitPathAdmission => 27,
            ContractCheckId::PropertiesLimits => 28,
            ContractCheckId::PropertiesPathConstraints => 29,
            ContractCheckId::PropertiesSnapshot => 30,
            ContractCheckId::PropertiesSymlinkPolicy => 31,
            ContractCheckId::ReadBasic => 32,
            ContractCheckId::ReadChecksum => 33,
            ContractCheckId::ReadChecksumCorruption => 34,
            ContractCheckId::ReadIfMatchCurrent => 35,
            ContractCheckId::ReadIfMatchStale => 36,
            ContractCheckId::ReadIfNoneMatchCurrent => 37,
            ContractCheckId::ReadIfNoneMatchStale => 38,
            ContractCheckId::ReadRange => 39,
            ContractCheckId::ReadRangeLimit => 40,
            ContractCheckId::RenameAtomic => 41,
            ContractCheckId::RenameBasic => 42,
            ContractCheckId::RenameConflict => 43,
            ContractCheckId::RenameDurable => 44,
            ContractCheckId::RepresentationEmpty => 45,
            ContractCheckId::RepresentationSymlink => 46,
            ContractCheckId::StatBasic => 47,
            ContractCheckId::StatFileKind => 48,
            ContractCheckId::TempAtomic => 49,
            ContractCheckId::TempDirectory => 50,
            ContractCheckId::TempFile => 51,
            ContractCheckId::TempRepeatedLifecycle => 52,
            ContractCheckId::WriteAtomicReplaceExisting => 53,
            ContractCheckId::WriteBasic => 54,
            ContractCheckId::WriteCreateConflict => 55,
            ContractCheckId::WriteReplace => 56,
            ContractCheckId::WriteAbort => 57,
            ContractCheckId::WriteCancelCommit => 58,
            ContractCheckId::WriteCancelFlush => 59,
            ContractCheckId::WriteCancelOpen => 60,
            ContractCheckId::WriteCancelWrite => 61,
            ContractCheckId::WriteDurable => 62,
            ContractCheckId::WriteIfAbsent => 63,
            ContractCheckId::WriteIfMatch => 64,
            ContractCheckId::WriteLimit => 65,
            ContractCheckId::WriteOwningOperation => 66,
            ContractCheckId::WriteRepeatedExecute => 67,
        }
    }

    /// Returns every recognized identity, including runtime-specific optional probes.
    pub fn all() -> (ids: Vec<ContractCheckId>)
        ensures
            ids@ == Self::spec_all(),
    {
        vec![
            ContractCheckId::AppendBasic,
            ContractCheckId::AsyncCopyCancelCommit,
            ContractCheckId::AsyncCopyCancelNativeAttempt,
            ContractCheckId::AsyncCopyCancelReader,
            ContractCheckId::AsyncCopyCancelWriter,
            ContractCheckId::CopyAtomicFile,
            ContractCheckId::CopyAtomicTree,
            ContractCheckId::CopyBasic,
            ContractCheckId::CopyDurableFile,
            ContractCheckId::CopyDurableTree,
            ContractCheckId::CopyFallbackOverwriteRejected,
            ContractCheckId::CopyRepeatedExecute,
            ContractCheckId::CopyServerSide,
            ContractCheckId::DeleteBasic,
            ContractCheckId::DeleteIfMatch,
            ContractCheckId::DeleteMissingOk,
            ContractCheckId::DeleteTree,
            ContractCheckId::DirectoryCreate,
            ContractCheckId::DirectoryRecursive,
            ContractCheckId::ErrorContext,
            ContractCheckId::ListBasic,
            ContractCheckId::ListLiteralPrefix,
            ContractCheckId::ListPagination,
            ContractCheckId::ListPrefix,
            ContractCheckId::PropertiesCapabilityDependencies,
            ContractCheckId::PropertiesLimitComponentAdmission,
            ContractCheckId::PropertiesLimitListPage,
            ContractCheckId::PropertiesLimitPathAdmission,
            ContractCheckId::PropertiesLimits,
            ContractCheckId::PropertiesPathConstraints,
            ContractCheckId::PropertiesSnapshot,
            ContractCheckId::PropertiesSymlinkPolicy,
            ContractCheckId::ReadBasic,
            ContractCheckId::ReadChecksum,
            ContractCheckId::ReadChecksumCorruption,
            ContractCheckId::ReadIfMatchCurrent,
            ContractCheckId::ReadIfMatchStale,
            ContractCheckId::ReadIfNoneMatchCurrent,
            ContractCheckId::ReadIfNoneMatchStale,
            ContractCheckId::ReadRange,
            ContractCheckId::ReadRangeLimit,
            ContractCheckId::RenameAtomic,
            ContractCheckId::RenameBasic,
            ContractCheckId::RenameConflict,
            ContractCheckId::RenameDurable,
            ContractCheckId::RepresentationEmpty,
            ContractCheckId::RepresentationSymlink,
            ContractCheckId::StatBasic,
            ContractCheckId::StatFileKind,
            ContractCheckId::TempAtomic,
            ContractCheckId::TempDirectory,
            ContractCheckId::TempFile,
            ContractCheckId::TempRepeatedLifecycle,
            ContractCheckId::WriteAtomicReplaceExisting,
            ContractCheckId::WriteBasic,
            ContractCheckId::WriteCreateConflict,
            ContractCheckId::WriteReplace,
            ContractCheckId::WriteAbort,
            ContractCheckId::WriteCancelCommit,
            ContractCheckId::WriteCancelFlush,
            ContractCheckId::WriteCancelOpen,
            ContractCheckId::WriteCancelWrite,
            ContractCheckId::WriteDurable,
            ContractCheckId::WriteIfAbsent,
            ContractCheckId::WriteIfMatch,
            ContractCheckId::WriteLimit,
            ContractCheckId::WriteOwningOperation,
            ContractCheckId::WriteRepeatedExecute,
        ]
    }

    /// Returns the sole phase responsible for this check.
    pub fn contract(self) -> (phase: FileSystemContract)
        ensures
            phase == check_catalog::spec_contract(self),
    {
        check_catalog::specification(self).contract
    }

    /// Returns whether missing instrumentation may skip this diagnostic probe.
    ///
    /// Executed failures are never optional; a caller can still require an
    /// optional probe through the report's explicit requirement selection.
    pub fn is_optional(self) -> (optional: bool)
        ensures
            optional == check_catalog::spec_optional(self),
    {
        check_catalog::specification(self).optional
    }

    /// Returns whether the synchronous driver can execute this check.
    pub fn supports_synchronous(self) -> (synchronous: bool)
        ensures
            synchronous == !check_catalog::spec_asynchronous_only(self),
    {
        !check_catalog::specification(self).asynchronous_only
    }

    /// Returns this check's allocation-free stable diagnostic name.
    pub fn as_str(self) -> (name: &'static str)
        ensures
            name@ == self.stable_name(),
    {
        match self {
            ContractCheckId::AppendBasic => "append/basic",
            ContractCheckId::AsyncCopyCancelCommit => "async-copy/cancel-commit",
            ContractCheckId::AsyncCopyCancelNativeAttempt => "async-copy/cancel-native-attempt",
            ContractCheckId::AsyncCopyCancelReader => "async-copy/cancel-reader",
            ContractCheckId::AsyncCopyCancelWriter => "async-copy/cancel-writer",
            ContractCheckId::CopyAtomicFile => "copy/atomic-file",
            ContractCheckId::CopyAtomicTree => "copy/atomic-tree",
            ContractCheckId::CopyBasic => "copy/basic",
            ContractCheckId::CopyDurableFile => "copy/durable-file",
            ContractCheckId::CopyDurableTree => "copy/durable-tree",
            ContractCheckId::CopyFallbackOverwriteRejected => "copy/fallback-overwrite-rejected",
            ContractCheckId::CopyRepeatedExecute => "copy/repeated-execute",
            ContractCheckId::CopyServerSide => "copy/server-side",
            ContractCheckId::DeleteBasic => "delete/basic",
            ContractCheckId::DeleteIfMatch => "delete/if-match",
            ContractCheckId::DeleteMissingOk => "delete/missing-ok",
            ContractCheckId::DeleteTree => "delete/tree",
            ContractCheckId::DirectoryCreate => "directory/create",
            ContractCheckId::DirectoryRecursive => "directory/recursive",
            ContractCheckId::ErrorContext => "error/context",
            ContractCheckId::ListBasic => "list/basic",
            ContractCheckId::ListLiteralPrefix => "list/literal-prefix",
            ContractCheckId::ListPagination => "list/pagination",
            ContractCheckId::ListPrefix => "list/prefix",
            ContractCheckId::PropertiesCapabilityDependencies => "properties/capability-dependencies",
            ContractCheckId::PropertiesLimitComponentAdmission => "properties/limit-component-admission",
            ContractCheckId::PropertiesLimitListPage => "properties/limit-list-page",
            ContractCheckId::PropertiesLimitPathAdmission => "properties/limit-path-admission",
            ContractCheckId::PropertiesLimits => "properties/limits",
            ContractCheckId::PropertiesPathConstraints => "properties/path-constraints",
            ContractCheckId::PropertiesSnapshot => "properties/snapshot",
            ContractCheckId::PropertiesSymlinkPolicy => "properties/symlink-policy",
            ContractCheckId::ReadBasic => "read/basic",
            ContractCheckId::ReadChecksum => "read/checksum",
            ContractCheckId::ReadChecksumCorruption => "read/checksum-corruption",
            ContractCheckId::ReadIfMatchCurrent => "read/if-match-current",
            ContractCheckId::ReadIfMatchStale => "read/if-match-stale",
            ContractCheckId::ReadIfNoneMatchCurrent => "read/if-none-match-current",
            ContractCheckId::ReadIfNoneMatchStale => "read/if-none-match-stale",
            ContractCheckId::ReadRange => "read/range",
            ContractCheckId::ReadRangeLimit => "read/range-limit",
            ContractCheckId::RenameAtomic => "rename/atomic",
            ContractCheckId::RenameBasic => "rename/basic",
            ContractCheckId::RenameConflict => "rename/conflict",
            ContractCheckId::RenameDurable => "rename/durable",
            ContractCheckId::RepresentationEmpty => "representation/empty",
            ContractCheckId::RepresentationSymlink => "representation/symlink",
            ContractCheckId::StatBasic => "stat/basic",
            ContractCheckId::StatFileKind => "stat/file-kind",
            ContractCheckId::TempAtomic => "temp/atomic",
            ContractCheckId::TempDirectory => "temp/directory",
            ContractCheckId::TempFile => "temp/file",
            ContractCheckId::TempRepeatedLifecycle => "temp/repeated-lifecycle",
            ContractCheckId::WriteAtomicReplaceExisting => "write/atomic-replace-existing",
            ContractCheckId::WriteBasic => "write/basic",
            ContractCheckId::WriteCreateConflict => "write/create-conflict",
            ContractCheckId::WriteReplace => "write/replace",
            ContractCheckId::WriteAbort => "write/abort",
            ContractCheckId::WriteCancelCommit => "write/cancel-commit",
            ContractCheckId::WriteCancelFlush => "write/cancel-flush",
            ContractCheckId::WriteCancelOpen => "write/cancel-open",
            ContractCheckId::WriteCancelWrite => "write/cancel-write",
            ContractCheckId::WriteDurable => "write/durable",
            ContractCheckId::WriteIfAbsent => "write/if-absent",
            ContractCheckId::WriteIfMatch => "write/if-match",
            ContractCheckId::WriteLimit => "write/limit",
            ContractCheckId::WriteOwningOperation => "write/owning-operation",
            ContractCheckId::WriteRepeatedExecute => "write/repeated-execute",
        }
    }
}

/// The check that a name's length and its characters at a few fixed
/// positions single out among the stable names, or `None` when they
/// single out none.
pub open spec fn check_by_name_key(name: Seq<char>) -> Option<ContractCheckId> {
    if name.len() == 12 && name[7] == 'b' && name[0] == 'a' {
        Some(ContractCheckId::AppendBasic)
    } else if name.len() == 24 && name[7] == 'o' && name[0] == 'a' && name[13] == 'n' && name[18] == 'c' {
        Some(ContractCheckId::AsyncCopyCancelCommit)
    } else if name.len() == 32 && name[7] == 'o' && name[0] == 'a' && name[13] == 'n' && name[18] == 'n' {
        Some(ContractCheckId::AsyncCopyCancelNativeAttempt)
    } else if name.len() == 24 && name[7] == 'o' && name[0] == 'a' && name[13] == 'n' && name[18] == 'r' {
        Some(ContractCheckId::AsyncCopyCancelReader)
    } else if name.len() == 24 && name[7] == 'o' && name[0] == 'a' && name[13] == 'n' && name[18] == 'w' {
        Some(ContractCheckId::AsyncCopyCancelWriter)
    } else if name.len() == 16 && name[7] == 'o' && name[0] == 'c' && name[13] == 'i' {
        Some(ContractCheckId::CopyAtomicFile)
    } else if name.len() == 16 && name[7] == 'o' && name[0] == 'c' && name[13] == 'r' {
        Some(ContractCheckId::CopyAtomicTree)
    } else if name.len() == 10 && name[7] == 's' && name[0] == 'c' {
        Some(ContractCheckId::CopyBasic)
    } else if name.len() == 17 && name[7] == 'r' && name[0] == 'c' && name[13] == 'f' {
        Some(ContractCheckId::CopyDurableFile)
    } else if name.len() == 17 && name[7] == 'r' && name[0] == 'c' && name[13] == 't' {
        Some(ContractCheckId::CopyDurableTree)
    } else if name.len() == 32 && name[7] == 'l' && name[0] == 'c' && name[13] == '-' && name[18] == 'w' {
        Some(ContractCheckId::CopyFallbackOverwriteRejected)
    } else if name.len() == 21 && name[7] == 'p' && name[0] == 'c' && name[13] == '-' && name[18] == 'u' {
        Some(ContractCheckId::CopyRepeatedExecute)
    } else if name.len() == 16 && name[7] == 'r' && name[0] == 'c' && name[13] == 'i' {
        Some(ContractCheckId::CopyServerSide)
    } else if name.len() == 12 && name[7] == 'b' && name[0] == 'd' {
        Some(ContractCheckId::DeleteBasic)
    } else if name.len() == 15 && name[7] == 'i' && name[0] == 'd' && name[13] == 'c' {
        Some(ContractCheckId::DeleteIfMatch)
    } else if name.len() == 17 && name[7] == 'm' && name[0] == 'd' && name[13] == 'g' {
        Some(ContractCheckId::DeleteMissingOk)
    } else if name.len() == 11 && name[7] == 't' && name[0] == 'd' {
        Some(ContractCheckId::DeleteTree)
    } else if name.len() == 16 && name[7] == 'r' && name[0] == 'd' && name[13] == 'a' {
        Some(ContractCheckId::DirectoryCreate)
    } else if name.len() == 19 && name[7] == 'r' && name[0] == 'd' && name[13] == 'u' && name[18] == 'e' {
        Some(ContractCheckId::DirectoryRecursive)
    } else if name.len() == 13 && name[7] == 'o' && name[0] == 'e' {
        Some(ContractCheckId::ErrorContext)
    } else if name.len() == 10 && name[7] == 's' && name[0] == 'l' {
        Some(ContractCheckId::ListBasic)
    } else if name.len() == 19 && name[7] == 't' && name[0] == 'l' && name[13] == 'p' && name[18] == 'x' {
        Some(ContractCheckId::ListLiteralPrefix)
    } else if name.len() == 15 && name[7] == 'g' && name[0] == 'l' && name[13] == 'o' {
        Some(ContractCheckId::ListPagination)
    } else if name.len() == 11 && name[7] == 'e' && name[0] == 'l' {
        Some(ContractCheckId::ListPrefix)
    } else if name.len() == 34 && name[7] == 'i' && name[0] == 'p' && name[13] == 'p' && name[18] == 'i' {
        Some(ContractCheckId::PropertiesCapabilityDependencies)
    } else if name.len() == 36 && name[7] == 'i' && name[0] == 'p' && name[13] == 'm' && name[18] == 'o' {
        Some(ContractCheckId::PropertiesLimitComponentAdmission)
    } else if name.len() == 26 && name[7] == 'i' && name[0] == 'p' && name[13] == 'm' && name[18] == 'i' {
        Some(ContractCheckId::PropertiesLimitListPage)
    } else if name.len() == 31 && name[7] == 'i' && name[0] == 'p' && name[13] == 'm' && name[18] == 'a' {
        Some(ContractCheckId::PropertiesLimitPathAdmission)
    } else if name.len() == 17 && name[7] == 'i' && name[0] == 'p' && name[13] == 'm' {
        Some(ContractCheckId::PropertiesLimits)
    } else if name.len() == 27 && name[7] == 'i' && name[0] == 'p' && name[13] == 't' && name[18] == 'n' {
        Some(ContractCheckId::PropertiesPathConstraints)
    } else if name.len() == 19 && name[7] == 'i' && name[0] == 'p' && name[13] == 'a' && name[18] == 't' {
        Some(ContractCheckId::PropertiesSnapshot)
    } else if name.len() == 25 && name[7] == 'i' && name[0] == 'p' && name[13] == 'm' && name[18] == '-' {
        Some(ContractCheckId::PropertiesSymlinkPolicy)
    } else if name.len() == 10 && name[7] == 's' && name[0] == 'r' {
        Some(ContractCheckId::ReadBasic)
    } else if name.len() == 13 && name[7] == 'e' && name[0] == 'r' {
        Some(ContractCheckId::ReadChecksum)
    } else if name.len() == 24 && name[7] == 'e' && name[0] == 'r' && name[13] == '-' && name[18] == 'u' {
        Some(ContractCheckId::ReadChecksumCorruption)
    } else if name.len() == 21 && name[7] == '-' && name[0] == 'r' && name[13] == '-' && name[18] == 'e' {
        Some(ContractCheckId::ReadIfMatchCurrent)
    } else if name.len() == 19 && name[7] == '-' && name[0] == 'r' && name[13] == '-' && name[18] == 'e' {
        Some(ContractCheckId::ReadIfMatchStale)
    } else if name.len() == 26 && name[7] == '-' && name[0] == 'r' && name[13] == 'm' && name[18] == '-' {
        Some(ContractCheckId::ReadIfNoneMatchCurrent)
    } else if name.len() == 24 && name[7] == '-' && name[0] == 'r' && name[13] == 'm' && name[18] == '-' {
        Some(ContractCheckId::ReadIfNoneMatchStale)
    } else if name.len() == 10 && name[7] == 'n' && name[0] == 'r' {
        Some(ContractCheckId::ReadRange)
    } else if name.len() == 16 && name[7] == 'n' && name[0] == 'r' && name[13] == 'm' {
        Some(ContractCheckId::ReadRangeLimit)
    } else if name.len() == 13 && name[7] == 'a' && name[0] == 'r' {
        Some(ContractCheckId::RenameAtomic)
    } else if name.len() == 12 && name[7] == 'b' && name[0] == 'r' {
        Some(ContractCheckId::RenameBasic)
    } else if name.len() == 15 && name[7] == 'c' && name[0] == 'r' && name[13] == 'c' {
        Some(ContractCheckId::RenameConflict)
    } else if name.len() == 14 && name[7] == 'd' && name[0] == 'r' && name[13] == 'e' {
        Some(ContractCheckId::RenameDurable)
    } else if name.len() == 20 && name[7] == 'n' && name[0] == 'r' && name[13] == 'n' && name[18] == 't' {
        Some(ContractCheckId::RepresentationEmpty)
    } else if name.len() == 22 && name[7] == 'n' && name[0] == 'r' && name[13] == 'n' && name[18] == 'l' {
        Some(ContractCheckId::RepresentationSymlink)
    } else if name.len() == 10 && name[7] == 's' && name[0] == 's' {
        Some(ContractCheckId::StatBasic)
    } else if name.len() == 14 && name[7] == 'l' && name[0] == 's' && name[13] == 'd' {
        Some(ContractCheckId::StatFileKind)
    } else if name.len() == 11 && name[7] == 'o' && name[0] == 't' {
        Some(ContractCheckId::TempAtomic)
    } else if name.len() == 14 && name[7] == 'r' && name[0] == 't' && name[13] == 'y' {
        Some(ContractCheckId::TempDirectory)
    } else if name.len() == 9 && name[7] == 'l' && name[0] == 't' {
        Some(ContractCheckId::TempFile)
    } else if name.len() == 23 && name[7] == 'p' && name[0] == 't' && name[13] == '-' && name[18] == 'c' {
        Some(ContractCheckId::TempRepeatedLifecycle)
    } else if name.len() == 29 && name[7] == 't' && name[0] == 'w' && name[13] == 'r' && name[18] == 'c' {
        Some(ContractCheckId::WriteAtomicReplaceExisting)
    } else if name.len() == 11 && name[7] == 'a' && name[0] == 'w' {
        Some(ContractCheckId::WriteBasic)
    } else if name.len() == 21 && name[7] == 'r' && name[0] == 'w' && name[13] == 'c' && name[18] == 'i' {
        Some(ContractCheckId::WriteCreateConflict)
    } else if name.len() == 13 && name[7] == 'e' && name[0] == 'w' {
        Some(ContractCheckId::WriteReplace)
    } else if name.len() == 11 && name[7] == 'b' && name[0] == 'w' {
        Some(ContractCheckId::WriteAbort)
    } else if name.len() == 19 && name[7] == 'a' && name[0] == 'w' && name[13] == 'c' && name[18] == 't' {
        Some(ContractCheckId::WriteCancelCommit)
    } else if name.len() == 18 && name[7] == 'a' && name[0] == 'w' && name[13] == 'f' {
        Some(ContractCheckId::WriteCancelFlush)
    } else if name.len() == 17 && name[7] == 'a' && name[0] == 'w' && name[13] == 'o' {
        Some(ContractCheckId::WriteCancelOpen)
    } else if name.len() == 18 && name[7] == 'a' && name[0] == 'w' && name[13] == 'w' {
        Some(ContractCheckId::WriteCancelWrite)
    } else if name.len() == 13 && name[7] == 'u' && name[0] == 'w' {
        Some(ContractCheckId::WriteDurable)
    } else if name.len() == 15 && name[7] == 'f' && name[0] == 'w' && name[13] == 'n' {
        Some(ContractCheckId::WriteIfAbsent)
    } else if name.len() == 14 && name[7] == 'f' && name[0] == 'w' && name[13] == 'h' {
        Some(ContractCheckId::WriteIfMatch)
    } else if name.len() == 11 && name[7] == 'i' && name[0] == 'w' {
        Some(ContractCheckId::WriteLimit)
    } else if name.len() == 22 && name[7] == 'w' && name[0] == 'w' && name[13] == 'o' && name[18] == 't' {
        Some(ContractCheckId::WriteOwningOperation)
    } else if name.len() == 22 && name[7] == 'e' && name[0] == 'w' && name[13] == 'd' && name[18] == 'c' {
        Some(ContractCheckId::WriteRepeatedExecute)
    } else {
        None
    }
}

/// Every check's stable name reads back as that check.
pub proof fn lemma_stable_name_reads_back(id: ContractCheckId)
    ensures
        check_by_name_key(id.stable_name()) == Some(id),
{
    match id {
        ContractCheckId::AppendBasic => reveal_strlit("append/basic"),
        ContractCheckId::AsyncCopyCancelCommit => reveal_strlit("async-copy/cancel-commit"),
        ContractCheckId::AsyncCopyCancelNativeAttempt => reveal_strlit("async-copy/cancel-native-attempt"),
        ContractCheckId::AsyncCopyCancelReader => reveal_strlit("async-copy/cancel-reader"),
        ContractCheckId::AsyncCopyCancelWriter => reveal_strlit("async-copy/cancel-writer"),
        ContractCheckId::CopyAtomicFile => reveal_strlit("copy/atomic-file"),
        ContractCheckId::CopyAtomicTree => reveal_strlit("copy/atomic-tree"),
        ContractCheckId::CopyBasic => reveal_strlit("copy/basic"),
        ContractCheckId::CopyDurableFile => reveal_strlit("copy/durable-file"),
        ContractCheckId::CopyDurableTree => reveal_strlit("copy/durable-tree"),
        ContractCheckId::CopyFallbackOverwriteRejected => reveal_strlit("copy/fallback-overwrite-rejected"),
        ContractCheckId::CopyRepeatedExecute => reveal_strlit("copy/repeated-execute"),
        ContractCheckId::CopyServerSide => reveal_strlit("copy/server-side"),
        ContractCheckId::DeleteBasic => reveal_strlit("delete/basic"),
        ContractCheckId::DeleteIfMatch => reveal_strlit("delete/if-match"),
        ContractCheckId::DeleteMissingOk => reveal_strlit("delete/missing-ok"),
        ContractCheckId::DeleteTree => reveal_strlit("delete/tree"),
        ContractCheckId::DirectoryCreate => reveal_strlit("directory/create"),
        ContractCheckId::DirectoryRecursive => reveal_strlit("directory/recursive"),
        ContractCheckId::ErrorContext => reveal_strlit("error/context"),
        ContractCheckId::ListBasic => reveal_strlit("list/basic"),
        ContractCheckId::ListLiteralPrefix => reveal_strlit("list/literal-prefix"),
        ContractCheckId::ListPagination => reveal_strlit("list/pagination"),
        ContractCheckId::ListPrefix => reveal_strlit("list/prefix"),
        ContractCheckId::PropertiesCapabilityDependencies => reveal_strlit("properties/capability-dependencies"),
        ContractCheckId::PropertiesLimitComponentAdmission => reveal_strlit("properties/limit-component-admission"),
        ContractCheckId::PropertiesLimitListPage => reveal_strlit("properties/limit-list-page"),
        ContractCheckId::PropertiesLimitPathAdmission => reveal_strlit("properties/limit-path-admission"),
        ContractCheckId::PropertiesLimits => reveal_strlit("properties/limits"),
        ContractCheckId::PropertiesPathConstraints => reveal_strlit("properties/path-constraints"),
        ContractCheckId::PropertiesSnapshot => reveal_strlit("properties/snapshot"),
        ContractCheckId::PropertiesSymlinkPolicy => reveal_strlit("properties/symlink-policy"),
        ContractCheckId::ReadBasic => reveal_strlit("read/basic"),
        ContractCheckId::ReadChecksum => reveal_strlit("read/checksum"),
        ContractCheckId::ReadChecksumCorruption => reveal_strlit("read/checksum-corruption"),
        ContractCheckId::ReadIfMatchCurrent => reveal_strlit("read/if-match-current"),
        ContractCheckId::ReadIfMatchStale => reveal_strlit("read/if-match-stale"),
        ContractCheckId::ReadIfNoneMatchCurrent => reveal_strlit("read/if-none-match-current"),
        ContractCheckId::ReadIfNoneMatchStale => reveal_strlit("read/if-none-match-stale"),
        ContractCheckId::ReadRange => reveal_strlit("read/range"),
        ContractCheckId::ReadRangeLimit => reveal_strlit("read/range-limit"),
        ContractCheckId::RenameAtomic => reveal_strlit("rename/atomic"),
        ContractCheckId::RenameBasic => reveal_strlit("rename/basic"),
        ContractCheckId::RenameConflict => reveal_strlit("rename/conflict"),
        ContractCheckId::RenameDurable => reveal_strlit("rename/durable"),
        ContractCheckId::RepresentationEmpty => reveal_strlit("representation/empty"),
        ContractCheckId::RepresentationSymlink => reveal_strlit("representation/symlink"),
        ContractCheckId::StatBasic => reveal_strlit("stat/basic"),
        ContractCheckId::StatFileKind => reveal_strlit("stat/file-kind"),
        ContractCheckId::TempAtomic => reveal_strlit("temp/atomic"),
        ContractCheckId::TempDirectory => reveal_strlit("temp/directory"),
        ContractCheckId::TempFile => reveal_strlit("temp/file"),
        ContractCheckId::TempRepeatedLifecycle => reveal_strlit("temp/repeated-lifecycle"),
        ContractCheckId::WriteAtomicReplaceExisting => reveal_strlit("write/atomic-replace-existing"),
        ContractCheckId::WriteBasic => reveal_strlit("write/basic"),
        ContractCheckId::WriteCreateConflict => reveal_strlit("write/create-conflict"),
        ContractCheckId::WriteReplace => reveal_strlit("write/replace"),
        ContractCheckId::WriteAbort => reveal_strlit("write/abort"),
        ContractCheckId::WriteCancelCommit => reveal_strlit("write/cancel-commit"),
        ContractCheckId::WriteCancelFlush => reveal_strlit("write/cancel-flush"),
        ContractCheckId::WriteCancelOpen => reveal_strlit("write/cancel-open"),
        ContractCheckId::WriteCancelWrite => reveal_strlit("write/cancel-write"),
        ContractCheckId::WriteDurable => reveal_strlit("write/durable"),
        ContractCheckId::WriteIfAbsent => reveal_strlit("write/if-absent"),
        ContractCheckId::WriteIfMatch => reveal_strlit("write/if-match"),
        ContractCheckId::WriteLimit => reveal_strlit("write/limit"),
        ContractCheckId::WriteOwningOperation => reveal_strlit("write/owning-operation"),
        ContractCheckId::WriteRepeatedExecute => reveal_strlit("write/repeated-execute"),
    }
}

/// Distinct checks have distinct stable names, so a name identifies its
/// check.
pub proof fn law_stable_names_distinct(a: ContractCheckId, b: ContractCheckId)
    ensures
        a != b ==> a.stable_name() != b.stable_name(),
{
    lemma_stable_name_reads_back(a);
    lemma_stable_name_reads_back(b);
}

/// Catalog order lists every identity exactly once: the identity at each
/// position is the one whose catalog index is that position.
pub proof fn lemma_catalog_order_is_exact(id: ContractCheckId)
    ensures
        0 <= id.catalog_index() < ContractCheckId::spec_all().len(),
        ContractCheckId::spec_all()[id.catalog_index()] == id,
        ContractCheckId::spec_all().len() == 68,
{
}

/// Whether a character may stand in a group or a name: a lowercase ASCII
/// letter or a hyphen.
pub open spec fn is_name_char(c: char) -> bool {
    ('a' <= c && c <= 'z') || c == '-'
}

/// The shape of a stable name: a non-empty group, exactly one `/`, and a
/// non-empty name, every character but the `/` a lowercase ASCII letter or
/// a hyphen.
pub open spec fn is_stable_name_shape(name: Seq<char>) -> bool {
    exists|slash: int|
        0 < slash < name.len() - 1 && #[trigger] name[slash] == '/' && forall|i: int|
            0 <= i < name.len() && i != slash ==> is_name_char(#[trigger] name[i])
}

/// Every stable name is a group and a name around exactly one `/`, both
/// non-empty and written in lowercase ASCII letters and hyphens.
pub proof fn law_stable_name_shape(id: ContractCheckId)
    ensures
        is_stable_name_shape(id.stable_name()),
{
    match id {
        ContractCheckId::AppendBasic => {
            reveal_strlit("append/basic");
            assert(id.stable_name()[6] == '/');
        },
        ContractCheckId::AsyncCopyCancelCommit => {
            reveal_strlit("async-copy/cancel-commit");
            assert(id.stable_name()[10] == '/');
        },
        ContractCheckId::AsyncCopyCancelNativeAttempt => {
            reveal_strlit("async-copy/cancel-native-attempt");
            assert(id.stable_name()[10] == '/');
        },
        ContractCheckId::AsyncCopyCancelReader => {
            reveal_strlit("async-copy/cancel-reader");
            assert(id.stable_name()[10] == '/');
        },
        ContractCheckId::AsyncCopyCancelWriter => {
            reveal_strlit("async-copy/cancel-writer");
            assert(id.stable_name()[10] == '/');
        },
        ContractCheckId::CopyAtomicFile => {
            reveal_strlit("copy/atomic-file");
            assert(id.stable_name()[4] == '/');
        },
        ContractCheckId::CopyAtomicTree => {
            reveal_strlit("copy/atomic-tree");
            assert(id.stable_name()[4] == '/');
        },
        ContractCheckId::CopyBasic => {
            reveal_strlit("copy/basic");
            assert(id.stable_name()[4] == '/');
        },
        ContractCheckId::CopyDurableFile => {
            reveal_strlit("copy/durable-file");
            assert(id.stable_name()[4] == '/');
        },
        ContractCheckId::CopyDurableTree => {
            reveal_strlit("copy/durable-tree");
            assert(id.stable_name()[4] == '/');
        },
        ContractCheckId::CopyFallbackOverwriteRejected => {
            reveal_strlit("copy/fallback-overwrite-rejected");
            assert(id.stable_name()[4] == '/');
        },
        ContractCheckId::CopyRepeatedExecute => {
            reveal_strlit("copy/repeated-execute");
            assert(id.stable_name()[4] == '/');
        },
        ContractCheckId::CopyServerSide => {
            reveal_strlit("copy/server-side");
            assert(id.stable_name()[4] == '/');
        },
        ContractCheckId::DeleteBasic => {
            reveal_strlit("delete/basic");
            assert(id.stable_name()[6] == '/');
        },
        ContractCheckId::DeleteIfMatch => {
            reveal_strlit("delete/if-match");
            assert(id.stable_name()[6] == '/');
        },
        ContractCheckId::DeleteMissingOk => {
            reveal_strlit("delete/missing-ok");
            assert(id.stable_name()[6] == '/');
        },
        ContractCheckId::DeleteTree => {
            reveal_strlit("delete/tree");
            assert(id.stable_name()[6] == '/');
        },
        ContractCheckId::DirectoryCreate => {
            reveal_strlit("directory/create");
            assert(id.stable_name()[9] == '/');
        },
        ContractCheckId::DirectoryRecursive => {
            reveal_strlit("directory/recursive");
            assert(id.stable_name()[9] == '/');
        },
        ContractCheckId::ErrorContext => {
            reveal_strlit("error/context");
            assert(id.stable_name()[5] == '/');
        },
        ContractCheckId::ListBasic => {
            reveal_strlit("list/basic");
            assert(id.stable_name()[4] == '/');
        },
        ContractCheckId::ListLiteralPrefix => {
            reveal_strlit("list/literal-prefix");
            assert(id.stable_name()[4] == '/');
        },
        ContractCheckId::ListPagination => {
            reveal_strlit("list/pagination");
            assert(id.stable_name()[4] == '/');
        },
        ContractCheckId::ListPrefix => {
            reveal_strlit("list/prefix");
            assert(id.stable_name()[4] == '/');
        },
        ContractCheckId::PropertiesCapabilityDependencies => {
            reveal_strlit("properties/capability-dependencies");
            assert(id.stable_name()[10] == '/');
        },
        ContractCheckId::PropertiesLimitComponentAdmission => {
            reveal_strlit("properties/limit-component-admission");
            assert(id.stable_name()[10] == '/');
        },
        ContractCheckId::PropertiesLimitListPage => {
            reveal_strlit("properties/limit-list-page");
            assert(id.stable_name()[10] == '/');
        },
        ContractCheckId::PropertiesLimitPathAdmission => {
            reveal_strlit("properties/limit-path-admission");
            assert(id.stable_name()[10] == '/');
        },
        ContractCheckId::PropertiesLimits => {
            reveal_strlit("properties/limits");
            assert(id.stable_name()[10] == '/');
        },
        ContractCheckId::PropertiesPathConstraints => {
            reveal_strlit("properties/path-constraints");
            assert(id.stable_name()[10] == '/');
        },
        ContractCheckId::PropertiesSnapshot => {
            reveal_strlit("properties/snapshot");
            assert(id.stable_name()[10] == '/');
        },
        ContractCheckId::PropertiesSymlinkPolicy => {
            reveal_strlit("properties/symlink-policy");
            assert(id.stable_name()[10] == '/');
        },
        ContractCheckId::ReadBasic => {
            reveal_strlit("read/basic");
            assert(id.stable_name()[4] == '/');
        },
        ContractCheckId::ReadChecksum => {
            reveal_strlit("read/checksum");
            assert(id.stable_name()[4] == '/');
        },
        ContractCheckId::ReadChecksumCorruption => {
            reveal_strlit("read/checksum-corruption");
            assert(id.stable_name()[4] == '/');
        },
        ContractCheckId::ReadIfMatchCurrent => {
            reveal_strlit("read/if-match-current");
            assert(id.stable_name()[4] == '/');
        },
        ContractCheckId::ReadIfMatchStale => {
            reveal_strlit("read/if-match-stale");
            assert(id.stable_name()[4] == '/');
        },
        ContractCheckId::ReadIfNoneMatchCurrent => {
            reveal_strlit("read/if-none-match-current");
            assert(id.stable_name()[4] == '/');
        },
        ContractCheckId::ReadIfNoneMatchStale => {
            reveal_strlit("read/if-none-match-stale");
            assert(id.stable_name()[4] == '/');
        },
        ContractCheckId::ReadRange => {
            reveal_strlit("read/range");
            assert(id.stable_name()[4] == '/');
        },
        ContractCheckId::ReadRangeLimit => {
            reveal_strlit("read/range-limit");
            assert(id.stable_name()[4] == '/');
        },
        ContractCheckId::RenameAtomic => {
            reveal_strlit("rename/atomic");
            assert(id.stable_name()[6] == '/');
        },
        ContractCheckId::RenameBasic => {
            reveal_strlit("rename/basic");
            assert(id.stable_name()[6] == '/');
        },
        ContractCheckId::RenameConflict => {
            reveal_strlit("rename/conflict");
            assert(id.stable_name()[6] == '/');
        },
        ContractCheckId::RenameDurable => {
            reveal_strlit("rename/durable");
            assert(id.stable_name()[6] == '/');
        },
        ContractCheckId::RepresentationEmpty => {
            reveal_strlit("representation/empty");
            assert(id.stable_name()[14] == '/');
        },
        ContractCheckId::RepresentationSymlink => {
            reveal_strlit("representation/symlink");
            assert(id.stable_name()[14] == '/');
        },
        ContractCheckId::StatBasic => {
            reveal_strlit("stat/basic");
            assert(id.stable_name()[4] == '/');
        },
        ContractCheckId::StatFileKind => {
            reveal_strlit("stat/file-kind");
            assert(id.stable_name()[4] == '/');
        },
        ContractCheckId::TempAtomic => {
            reveal_strlit("temp/atomic");
            assert(id.stable_name()[4] == '/');
        },
        ContractCheckId::TempDirectory => {
            reveal_strlit("temp/directory");
            assert(id.stable_name()[4] == '/');
        },
        ContractCheckId::TempFile => {
            reveal_strlit("temp/file");
            assert(id.stable_name()[4] == '/');
        },
        ContractCheckId::TempRepeatedLifecycle => {
            reveal_strlit("temp/repeated-lifecycle");
            assert(id.stable_name()[4] == '/');
        },
        ContractCheckId::WriteAtomicReplaceExisting => {
            reveal_strlit("write/atomic-replace-existing");
            assert(id.stable_name()[5] == '/');
        },
        ContractCheckId::WriteBasic => {
            reveal_strlit("write/basic");
            assert(id.stable_name()[5] == '/');
        },
        ContractCheckId::WriteCreateConflict => {
            reveal_strlit("write/create-conflict");
            assert(id.stable_name()[5] == '/');
        },
        ContractCheckId::WriteReplace => {
            reveal_strlit("write/replace");
            assert(id.stable_name()[5] == '/');
        },
        ContractCheckId::WriteAbort => {
            reveal_strlit("write/abort");
            assert(id.stable_name()[5] == '/');
        },
        ContractCheckId::WriteCancelCommit => {
            reveal_strlit("write/cancel-commit");
            assert(id.stable_name()[5] == '/');
        },
        ContractCheckId::WriteCancelFlush => {
            reveal_strlit("write/cancel-flush");
            assert(id.stable_name()[5] == '/');
        },
        ContractCheckId::WriteCancelOpen => {
            reveal_strlit("write/cancel-open");
            assert(id.stable_name()[5] == '/');
        },
        ContractCheckId::WriteCancelWrite => {
            reveal_strlit("write/cancel-write");
            assert(id.stable_name()[5] == '/');
        },
        ContractCheckId::WriteDurable => {
            reveal_strlit("write/durable");
            assert(id.stable_name()[5] == '/');
        },
        ContractCheckId::WriteIfAbsent => {
            reveal_strlit("write/if-absent");
            assert(id.stable_name()[5] == '/');
        },
        ContractCheckId::WriteIfMatch => {
            reveal_strlit("write/if-match");
            assert(id.stable_name()[5] == '/');
        },
        ContractCheckId::WriteLimit => {
            reveal_strlit("write/limit");
            assert(id.stable_name()[5] == '/');
        },
        ContractCheckId::WriteOwningOperation => {
            reveal_strlit("write/owning-operation");
            assert(id.stable_name()[5] == '/');
        },
        ContractCheckId::WriteRepeatedExecute => {
            reveal_strlit("write/repeated-execute");
            assert(id.stable_name()[5] == '/');
        },
    }
}

} // verus!
