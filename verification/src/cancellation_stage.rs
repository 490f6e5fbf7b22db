use vstd::prelude::*;

use crate::contract_check_id::ContractCheckId;

verus! {

/// Cancellation point exercised by an asynchronous copy contract probe.
#[derive(Clone, Copy, Debug, PartialEq, Eq, Structural)]
pub enum AsyncCopyCancellationStage {
    /// The provider-native copy attempt is pending.
    NativeAttempt,
    /// The fallback source reader is pending.
    Reader,
    /// The fallback target writer is pending.
    Writer,
    /// The fallback commit is pending.
    Commit,
}

/// A provider-owned stage at which an owning write operation may be
/// cancelled.
#[derive(Clone, Copy, Debug, PartialEq, Eq, Structural)]
pub enum AsyncWriteCancellationStage {
    /// Opening the provider writer is pending.
    Open,
    /// Writing the payload is pending.
    Write,
    /// Flushing buffered bytes is pending.
    Flush,
    /// Publishing the completed writer is pending.
    Commit,
}

/// The check that reports a copy cancellation stage.
pub open spec fn copy_cancellation_id(stage: AsyncCopyCancellationStage) -> ContractCheckId {
    match stage {
        AsyncCopyCancellationStage::NativeAttempt => ContractCheckId::AsyncCopyCancelNativeAttempt,
        AsyncCopyCancellationStage::Reader => ContractCheckId::AsyncCopyCancelReader,
        AsyncCopyCancellationStage::Writer => ContractCheckId::AsyncCopyCancelWriter,
        AsyncCopyCancellationStage::Commit => ContractCheckId::AsyncCopyCancelCommit,
    }
}

/// The check that reports a write cancellation stage.
pub open spec fn write_cancellation_id(stage: AsyncWriteCancellationStage) -> ContractCheckId {
    match stage {
        AsyncWriteCancellationStage::Open => ContractCheckId::WriteCancelOpen,
        AsyncWriteCancellationStage::Write => ContractCheckId::WriteCancelWrite,
        AsyncWriteCancellationStage::Flush => ContractCheckId::WriteCancelFlush,
        AsyncWriteCancellationStage::Commit => ContractCheckId::WriteCancelCommit,
    }
}

/// Returns the stable identity for one copy cancellation stage.
pub fn cancellation_check_id(stage: AsyncCopyCancellationStage) -> (id: ContractCheckId)
    ensures
        id == copy_cancellation_id(stage),
{
    match stage {
        AsyncCopyCancellationStage::NativeAttempt => ContractCheckId::AsyncCopyCancelNativeAttempt,
        AsyncCopyCancellationStage::Reader => ContractCheckId::AsyncCopyCancelReader,
        AsyncCopyCancellationStage::Writer => ContractCheckId::AsyncCopyCancelWriter,
        AsyncCopyCancellationStage::Commit => ContractCheckId::AsyncCopyCancelCommit,
    }
}

/// Maps a write cancellation stage to its stable evidence name.
pub fn check_id(stage: AsyncWriteCancellationStage) -> (name: &'static str)
    ensures
        name@ == write_cancellation_id(stage).stable_name(),
{
    match stage {
        AsyncWriteCancellationStage::Open => "write/cancel-open",
        AsyncWriteCancellationStage::Write => "write/cancel-write",
        AsyncWriteCancellationStage::Flush => "write/cancel-flush",
        AsyncWriteCancellationStage::Commit => "write/cancel-commit",
    }
}

/// Distinct copy stages report distinct checks, each an optional probe of
/// the copy phase that only the asynchronous driver runs.
pub proof fn law_copy_cancellation_ids(first: AsyncCopyCancellationStage, second: AsyncCopyCancellationStage)
    ensures
        first != second ==> copy_cancellation_id(first) != copy_cancellation_id(second),
        crate::check_catalog::spec_contract(copy_cancellation_id(first))
            == crate::file_system_contract::FileSystemContract::Copy,
        crate::check_catalog::spec_optional(copy_cancellation_id(first)),
        crate::check_catalog::spec_asynchronous_only(copy_cancellation_id(first)),
{
}

/// Distinct write stages report distinct checks, each a required check of
/// the write phase that only the asynchronous driver runs.
pub proof fn law_write_cancellation_ids(first: AsyncWriteCancellationStage, second: AsyncWriteCancellationStage)
    ensures
        first != second ==> write_cancellation_id(first) != write_cancellation_id(second),
        crate::check_catalog::spec_contract(write_cancellation_id(first))
            == crate::file_system_contract::FileSystemContract::Write,
        !crate::check_catalog::spec_optional(write_cancellation_id(first)),
        crate::check_catalog::spec_asynchronous_only(write_cancellation_id(first)),
{
}

} // verus!
