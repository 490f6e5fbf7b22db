use vstd::prelude::*;

use crate::capability::FileSystemCapability;
use crate::contract_check_id::ContractCheckId;
use crate::file_system_contract::FileSystemContract;

verus! {

/// Static facts about one catalog entry.
#[derive(Clone, Copy, Debug, PartialEq, Eq, Structural)]
pub struct CheckSpecification {
    /// The identity this entry describes.
    pub id: ContractCheckId,
    /// The phase that registers and executes the check.
    pub contract: FileSystemContract,
    /// Whether missing instrumentation may skip the check.
    pub optional: bool,
    /// Whether only the asynchronous driver can execute the check.
    pub asynchronous_only: bool,
    /// The capability the check exercises, when there is one.
    pub capability: Option<FileSystemCapability>,
}

/// The phase that owns a check.
pub open spec fn spec_contract(id: ContractCheckId) -> FileSystemContract {
    match id {
        ContractCheckId::AppendBasic => FileSystemContract::Write,
        ContractCheckId::AsyncCopyCancelCommit => FileSystemContract::Copy,
        ContractCheckId::AsyncCopyCancelNativeAttempt => FileSystemContract::Copy,
        ContractCheckId::AsyncCopyCancelReader => FileSystemContract::Copy,
        ContractCheckId::AsyncCopyCancelWriter => FileSystemContract::Copy,
        ContractCheckId::CopyAtomicFile => FileSystemContract::Copy,
        ContractCheckId::CopyAtomicTree => FileSystemContract::Copy,
        ContractCheckId::CopyBasic => FileSystemContract::Copy,
        ContractCheckId::CopyDurableFile => FileSystemContract::Copy,
        ContractCheckId::CopyDurableTree => FileSystemContract::Copy,
        ContractCheckId::CopyFallbackOverwriteRejected => FileSystemContract::Copy,
        ContractCheckId::CopyRepeatedExecute => FileSystemContract::Copy,
        ContractCheckId::CopyServerSide => FileSystemContract::Copy,
        ContractCheckId::DeleteBasic => FileSystemContract::Delete,
        ContractCheckId::DeleteIfMatch => FileSystemContract::Delete,
        ContractCheckId::DeleteMissingOk => FileSystemContract::Delete,
        ContractCheckId::DeleteTree => FileSystemContract::Delete,
        ContractCheckId::DirectoryCreate => FileSystemContract::CreateDirectory,
        ContractCheckId::DirectoryRecursive => FileSystemContract::CreateDirectory,
        ContractCheckId::ErrorContext => FileSystemContract::ErrorContext,
        ContractCheckId::ListBasic => FileSystemContract::List,
        ContractCheckId::ListLiteralPrefix => FileSystemContract::List,
        ContractCheckId::ListPagination => FileSystemContract::List,
        ContractCheckId::ListPrefix => FileSystemContract::List,
        ContractCheckId::PropertiesCapabilityDependencies => FileSystemContract::Properties,
        ContractCheckId::PropertiesLimitComponentAdmission => FileSystemContract::Properties,
        ContractCheckId::PropertiesLimitListPage => FileSystemContract::Properties,
        ContractCheckId::PropertiesLimitPathAdmission => FileSystemContract::Properties,
        ContractCheckId::PropertiesLimits => FileSystemContract::Properties,
        ContractCheckId::PropertiesPathConstraints => FileSystemContract::Properties,
        ContractCheckId::PropertiesSnapshot => FileSystemContract::Properties,
        ContractCheckId::PropertiesSymlinkPolicy => FileSystemContract::Properties,
        ContractCheckId::ReadBasic => FileSystemContract::Read,
        ContractCheckId::ReadChecksum => FileSystemContract::Read,
        ContractCheckId::ReadChecksumCorruption => FileSystemContract::Read,
        ContractCheckId::ReadIfMatchCurrent => FileSystemContract::Read,
        ContractCheckId::ReadIfMatchStale => FileSystemContract::Read,
        ContractCheckId::ReadIfNoneMatchCurrent => FileSystemContract::Read,
        ContractCheckId::ReadIfNoneMatchStale => FileSystemContract::Read,
        ContractCheckId::ReadRange => FileSystemContract::Read,
        ContractCheckId::ReadRangeLimit => FileSystemContract::Read,
        ContractCheckId::RenameAtomic => FileSystemContract::Rename,
        ContractCheckId::RenameBasic => FileSystemContract::Rename,
        ContractCheckId::RenameConflict => FileSystemContract::Rename,
        ContractCheckId::RenameDurable => FileSystemContract::Rename,
        ContractCheckId::RepresentationEmpty => FileSystemContract::Representations,
        ContractCheckId::RepresentationSymlink => FileSystemContract::Representations,
        ContractCheckId::StatBasic => FileSystemContract::Stat,
        ContractCheckId::StatFileKind => FileSystemContract::Stat,
        ContractCheckId::TempAtomic => FileSystemContract::TempResources,
        ContractCheckId::TempDirectory => FileSystemContract::TempResources,
        ContractCheckId::TempFile => FileSystemContract::TempResources,
        ContractCheckId::TempRepeatedLifecycle => FileSystemContract::TempResources,
        ContractCheckId::WriteAtomicReplaceExisting => FileSystemContract::Write,
        ContractCheckId::WriteBasic => FileSystemContract::Write,
        ContractCheckId::WriteCreateConflict => FileSystemContract::Write,
        ContractCheckId::WriteReplace => FileSystemContract::Write,
        ContractCheckId::WriteAbort => FileSystemContract::Write,
        ContractCheckId::WriteCancelCommit => FileSystemContract::Write,
        ContractCheckId::WriteCancelFlush => FileSystemContract::Write,
        ContractCheckId::WriteCancelOpen => FileSystemContract::Write,
        ContractCheckId::WriteCancelWrite => FileSystemContract::Write,
        ContractCheckId::WriteDurable => FileSystemContract::Write,
        ContractCheckId::WriteIfAbsent => FileSystemContract::Write,
        ContractCheckId::WriteIfMatch => FileSystemContract::Write,
        ContractCheckId::WriteLimit => FileSystemContract::Write,
        ContractCheckId::WriteOwningOperation => FileSystemContract::Write,
        ContractCheckId::WriteRepeatedExecute => FileSystemContract::Write,
    }
}

/// Whether a check is an optional diagnostic probe.
pub open spec fn spec_optional(id: ContractCheckId) -> bool {
    match id {
        ContractCheckId::AsyncCopyCancelCommit => true,
        ContractCheckId::AsyncCopyCancelNativeAttempt => true,
        ContractCheckId::AsyncCopyCancelReader => true,
        ContractCheckId::AsyncCopyCancelWriter => true,
        ContractCheckId::ReadChecksumCorruption => true,
        ContractCheckId::ReadRangeLimit => true,
        ContractCheckId::WriteLimit => true,
        _ => false,
    }
}

/// Whether a check needs the asynchronous driver.
pub open spec fn spec_asynchronous_only(id: ContractCheckId) -> bool {
    match id {
        ContractCheckId::AsyncCopyCancelCommit => true,
        ContractCheckId::AsyncCopyCancelNativeAttempt => true,
        ContractCheckId::AsyncCopyCancelReader => true,
        ContractCheckId::AsyncCopyCancelWriter => true,
        ContractCheckId::WriteCancelCommit => true,
        ContractCheckId::WriteCancelFlush => true,
        ContractCheckId::WriteCancelOpen => true,
        ContractCheckId::WriteCancelWrite => true,
        ContractCheckId::WriteOwningOperation => true,
        ContractCheckId::WriteRepeatedExecute => true,
        _ => false,
    }
}

/// The capability a check exercises.
pub open spec fn spec_capability(id: ContractCheckId) -> Option<FileSystemCapability> {
    match id {
        ContractCheckId::AppendBasic => Some(FileSystemCapability::Append),
        ContractCheckId::AsyncCopyCancelCommit => Some(FileSystemCapability::Copy),
        ContractCheckId::AsyncCopyCancelNativeAttempt => Some(FileSystemCapability::Copy),
        ContractCheckId::AsyncCopyCancelReader => Some(FileSystemCapability::Copy),
        ContractCheckId::AsyncCopyCancelWriter => Some(FileSystemCapability::Copy),
        ContractCheckId::CopyAtomicFile => Some(FileSystemCapability::AtomicFileCopy),
        ContractCheckId::CopyAtomicTree => Some(FileSystemCapability::AtomicTreeCopy),
        ContractCheckId::CopyBasic => Some(FileSystemCapability::Copy),
        ContractCheckId::CopyDurableFile => Some(FileSystemCapability::DurableFileCopy),
        ContractCheckId::CopyDurableTree => Some(FileSystemCapability::DurableTreeCopy),
        ContractCheckId::CopyFallbackOverwriteRejected => Some(FileSystemCapability::Copy),
        ContractCheckId::CopyRepeatedExecute => Some(FileSystemCapability::Copy),
        ContractCheckId::CopyServerSide => Some(FileSystemCapability::ServerSideCopy),
        ContractCheckId::DeleteBasic => Some(FileSystemCapability::Delete),
        ContractCheckId::DeleteIfMatch => Some(FileSystemCapability::ConditionalDelete),
        ContractCheckId::DeleteMissingOk => Some(FileSystemCapability::Delete),
        ContractCheckId::DeleteTree => Some(FileSystemCapability::RecursiveDelete),
        ContractCheckId::DirectoryCreate => Some(FileSystemCapability::CreateDirectory),
        ContractCheckId::DirectoryRecursive => Some(FileSystemCapability::CreateDirectory),
        ContractCheckId::ErrorContext => None,
        ContractCheckId::ListBasic => Some(FileSystemCapability::List),
        ContractCheckId::ListLiteralPrefix => Some(FileSystemCapability::List),
        ContractCheckId::ListPagination => Some(FileSystemCapability::List),
        ContractCheckId::ListPrefix => Some(FileSystemCapability::List),
        ContractCheckId::PropertiesCapabilityDependencies => None,
        ContractCheckId::PropertiesLimitComponentAdmission => None,
        ContractCheckId::PropertiesLimitListPage => None,
        ContractCheckId::PropertiesLimitPathAdmission => None,
        ContractCheckId::PropertiesLimits => None,
        ContractCheckId::PropertiesPathConstraints => None,
        ContractCheckId::PropertiesSnapshot => None,
        ContractCheckId::PropertiesSymlinkPolicy => None,
        ContractCheckId::ReadBasic => Some(FileSystemCapability::Read),
        ContractCheckId::ReadChecksum => Some(FileSystemCapability::ChecksumValidation),
        ContractCheckId::ReadChecksumCorruption => Some(FileSystemCapability::ChecksumValidation),
        ContractCheckId::ReadIfMatchCurrent => Some(FileSystemCapability::ConditionalRead),
        ContractCheckId::ReadIfMatchStale => Some(FileSystemCapability::ConditionalRead),
        ContractCheckId::ReadIfNoneMatchCurrent => Some(FileSystemCapability::ConditionalRead),
        ContractCheckId::ReadIfNoneMatchStale => Some(FileSystemCapability::ConditionalRead),
        ContractCheckId::ReadRange => Some(FileSystemCapability::RangeRead),
        ContractCheckId::ReadRangeLimit => Some(FileSystemCapability::RangeRead),
        ContractCheckId::RenameAtomic => Some(FileSystemCapability::AtomicRename),
        ContractCheckId::RenameBasic => Some(FileSystemCapability::Rename),
        ContractCheckId::RenameConflict => Some(FileSystemCapability::Rename),
        ContractCheckId::RenameDurable => Some(FileSystemCapability::DurableRename),
        ContractCheckId::RepresentationEmpty => Some(FileSystemCapability::EmptyDirectory),
        ContractCheckId::RepresentationSymlink => Some(FileSystemCapability::Symlink),
        ContractCheckId::StatBasic => Some(FileSystemCapability::Read),
        ContractCheckId::StatFileKind => Some(FileSystemCapability::Read),
        ContractCheckId::TempAtomic => Some(FileSystemCapability::AtomicTempPersist),
        ContractCheckId::TempDirectory => Some(FileSystemCapability::TempDirectory),
        ContractCheckId::TempFile => Some(FileSystemCapability::TempFile),
        ContractCheckId::TempRepeatedLifecycle => None,
        ContractCheckId::WriteAtomicReplaceExisting => Some(FileSystemCapability::AtomicReplace),
        ContractCheckId::WriteBasic => Some(FileSystemCapability::Write),
        ContractCheckId::WriteCreateConflict => Some(FileSystemCapability::Write),
        ContractCheckId::WriteReplace => Some(FileSystemCapability::Write),
        ContractCheckId::WriteAbort => Some(FileSystemCapability::Write),
        ContractCheckId::WriteCancelCommit => Some(FileSystemCapability::Write),
        ContractCheckId::WriteCancelFlush => Some(FileSystemCapability::Write),
        ContractCheckId::WriteCancelOpen => Some(FileSystemCapability::Write),
        ContractCheckId::WriteCancelWrite => Some(FileSystemCapability::Write),
        ContractCheckId::WriteDurable => Some(FileSystemCapability::DurableWrite),
        ContractCheckId::WriteIfAbsent => Some(FileSystemCapability::ConditionalWrite),
        ContractCheckId::WriteIfMatch => Some(FileSystemCapability::ConditionalWrite),
        ContractCheckId::WriteLimit => Some(FileSystemCapability::Write),
        ContractCheckId::WriteOwningOperation => Some(FileSystemCapability::Write),
        ContractCheckId::WriteRepeatedExecute => Some(FileSystemCapability::Write),
    }
}

/// The complete catalog entry of a check.
pub open spec fn spec_specification(id: ContractCheckId) -> CheckSpecification {
    CheckSpecification {
        id,
        contract: spec_contract(id),
        optional: spec_optional(id),
        asynchronous_only: spec_asynchronous_only(id),
        capability: spec_capability(id),
    }
}

/// Returns the catalog entry of one check.
pub fn specification(id: ContractCheckId) -> (entry: CheckSpecification)
    ensures
        entry == spec_specification(id),
{
    let contract = match id {
        ContractCheckId::AppendBasic => FileSystemContract::Write,
        ContractCheckId::AsyncCopyCancelCommit => FileSystemContract::Copy,
        ContractCheckId::AsyncCopyCancelNativeAttempt => FileSystemContract::Copy,
        ContractCheckId::AsyncCopyCancelReader => FileSystemContract::Copy,
        ContractCheckId::AsyncCopyCancelWriter => FileSystemContract::Copy,
        ContractCheckId::CopyAtomicFile => FileSystemContract::Copy,
        ContractCheckId::CopyAtomicTree => FileSystemContract::Copy,
        ContractCheckId::CopyBasic => FileSystemContract::Copy,
        ContractCheckId::CopyDurableFile => FileSystemContract::Copy,
        ContractCheckId::CopyDurableTree => FileSystemContract::Copy,
        ContractCheckId::CopyFallbackOverwriteRejected => FileSystemContract::Copy,
        ContractCheckId::CopyRepeatedExecute => FileSystemContract::Copy,
        ContractCheckId::CopyServerSide => FileSystemContract::Copy,
        ContractCheckId::DeleteBasic => FileSystemContract::Delete,
        ContractCheckId::DeleteIfMatch => FileSystemContract::Delete,
        ContractCheckId::DeleteMissingOk => FileSystemContract::Delete,
        ContractCheckId::DeleteTree => FileSystemContract::Delete,
        ContractCheckId::DirectoryCreate => FileSystemContract::CreateDirectory,
        ContractCheckId::DirectoryRecursive => FileSystemContract::CreateDirectory,
        ContractCheckId::ErrorContext => FileSystemContract::ErrorContext,
        ContractCheckId::ListBasic => FileSystemContract::List,
        ContractCheckId::ListLiteralPrefix => FileSystemContract::List,
        ContractCheckId::ListPagination => FileSystemContract::List,
        ContractCheckId::ListPrefix => FileSystemContract::List,
        ContractCheckId::PropertiesCapabilityDependencies => FileSystemContract::Properties,
        ContractCheckId::PropertiesLimitComponentAdmission => FileSystemContract::Properties,
        ContractCheckId::PropertiesLimitListPage => FileSystemContract::Properties,
        ContractCheckId::PropertiesLimitPathAdmission => FileSystemContract::Properties,
        ContractCheckId::PropertiesLimits => FileSystemContract::Properties,
        ContractCheckId::PropertiesPathConstraints => FileSystemContract::Properties,
        ContractCheckId::PropertiesSnapshot => FileSystemContract::Properties,
        ContractCheckId::PropertiesSymlinkPolicy => FileSystemContract::Properties,
        ContractCheckId::ReadBasic => FileSystemContract::Read,
        ContractCheckId::ReadChecksum => FileSystemContract::Read,
        ContractCheckId::ReadChecksumCorruption => FileSystemContract::Read,
        ContractCheckId::ReadIfMatchCurrent => FileSystemContract::Read,
        ContractCheckId::ReadIfMatchStale => FileSystemContract::Read,
        ContractCheckId::ReadIfNoneMatchCurrent => FileSystemContract::Read,
        ContractCheckId::ReadIfNoneMatchStale => FileSystemContract::Read,
        ContractCheckId::ReadRange => FileSystemContract::Read,
        ContractCheckId::ReadRangeLimit => FileSystemContract::Read,
        ContractCheckId::RenameAtomic => FileSystemContract::Rename,
        ContractCheckId::RenameBasic => FileSystemContract::Rename,
        ContractCheckId::RenameConflict => FileSystemContract::Rename,
        ContractCheckId::RenameDurable => FileSystemContract::Rename,
        ContractCheckId::RepresentationEmpty => FileSystemContract::Representations,
        ContractCheckId::RepresentationSymlink => FileSystemContract::Representations,
        ContractCheckId::StatBasic => FileSystemContract::Stat,
        ContractCheckId::StatFileKind => FileSystemContract::Stat,
        ContractCheckId::TempAtomic => FileSystemContract::TempResources,
        ContractCheckId::TempDirectory => FileSystemContract::TempResources,
        ContractCheckId::TempFile => FileSystemContract::TempResources,
        ContractCheckId::TempRepeatedLifecycle => FileSystemContract::TempResources,
        ContractCheckId::WriteAtomicReplaceExisting => FileSystemContract::Write,
        ContractCheckId::WriteBasic => FileSystemContract::Write,
        ContractCheckId::WriteCreateConflict => FileSystemContract::Write,
        ContractCheckId::WriteReplace => FileSystemContract::Write,
        ContractCheckId::WriteAbort => FileSystemContract::Write,
        ContractCheckId::WriteCancelCommit => FileSystemContract::Write,
        ContractCheckId::WriteCancelFlush => FileSystemContract::Write,
        ContractCheckId::WriteCancelOpen => FileSystemContract::Write,
        ContractCheckId::WriteCancelWrite => FileSystemContract::Write,
        ContractCheckId::WriteDurable => FileSystemContract::Write,
        ContractCheckId::WriteIfAbsent => FileSystemContract::Write,
        ContractCheckId::WriteIfMatch => FileSystemContract::Write,
        ContractCheckId::WriteLimit => FileSystemContract::Write,
        ContractCheckId::WriteOwningOperation => FileSystemContract::Write,
        ContractCheckId::WriteRepeatedExecute => FileSystemContract::Write,
    };
    let optional = match id {
        ContractCheckId::AsyncCopyCancelCommit => true,
        ContractCheckId::AsyncCopyCancelNativeAttempt => true,
        ContractCheckId::AsyncCopyCancelReader => true,
        ContractCheckId::AsyncCopyCancelWriter => true,
        ContractCheckId::ReadChecksumCorruption => true,
        ContractCheckId::ReadRangeLimit => true,
        ContractCheckId::WriteLimit => true,
        _ => false,
    };
    let asynchronous_only = match id {
        ContractCheckId::AsyncCopyCancelCommit => true,
        ContractCheckId::AsyncCopyCancelNativeAttempt => true,
        ContractCheckId::AsyncCopyCancelReader => true,
        ContractCheckId::AsyncCopyCancelWriter => true,
        ContractCheckId::WriteCancelCommit => true,
        ContractCheckId::WriteCancelFlush => true,
        ContractCheckId::WriteCancelOpen => true,
        ContractCheckId::WriteCancelWrite => true,
        ContractCheckId::WriteOwningOperation => true,
        ContractCheckId::WriteRepeatedExecute => true,
        _ => false,
    };
    let capability = match id {
        ContractCheckId::AppendBasic => Some(FileSystemCapability::Append),
        ContractCheckId::AsyncCopyCancelCommit => Some(FileSystemCapability::Copy),
        ContractCheckId::AsyncCopyCancelNativeAttempt => Some(FileSystemCapability::Copy),
        ContractCheckId::AsyncCopyCancelReader => Some(FileSystemCapability::Copy),
        ContractCheckId::AsyncCopyCancelWriter => Some(FileSystemCapability::Copy),
        ContractCheckId::CopyAtomicFile => Some(FileSystemCapability::AtomicFileCopy),
        ContractCheckId::CopyAtomicTree => Some(FileSystemCapability::AtomicTreeCopy),
        ContractCheckId::CopyBasic => Some(FileSystemCapability::Copy),
        ContractCheckId::CopyDurableFile => Some(FileSystemCapability::DurableFileCopy),
        ContractCheckId::CopyDurableTree => Some(FileSystemCapability::DurableTreeCopy),
        ContractCheckId::CopyFallbackOverwriteRejected => Some(FileSystemCapability::Copy),
        ContractCheckId::CopyRepeatedExecute => Some(FileSystemCapability::Copy),
        ContractCheckId::CopyServerSide => Some(FileSystemCapability::ServerSideCopy),
        ContractCheckId::DeleteBasic => Some(FileSystemCapability::Delete),
        ContractCheckId::DeleteIfMatch => Some(FileSystemCapability::ConditionalDelete),
        ContractCheckId::DeleteMissingOk => Some(FileSystemCapability::Delete),
        ContractCheckId::DeleteTree => Some(FileSystemCapability::RecursiveDelete),
        ContractCheckId::DirectoryCreate => Some(FileSystemCapability::CreateDirectory),
        ContractCheckId::DirectoryRecursive => Some(FileSystemCapability::CreateDirectory),
        ContractCheckId::ErrorContext => None,
        ContractCheckId::ListBasic => Some(FileSystemCapability::List),
        ContractCheckId::ListLiteralPrefix => Some(FileSystemCapability::List),
        ContractCheckId::ListPagination => Some(FileSystemCapability::List),
        ContractCheckId::ListPrefix => Some(FileSystemCapability::List),
        ContractCheckId::PropertiesCapabilityDependencies => None,
        ContractCheckId::PropertiesLimitComponentAdmission => None,
        ContractCheckId::PropertiesLimitListPage => None,
        ContractCheckId::PropertiesLimitPathAdmission => None,
        ContractCheckId::PropertiesLimits => None,
        ContractCheckId::PropertiesPathConstraints => None,
        ContractCheckId::PropertiesSnapshot => None,
        ContractCheckId::PropertiesSymlinkPolicy => None,
        ContractCheckId::ReadBasic => Some(FileSystemCapability::Read),
        ContractCheckId::ReadChecksum => Some(FileSystemCapability::ChecksumValidation),
        ContractCheckId::ReadChecksumCorruption => Some(FileSystemCapability::ChecksumValidation),
        ContractCheckId::ReadIfMatchCurrent => Some(FileSystemCapability::ConditionalRead),
        ContractCheckId::ReadIfMatchStale => Some(FileSystemCapability::ConditionalRead),
        ContractCheckId::ReadIfNoneMatchCurrent => Some(FileSystemCapability::ConditionalRead),
        ContractCheckId::ReadIfNoneMatchStale => Some(FileSystemCapability::ConditionalRead),
        ContractCheckId::ReadRange => Some(FileSystemCapability::RangeRead),
        ContractCheckId::ReadRangeLimit => Some(FileSystemCapability::RangeRead),
        ContractCheckId::RenameAtomic => Some(FileSystemCapability::AtomicRename),
        ContractCheckId::RenameBasic => Some(FileSystemCapability::Rename),
        ContractCheckId::RenameConflict => Some(FileSystemCapability::Rename),
        ContractCheckId::RenameDurable => Some(FileSystemCapability::DurableRename),
        ContractCheckId::RepresentationEmpty => Some(FileSystemCapability::EmptyDirectory),
        ContractCheckId::RepresentationSymlink => Some(FileSystemCapability::Symlink),
        ContractCheckId::StatBasic => Some(FileSystemCapability::Read),
        ContractCheckId::StatFileKind => Some(FileSystemCapability::Read),
        ContractCheckId::TempAtomic => Some(FileSystemCapability::AtomicTempPersist),
        ContractCheckId::TempDirectory => Some(FileSystemCapability::TempDirectory),
        ContractCheckId::TempFile => Some(FileSystemCapability::TempFile),
        ContractCheckId::TempRepeatedLifecycle => None,
        ContractCheckId::WriteAtomicReplaceExisting => Some(FileSystemCapability::AtomicReplace),
        ContractCheckId::WriteBasic => Some(FileSystemCapability::Write),
        ContractCheckId::WriteCreateConflict => Some(FileSystemCapability::Write),
        ContractCheckId::WriteReplace => Some(FileSystemCapability::Write),
        ContractCheckId::WriteAbort => Some(FileSystemCapability::Write),
        ContractCheckId::WriteCancelCommit => Some(FileSystemCapability::Write),
        ContractCheckId::WriteCancelFlush => Some(FileSystemCapability::Write),
        ContractCheckId::WriteCancelOpen => Some(FileSystemCapability::Write),
        ContractCheckId::WriteCancelWrite => Some(FileSystemCapability::Write),
        ContractCheckId::WriteDurable => Some(FileSystemCapability::DurableWrite),
        ContractCheckId::WriteIfAbsent => Some(FileSystemCapability::ConditionalWrite),
        ContractCheckId::WriteIfMatch => Some(FileSystemCapability::ConditionalWrite),
        ContractCheckId::WriteLimit => Some(FileSystemCapability::Write),
        ContractCheckId::WriteOwningOperation => Some(FileSystemCapability::Write),
        ContractCheckId::WriteRepeatedExecute => Some(FileSystemCapability::Write),
    };
    CheckSpecification { id, contract, optional, asynchronous_only, capability }
}

/// Whether a phase registers a check for the given driver.
pub open spec fn registered_by(id: ContractCheckId, contract: FileSystemContract, asynchronous: bool) -> bool {
    spec_contract(id) == contract && (asynchronous || !spec_asynchronous_only(id))
}

/// The entries a phase registers, in catalog order, from a prefix of the catalog.
pub open spec fn select_entries(ids: Seq<ContractCheckId>, contract: FileSystemContract, asynchronous: bool) -> Seq<CheckSpecification>
    decreases ids.len(),
{
    if ids.len() == 0 {
        Seq::empty()
    } else {
        let rest = select_entries(ids.drop_last(), contract, asynchronous);
        if registered_by(ids.last(), contract, asynchronous) {
            rest.push(spec_specification(ids.last()))
        } else {
            rest
        }
    }
}

/// The entries a phase registers for a driver, in catalog order.
pub open spec fn spec_for_contract(contract: FileSystemContract, asynchronous: bool) -> Seq<CheckSpecification> {
    select_entries(ContractCheckId::spec_all(), contract, asynchronous)
}

/// Returns the entries one phase registers for the given driver, in catalog order.
pub fn for_contract(contract: FileSystemContract, asynchronous: bool) -> (entries: Vec<CheckSpecification>)
    ensures
        entries@ == spec_for_contract(contract, asynchronous),
{
    let ids = ContractCheckId::all();
    let mut entries: Vec<CheckSpecification> = Vec::new();
    let mut index: usize = 0;
    while index < ids.len()
        invariant
            ids@ == ContractCheckId::spec_all(),
            index <= ids.len(),
            entries@ == select_entries(ids@.take(index as int), contract, asynchronous),
        decreases ids.len() - index,
    {
        let id = ids[index];
        let entry = specification(id);
        proof {
            assert(ids@.take(index + 1).drop_last() =~= ids@.take(index as int));
        }
        if entry.contract == contract && (asynchronous || !entry.asynchronous_only) {
            entries.push(entry);
        }
        index = index + 1;
    }
    proof {
        assert(ids@.take(ids.len() as int) =~= ids@);
    }
    entries
}

} // verus!

verus! {

/// What a selection from a prefix of the catalog holds: exactly the
/// entries of the identities that the phase registers for the driver.
pub proof fn lemma_select_entries(ids: Seq<ContractCheckId>, contract: FileSystemContract, asynchronous: bool)
    ensures
        forall|k: int|
            0 <= k < select_entries(ids, contract, asynchronous).len() ==> {
                let entry = #[trigger] select_entries(ids, contract, asynchronous)[k];
                &&& entry == spec_specification(entry.id)
                &&& registered_by(entry.id, contract, asynchronous)
                &&& ids.contains(entry.id)
            },
        forall|i: int|
            0 <= i < ids.len() && registered_by(#[trigger] ids[i], contract, asynchronous) ==> select_entries(
                ids,
                contract,
                asynchronous,
            ).contains(spec_specification(ids[i])),
    decreases ids.len(),
{
    if ids.len() > 0 {
        let rest = ids.drop_last();
        lemma_select_entries(rest, contract, asynchronous);
        let selected = select_entries(ids, contract, asynchronous);
        let before = select_entries(rest, contract, asynchronous);
        assert forall|k: int| 0 <= k < selected.len() implies {
            let entry = #[trigger] selected[k];
            &&& entry == spec_specification(entry.id)
            &&& registered_by(entry.id, contract, asynchronous)
            &&& ids.contains(entry.id)
        } by {
            if k < before.len() {
                let entry = before[k];
                assert(selected[k] == entry);
                let w = choose|w: int| 0 <= w < rest.len() && rest[w] == entry.id;
                assert(ids[w] == entry.id);
            } else {
                assert(ids[ids.len() - 1] == ids.last());
            }
        }
        assert forall|i: int|
            0 <= i < ids.len() && registered_by(#[trigger] ids[i], contract, asynchronous) implies selected.contains(
            spec_specification(ids[i]),
        ) by {
            if i < rest.len() {
                assert(rest[i] == ids[i]);
                let w = choose|w: int| 0 <= w < before.len() && before[w] == spec_specification(rest[i]);
                assert(selected[w] == before[w]);
            } else {
                assert(selected[selected.len() - 1] == spec_specification(ids.last()));
            }
        }
    }
}

/// Every check is registered by exactly the phase that owns it: the owning
/// phase's asynchronous registration holds its catalog entry, and every
/// entry a phase registers belongs to that phase and suits the driver.
pub proof fn law_checks_belong_to_their_phase(id: ContractCheckId, contract: FileSystemContract, asynchronous: bool)
    ensures
        spec_for_contract(spec_contract(id), true).contains(spec_specification(id)),
        forall|k: int|
            0 <= k < spec_for_contract(contract, asynchronous).len() ==> (#[trigger] spec_for_contract(
                contract,
                asynchronous,
            )[k]).contract == contract && (asynchronous || !spec_for_contract(contract, asynchronous)[k].asynchronous_only),
{
    crate::contract_check_id::lemma_catalog_order_is_exact(id);
    lemma_select_entries(ContractCheckId::spec_all(), spec_contract(id), true);
    lemma_select_entries(ContractCheckId::spec_all(), contract, asynchronous);
    assert(registered_by(ContractCheckId::spec_all()[id.catalog_index()], spec_contract(id), true));
}

/// The synchronous driver registers a subset of what the asynchronous
/// driver registers for the same phase.
pub proof fn law_synchronous_registration_is_a_subset(contract: FileSystemContract, k: int)
    requires
        0 <= k < spec_for_contract(contract, false).len(),
    ensures
        spec_for_contract(contract, true).contains(spec_for_contract(contract, false)[k]),
{
    lemma_select_entries(ContractCheckId::spec_all(), contract, false);
    lemma_select_entries(ContractCheckId::spec_all(), contract, true);
    let entry = spec_for_contract(contract, false)[k];
    let w = choose|w: int| 0 <= w < ContractCheckId::spec_all().len() && ContractCheckId::spec_all()[w] == entry.id;
    assert(registered_by(ContractCheckId::spec_all()[w], contract, true));
}

} // verus!
