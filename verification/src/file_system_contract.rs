use vstd::prelude::*;

verus! {

/// One independently executable phase of the provider contract.
#[derive(Clone, Copy, Debug, PartialEq, Eq, Hash, PartialOrd, Ord, Structural)]
pub enum FileSystemContract {
    /// Immutable property snapshots and bounded admission.
    Properties,
    /// Metadata of missing and existing resources.
    Stat,
    /// Whole, ranged, conditional and checksummed reads.
    Read,
    /// Publication, conflicts, limits, ownership and cancellation of writes.
    Write,
    /// Listing of directories and prefixes.
    List,
    /// Directory creation.
    CreateDirectory,
    /// Empty-directory and symlink representations.
    Representations,
    /// Deletion of files, missing paths, versions and trees.
    Delete,
    /// Copy publication, conflicts and cancellation.
    Copy,
    /// Rename publication and conflicts.
    Rename,
    /// Temporary file and directory lifecycles.
    TempResources,
    /// Structured error context.
    ErrorContext,
}

impl FileSystemContract {
    /// Every phase, in execution order.
    pub open spec fn spec_all() -> Seq<FileSystemContract> {
        seq![
            FileSystemContract::Properties,
            FileSystemContract::Stat,
            FileSystemContract::Read,
            FileSystemContract::Write,
            FileSystemContract::List,
            FileSystemContract::CreateDirectory,
            FileSystemContract::Representations,
            FileSystemContract::Delete,
            FileSystemContract::Copy,
            FileSystemContract::Rename,
            FileSystemContract::TempResources,
            FileSystemContract::ErrorContext,
        ]
    }

    /// Returns every phase in the order a full run executes them.
    pub fn all() -> (phases: Vec<FileSystemContract>)
        ensures
            phases@ == Self::spec_all(),
    {
        vec![
            FileSystemContract::Properties,
            FileSystemContract::Stat,
            FileSystemContract::Read,
            FileSystemContract::Write,
            FileSystemContract::List,
            FileSystemContract::CreateDirectory,
            FileSystemContract::Representations,
            FileSystemContract::Delete,
            FileSystemContract::Copy,
            FileSystemContract::Rename,
            FileSystemContract::TempResources,
            FileSystemContract::ErrorContext,
        ]
    }
}

} // verus!
