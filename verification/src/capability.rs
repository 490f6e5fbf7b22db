use vstd::prelude::*;

verus! {

/// A provider capability that a contract check may depend on.
///
/// Mirrors the capability set advertised by provider property snapshots, so
/// that check identities and reports carry it as a plain value.
#[derive(Clone, Copy, Debug, PartialEq, Eq, Hash, Structural)]
pub enum FileSystemCapability {
    /// Directory or prefix listing.
    List,
    /// Sequential byte reads.
    Read,
    /// Byte-range reads.
    RangeRead,
    /// Reads conditioned on a resource version.
    ConditionalRead,
    /// Checksum validation of read bytes.
    ChecksumValidation,
    /// File or object writes.
    Write,
    /// Appending writes.
    Append,
    /// Writes conditioned on absence or a resource version.
    ConditionalWrite,
    /// Directory creation.
    CreateDirectory,
    /// A native representation of empty directories.
    EmptyDirectory,
    /// Resource deletion.
    Delete,
    /// Recursive deletion of a directory or prefix.
    RecursiveDelete,
    /// Deletion conditioned on a resource version.
    ConditionalDelete,
    /// Rename or move.
    Rename,
    /// Atomic rename.
    AtomicRename,
    /// Atomic publication over an existing resource.
    AtomicReplace,
    /// Application-visible copy.
    Copy,
    /// Copy without transferring payload bytes through the client.
    ServerSideCopy,
    /// Symbolic links.
    Symlink,
    /// Temporary files.
    TempFile,
    /// Temporary directories.
    TempDirectory,
    /// Atomic persistence of a temporary resource.
    AtomicTempPersist,
    /// Atomic publication of a copied file.
    AtomicFileCopy,
    /// Atomic publication of a copied tree.
    AtomicTreeCopy,
    /// Durable publication of a copied file.
    DurableFileCopy,
    /// Durable publication of a copied tree.
    DurableTreeCopy,
    /// Durable publication of a rename.
    DurableRename,
    /// Durable publication of a write session.
    DurableWrite,
}

} // verus!
