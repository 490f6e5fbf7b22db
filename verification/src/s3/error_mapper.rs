use vstd::prelude::*;

use crate::fs_facts::ErrorKind;

verus! {

/// Declares the SDK's error type so that it can be carried through.
#[verifier::external_type_specification]
#[verifier::external_body]
pub struct ExStoreError(object_store::Error);

/// Declares the facade's operation tag so that it can be carried through.
#[verifier::external_type_specification]
#[verifier::external_body]
pub struct ExFsOperation(qubit_fs::error::FsOperation);

/// Declares the facade's error type so that it can be returned.
#[verifier::external_type_specification]
#[verifier::external_body]
pub struct ExFsError(qubit_fs::error::FsError);

/// The SDK error variants that the mapping distinguishes.
#[derive(Clone, Copy, Debug, PartialEq, Eq, Structural)]
pub enum StoreErrorClass {
    /// The object was not found.
    NotFound,
    /// A request precondition failed.
    Precondition,
    /// The object already exists.
    AlreadyExists,
    /// The request was not authenticated.
    Unauthenticated,
    /// Any other SDK failure.
    Other,
}

/// The facade error kinds that SDK failures map to.
#[derive(Clone, Copy, Debug, PartialEq, Eq, Structural)]
pub enum StoreFailureKind {
    /// The resource does not exist.
    NotFound,
    /// A version or existence precondition failed.
    PreconditionFailed,
    /// The resource already exists.
    AlreadyExists,
    /// Authentication failed.
    AuthenticationFailed,
    /// Any other input or output failure.
    Io,
}

/// The facade kind for an SDK error class.
pub open spec fn kind_of(class: StoreErrorClass) -> StoreFailureKind {
    match class {
        StoreErrorClass::NotFound => StoreFailureKind::NotFound,
        StoreErrorClass::Precondition => StoreFailureKind::PreconditionFailed,
        StoreErrorClass::AlreadyExists => StoreFailureKind::AlreadyExists,
        StoreErrorClass::Unauthenticated => StoreFailureKind::AuthenticationFailed,
        StoreErrorClass::Other => StoreFailureKind::Io,
    }
}

/// Returns the facade kind for an SDK error class.
pub fn failure_kind(class: StoreErrorClass) -> (kind: StoreFailureKind)
    ensures
        kind == kind_of(class),
{
    match class {
        StoreErrorClass::NotFound => StoreFailureKind::NotFound,
        StoreErrorClass::Precondition => StoreFailureKind::PreconditionFailed,
        StoreErrorClass::AlreadyExists => StoreFailureKind::AlreadyExists,
        StoreErrorClass::Unauthenticated => StoreFailureKind::AuthenticationFailed,
        StoreErrorClass::Other => StoreFailureKind::Io,
    }
}

/// The variant class of an SDK error, as `classify` reports it: a function
/// of the error's variant alone.
pub uninterp spec fn store_error_class(error: object_store::Error) -> StoreErrorClass;

/// The facade kind that `qubit_fs::error::FsError::kind` reports for an
/// error, in the library's own mirror of the kinds.
pub uninterp spec fn fs_error_kind(error: qubit_fs::error::FsError) -> ErrorKind;

/// The operation that `qubit_fs::error::FsError::operation` reports for an
/// error.
pub uninterp spec fn fs_error_operation(error: qubit_fs::error::FsError) -> qubit_fs::error::FsOperation;

/// The message a facade error was made with; `Display` prints it after the
/// operation and kind.
pub uninterp spec fn fs_error_message(error: qubit_fs::error::FsError) -> Seq<char>;

/// The SDK error that a facade error's `source()` downcasts to, when its
/// source is one.
pub uninterp spec fn fs_error_store_source(error: qubit_fs::error::FsError) -> Option<object_store::Error>;

/// The facade error kind that a store failure kind stands for.
pub open spec fn facade_kind(kind: StoreFailureKind) -> ErrorKind {
    match kind {
        StoreFailureKind::NotFound => ErrorKind::NotFound,
        StoreFailureKind::PreconditionFailed => ErrorKind::PreconditionFailed,
        StoreFailureKind::AlreadyExists => ErrorKind::AlreadyExists,
        StoreFailureKind::AuthenticationFailed => ErrorKind::AuthenticationFailed,
        StoreFailureKind::Io => ErrorKind::Io,
    }
}

/// Tells the variants of `object_store::Error` apart, one arm each
/// (`NotFound`, `Precondition`, `AlreadyExists`, `Unauthenticated`, and every
/// other variant): the class is `store_error_class` of the error.
#[verifier::external_body]
pub(crate) fn classify(error: &object_store::Error) -> (class: StoreErrorClass)
    ensures
        class == store_error_class(*error),
{
    match error {
        object_store::Error::NotFound { .. } => StoreErrorClass::NotFound,
        object_store::Error::Precondition { .. } => StoreErrorClass::Precondition,
        object_store::Error::AlreadyExists { .. } => StoreErrorClass::AlreadyExists,
        object_store::Error::Unauthenticated { .. } => StoreErrorClass::Unauthenticated,
        _ => StoreErrorClass::Other,
    }
}

/// Calls `qubit_fs::error::FsError::with_source` with the facade kind that
/// `kind` names, keeping the SDK error as the source. The constructor stores
/// the kind, operation and message it is given, which `kind()`,
/// `operation()` and `Display` then report, and boxes the SDK error as the
/// source that `source()` hands back.
#[verifier::external_body]
pub(crate) fn fs_error_with_source(
    kind: StoreFailureKind,
    operation: qubit_fs::error::FsOperation,
    message: &str,
    source: object_store::Error,
) -> (error: qubit_fs::error::FsError)
    ensures
        fs_error_kind(error) == facade_kind(kind),
        fs_error_operation(error) == operation,
        fs_error_message(error) == message@,
        fs_error_store_source(error) == Some(source),
{
    let kind = match kind {
        StoreFailureKind::NotFound => qubit_fs::error::FsErrorKind::NotFound,
        StoreFailureKind::PreconditionFailed => qubit_fs::error::FsErrorKind::PreconditionFailed,
        StoreFailureKind::AlreadyExists => qubit_fs::error::FsErrorKind::AlreadyExists,
        StoreFailureKind::AuthenticationFailed => qubit_fs::error::FsErrorKind::AuthenticationFailed,
        StoreFailureKind::Io => qubit_fs::error::FsErrorKind::Io,
    };
    qubit_fs::error::FsError::with_source(kind, operation, message, source)
}

/// The message of every facade error that `map` makes.
pub open spec fn mapped_message() -> Seq<char> {
    "S3 operation failed"@
}

/// Maps an SDK failure to a facade error for `operation`, keeping the SDK
/// error as its source: the kind follows the error's variant.
pub fn map(error: object_store::Error, operation: qubit_fs::error::FsOperation) -> (mapped: qubit_fs::error::FsError)
    ensures
        fs_error_kind(mapped) == facade_kind(kind_of(store_error_class(error))),
        fs_error_operation(mapped) == operation,
        fs_error_message(mapped) == mapped_message(),
        fs_error_store_source(mapped) == Some(error),
{
    let kind = failure_kind(classify(&error));
    fs_error_with_source(kind, operation, "S3 operation failed", error)
}

} // verus!
