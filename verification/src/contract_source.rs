use vstd::prelude::*;

use crate::retained::ErasedError;
use crate::retained::ErrorSlot;

verus! {

/// Preserves a complete original error, possibly owning a recovery handle
/// that is `Send` but not `Sync`, while keeping reports `Send + Sync`.
///
/// Inspection and ownership transfer are serialized; formatting never
/// invokes provider code. Taking the source transfers recovery
/// responsibility to the caller; otherwise dropping the run drops it.
pub struct ContractSource {
    error: ErrorSlot,
}

impl ContractSource {
    /// Inspects the original error while it remains owned by the run.
    ///
    /// Returns `None` after a caller has taken ownership of the source; a
    /// value that comes back is what `inspect` returned on the held error.
    /// The error is taken out for the call and put back after it, so no lock
    /// is held while `inspect` runs: an `inspect` that reaches this source
    /// again sees it as taken, and a concurrent `take` during the call gets
    /// `None`.
    pub fn inspect<T, F: FnOnce(&ErasedError) -> T>(&self, inspect: F) -> (result: Option<T>)
        requires
            forall|error: &ErasedError| inspect.requires((error,)),
        ensures
            result matches Some(value) ==> exists|error: ErasedError| inspect.ensures((&error,), value),
    {
        match self.error.take() {
            Some(error) => {
                let value = inspect(&error);
                let ghost held = error;
                self.error.restore(error);
                let result = Some(value);
                assert(inspect.ensures((&held,), result->0));
                result
            },
            None => None,
        }
    }

    /// Transfers the original error and any recovery handle to the caller.
    ///
    /// Returns `None` when another caller already took it.
    pub fn take(&self) -> Option<ErasedError> {
        self.error.take()
    }

    /// Retains an original typed error without formatting provider internals.
    pub fn new<E: std::error::Error + Send + 'static>(error: E) -> ContractSource {
        ContractSource { error: ErrorSlot::new(ErasedError::new(error)) }
    }

    /// The fixed text shown in place of the retained error.
    pub fn to_display_string(&self) -> (text: String)
        ensures
            text@ == "original provider failure; inspect the retained source for recovery"@,
    {
        String::from_str("original provider failure; inspect the retained source for recovery")
    }
}

} // verus!
