use vstd::prelude::*;

use crate::retained::ErasedError;

verus! {

/// A failed temporary lifecycle operation whose resource remains available
/// for recovery.
///
/// `T` is the temporary resource. Taking the parts transfers recovery
/// responsibility to the caller. Formatting does not inspect the resource or
/// invoke the provider's error formatter.
pub struct ContractTempFailure<T> {
    error: ErasedError,
    resource: T,
}

impl<T> ContractTempFailure<T> {
    /// The retained resource.
    pub closed spec fn retained(&self) -> T {
        self.resource
    }

    /// The retained original error.
    pub closed spec fn retained_error(&self) -> ErasedError {
        self.error
    }

    /// Returns the original error for typed inspection.
    pub fn error(&self) -> (error: &ErasedError)
        ensures
            *error == self.retained_error(),
    {
        &self.error
    }

    /// Borrows the retained resource for lifecycle inspection.
    pub fn resource(&self) -> (resource: &T)
        ensures
            *resource == self.retained(),
    {
        &self.resource
    }

    /// Borrows the retained resource for explicit recovery or cleanup.
    pub fn resource_mut(&mut self) -> (resource: &mut T)
        ensures
            *resource == old(self).retained(),
            final(self).retained() == *final(resource),
    {
        &mut self.resource
    }

    /// Transfers both the original error and its resource to the caller.
    pub fn into_parts(self) -> (parts: (ErasedError, T))
        ensures
            parts.0 == self.retained_error(),
            parts.1 == self.retained(),
    {
        (self.error, self.resource)
    }

    /// Retains a temporary resource failure before its resource can leave
    /// scope.
    pub fn new<E: std::error::Error + Send + 'static>(error: E, resource: T) -> (failure: ContractTempFailure<T>)
        ensures
            failure.retained() == resource,
    {
        ContractTempFailure { error: ErasedError::new(error), resource }
    }

    /// The fixed text shown in place of the retained error and resource.
    pub fn to_display_string(&self) -> (text: String)
        ensures
            text@ == "temporary lifecycle failed; original error and recovery resource retained"@,
    {
        String::from_str("temporary lifecycle failed; original error and recovery resource retained")
    }
}

} // verus!
