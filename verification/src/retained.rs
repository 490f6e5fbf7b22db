//! Opaque holders for type-erased provider errors and panic payloads.
//!
//! Verus accepts no trait object (`dyn Error`, `dyn Any + Send`) in a
//! verified signature, so each erased value lives in one of these holders and
//! leaves it only through a generic, typed downcast.
use vstd::prelude::*;

verus! {

/// One original error whose concrete type is erased; it may own a recovery
/// handle that is `Send` but not `Sync`.
///
/// Trusted: the field is a trait object that Verus cannot represent.
#[verifier::external_body]
pub struct ErasedError {
    error: Box<dyn std::error::Error + Send>,
}

/// One original error whose concrete type is erased and that can be shared
/// between threads.
///
/// Trusted: the field is a trait object that Verus cannot represent.
#[verifier::external_body]
pub struct SharedError {
    error: Box<dyn std::error::Error + Send + Sync>,
}

/// The payload of a caught panic, with its concrete type erased.
///
/// Trusted: the field is a trait object that Verus cannot represent.
#[verifier::external_body]
pub struct PanicPayload {
    payload: Box<dyn std::any::Any + Send>,
}

/// An erased error behind a lock, so that a shared reference can take it
/// and put it back.
///
/// Trusted: the field is a lock that Verus cannot represent.
#[verifier::external_body]
pub struct ErrorSlot {
    error: std::sync::Mutex<Option<ErasedError>>,
}

/// A panic payload behind a lock, so that a shared reference can take it.
///
/// Trusted: the field is a lock that Verus cannot represent.
#[verifier::external_body]
pub struct PanicSlot {
    payload: std::sync::Mutex<Option<PanicPayload>>,
}

impl ErasedError {
    /// Erases the type of `error` (`Box::new`).
    #[verifier::external_body]
    pub fn new<E: std::error::Error + Send + 'static>(error: E) -> ErasedError {
        ErasedError { error: Box::new(error) }
    }

    /// Recovers the error when its concrete type is `E`, and gives the holder
    /// back otherwise (`Box::downcast` on `dyn Error + Send`).
    #[verifier::external_body]
    pub fn downcast<E: std::error::Error + 'static>(self) -> Result<E, ErasedError> {
        match self.error.downcast::<E>() {
            Ok(error) => Ok(*error),
            Err(error) => Err(ErasedError { error }),
        }
    }

    /// Borrows the error when its concrete type is `E`
    /// (`<dyn Error>::downcast_ref`).
    #[verifier::external_body]
    pub fn downcast_ref<E: std::error::Error + 'static>(&self) -> Option<&E> {
        self.error.downcast_ref::<E>()
    }
}

impl SharedError {
    /// Erases the type of `error` (`Box::new`).
    #[verifier::external_body]
    pub fn new<E: std::error::Error + Send + Sync + 'static>(error: E) -> SharedError {
        SharedError { error: Box::new(error) }
    }

    /// Borrows the error when its concrete type is `E`
    /// (`<dyn Error>::downcast_ref`).
    #[verifier::external_body]
    pub fn downcast_ref<E: std::error::Error + 'static>(&self) -> Option<&E> {
        self.error.downcast_ref::<E>()
    }
}

impl PanicPayload {
    /// Erases the type of a panic payload (`Box::new`). A payload that is
    /// already an erased `Box<dyn Any + Send>`, as `catch_unwind` hands one
    /// out, is kept as it is rather than boxed a second time
    /// (`Box::downcast`).
    #[verifier::external_body]
    pub fn new<P: Send + 'static>(payload: P) -> PanicPayload {
        let boxed: Box<dyn std::any::Any + Send> = Box::new(payload);
        match boxed.downcast::<Box<dyn std::any::Any + Send>>() {
            Ok(inner) => PanicPayload { payload: *inner },
            Err(boxed) => PanicPayload { payload: boxed },
        }
    }

    /// Borrows the payload when its concrete type is `P`
    /// (`<dyn Any>::downcast_ref`).
    #[verifier::external_body]
    pub fn downcast_ref<P: 'static>(&self) -> Option<&P> {
        self.payload.downcast_ref::<P>()
    }

    /// Recovers the payload when its concrete type is `P`, and gives the
    /// holder back otherwise (`Box::downcast` on `dyn Any + Send`).
    #[verifier::external_body]
    pub fn downcast<P: 'static>(self) -> Result<P, PanicPayload> {
        match self.payload.downcast::<P>() {
            Ok(payload) => Ok(*payload),
            Err(payload) => Err(PanicPayload { payload }),
        }
    }
}

impl ErrorSlot {
    /// Puts an error behind a lock (`Mutex::new`).
    #[verifier::external_body]
    pub fn new(error: ErasedError) -> ErrorSlot {
        ErrorSlot { error: std::sync::Mutex::new(Some(error)) }
    }

    /// Puts an error back behind the lock, replacing what the lock holds
    /// (`Mutex::lock`).
    #[verifier::external_body]
    pub fn restore(&self, error: ErasedError) {
        *self.error.lock().unwrap_or_else(|poison| poison.into_inner()) = Some(error);
    }

    /// Takes the error out of the lock; later calls get `None`
    /// (`Mutex::lock`).
    #[verifier::external_body]
    pub fn take(&self) -> Option<ErasedError> {
        self.error.lock().unwrap_or_else(|poison| poison.into_inner()).take()
    }
}

impl PanicSlot {
    /// Puts a payload behind a lock (`Mutex::new`).
    #[verifier::external_body]
    pub fn holding(payload: PanicPayload) -> PanicSlot {
        PanicSlot { payload: std::sync::Mutex::new(Some(payload)) }
    }

    /// Takes the payload out of the lock; later calls get `None`
    /// (`Mutex::lock`).
    #[verifier::external_body]
    pub fn take(&self) -> Option<PanicPayload> {
        self.payload.lock().unwrap_or_else(|poison| poison.into_inner()).take()
    }
}

} // verus!
