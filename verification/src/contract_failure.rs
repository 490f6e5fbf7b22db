use vstd::prelude::*;

use crate::contract_check_id::ContractCheckId;
use crate::contract_source::ContractSource;
use crate::retained::PanicPayload;
use crate::retained::PanicSlot;
use crate::retained::SharedError;

verus! {

/// The abstract content of a failure: its attribution and safe message.
pub struct FailureView {
    /// The check the failure is attributed to, when execution knew it.
    pub check: Option<ContractCheckId>,
    /// The safe diagnostic context.
    pub message: Seq<char>,
}

/// The message of a failure built from a caught panic.
pub open spec fn panic_message(context: Seq<char>, detail: Option<Seq<char>>) -> Seq<char> {
    match detail {
        Some(detail) => context + ": "@ + detail,
        None => context + ": non-string panic payload retained"@,
    }
}

/// Renders the message of a failure built from a caught panic, given the
/// payload's text when it has one.
pub fn panic_text(context: &str, detail: Option<&str>) -> (message: String)
    ensures
        message@ == panic_message(
            context@,
            match detail {
                Some(text) => Some(text@),
                None => None,
            },
        ),
{
    let mut message = String::from_str(context);
    match detail {
        Some(text) => {
            message.append(": ");
            message.append(text);
        },
        None => message.append(": non-string panic payload retained"),
    }
    message
}

/// How a failure prints: its check name and a colon when attributed, then
/// its message.
pub open spec fn failure_text(failure: FailureView) -> Seq<char> {
    match failure.check {
        Some(check) => check.stable_name() + ": "@ + failure.message,
        None => failure.message,
    }
}

/// A failure with safe context and its original typed cause.
///
/// Formatting never invokes the provider's arbitrary `Debug` implementation.
/// A panic payload remains available for explicit caller inspection.
pub struct ContractFailure {
    check: Option<ContractCheckId>,
    message: String,
    source: Option<SharedError>,
    owned: Option<ContractSource>,
    panic: Option<PanicSlot>,
}

impl View for ContractFailure {
    type V = FailureView;

    closed spec fn view(&self) -> FailureView {
        FailureView { check: self.check, message: self.message@ }
    }
}

impl ContractFailure {
    /// The typed source the failure shares, when it has one.
    pub closed spec fn shared_source(&self) -> Option<SharedError> {
        self.source
    }

    /// The owned source the failure retains, when it has one.
    pub closed spec fn retained_source(&self) -> Option<ContractSource> {
        self.owned
    }

    /// Whether the failure was built from a caught panic and so holds a slot
    /// for its payload.
    pub closed spec fn retains_panic(&self) -> bool {
        self.panic is Some
    }

    /// Returns the check identity when execution could attribute the failure.
    pub fn check(&self) -> (check: Option<ContractCheckId>)
        ensures
            check == self@.check,
    {
        self.check
    }

    /// Returns the diagnostic context without formatting its underlying cause.
    pub fn message(&self) -> (message: &str)
        ensures
            message@ == self@.message,
    {
        self.message.as_str()
    }

    /// Takes the original panic payload, preserving its concrete type.
    ///
    /// Returns `None` when the failure was not a panic or another caller
    /// already took its payload. Taking the payload does not remove the
    /// failure from the run's history.
    pub fn take_panic_payload(&self) -> (payload: Option<PanicPayload>)
        ensures
            !self.retains_panic() ==> payload is None,
    {
        match &self.panic {
            Some(slot) => slot.take(),
            None => None,
        }
    }

    /// Returns the retained typed source, when the failure has one.
    pub fn source(&self) -> (source: Option<&SharedError>)
        ensures
            match source {
                Some(shared) => self.shared_source() == Some(*shared),
                None => self.shared_source() is None,
            },
    {
        self.source.as_ref()
    }

    /// Returns the retained owned source, when the failure has one.
    pub fn owned_source(&self) -> (source: Option<&ContractSource>)
        ensures
            match source {
                Some(owned) => self.retained_source() == Some(*owned),
                None => self.retained_source() is None,
            },
    {
        self.owned.as_ref()
    }

    /// Attributes a preserved failure to its typed execution entry.
    pub fn at(self, check: ContractCheckId) -> (failure: ContractFailure)
        ensures
            failure@ == (FailureView { check: Some(check), message: self@.message }),
            failure.shared_source() == self.shared_source(),
            failure.retained_source() == self.retained_source(),
            failure.retains_panic() == self.retains_panic(),
    {
        ContractFailure {
            check: Some(check),
            message: self.message,
            source: self.source,
            owned: self.owned,
            panic: self.panic,
        }
    }

    /// Constructs a failure without an underlying provider cause.
    pub fn message_only(message: String) -> (failure: ContractFailure)
        ensures
            failure@ == (FailureView { check: None, message: message@ }),
            failure.shared_source() is None,
            failure.retained_source() is None,
            !failure.retains_panic(),
    {
        ContractFailure { check: None, message, source: None, owned: None, panic: None }
    }

    /// Retains the typed source separately from safe diagnostic context.
    pub fn with_source<E: std::error::Error + Send + Sync + 'static>(message: String, source: E) -> (failure:
        ContractFailure)
        ensures
            failure@ == (FailureView { check: None, message: message@ }),
            failure.shared_source() is Some,
            failure.retained_source() is None,
            !failure.retains_panic(),
    {
        ContractFailure {
            check: None,
            message,
            source: Some(SharedError::new(source)),
            owned: None,
            panic: None,
        }
    }

    /// Retains errors that own a non-`Sync` recovery handle without
    /// discarding it.
    ///
    /// The error is kept in a `ContractSource`, which `owned_source`
    /// returns; `ContractSource` does not implement `std::error::Error`, so
    /// it is not also offered through `source`.
    pub fn with_owned_source<E: std::error::Error + Send + 'static>(message: String, source: E) -> (failure:
        ContractFailure)
        ensures
            failure@ == (FailureView { check: None, message: message@ }),
            failure.shared_source() is None,
            failure.retained_source() is Some,
            !failure.retains_panic(),
    {
        ContractFailure {
            check: None,
            message,
            source: None,
            owned: Some(ContractSource::new(source)),
            panic: None,
        }
    }

    /// Preserves an unexpected panic at the external execution boundary.
    ///
    /// The message is `context` and the payload's text when the payload is a
    /// `String` or a `&'static str`, as a panic carries its message, and
    /// notes a retained non-string payload otherwise; the payload itself is
    /// retained for explicit inspection. A payload that `catch_unwind` handed
    /// out as `Box<dyn Any + Send>` is retained as that box's content.
    pub fn panicked<P: Send + 'static>(context: &str, payload: P) -> (failure: ContractFailure)
        ensures
            exists|detail: Option<Seq<char>>|
                failure@ == (FailureView { check: None, message: #[trigger] panic_message(context@, detail) }),
            failure.shared_source() is None,
            failure.retained_source() is None,
            failure.retains_panic(),
    {
        let held = PanicPayload::new(payload);
        let message = match held.downcast_ref::<String>() {
            Some(text) => panic_text(context, Some(text.as_str())),
            None => match held.downcast_ref::<&'static str>() {
                Some(text) => panic_text(context, Some(*text)),
                None => panic_text(context, None),
            },
        };
        ContractFailure {
            check: None,
            message,
            source: None,
            owned: None,
            panic: Some(PanicSlot::holding(held)),
        }
    }

    /// Renders the failure as its check name and message, never its cause.
    pub fn to_display_string(&self) -> (text: String)
        ensures
            text@ == failure_text(self@),
    {
        match self.check {
            Some(check) => {
                let mut text = String::from_str(check.as_str());
                text.append(": ");
                text.append(self.message.as_str());
                text
            },
            None => self.message.clone(),
        }
    }
}

} // verus!
