use vstd::prelude::*;
use vstd::string::StringExecFns;

use crate::claims::ClaimsError;

verus! {

/// Engine construction failed; the caller must not proceed.
#[derive(Clone, Debug, PartialEq, Eq)]
pub enum ConfigError {
    /// The low-level execution engine rejected the resolved settings.
    Engine(String),
}

/// A guest module was rejected at compile time; the host keeps running.
#[derive(Clone, Debug, PartialEq, Eq)]
pub enum CompileError {
    /// The module is larger than the configured `max_component_size`.
    TooLarge,
    /// The embedded claims are missing, malformed, or wrongly signed.
    InvalidClaims(ClaimsError),
    /// Code generation failed on the (claims-valid) module bytes.
    Compilation(String),
}

/// Instantiating a compiled component into a fresh sandbox failed.
#[derive(Clone, Debug, PartialEq, Eq)]
pub enum InstantiationError {
    /// The host-call entry point could not be registered.
    Linking(String),
    /// Linking and instantiation against the store failed.
    Instantiation(String),
}

/// A host-side execution fault: the execution context must be discarded.
#[derive(Clone, Debug, PartialEq, Eq)]
pub enum HostError {
    /// A trap, deadline overrun, or resource exhaustion during a guest call.
    Fault(String),
}

/// A dispatch infrastructure error: the host could not even process the
/// capability call.  Distinct from the guest-visible application error
/// channel, which is a plain string.
#[derive(Clone, Debug, PartialEq, Eq)]
pub enum DispatchError {
    /// The operation requires a payload and none was supplied.
    MissingPayload,
    /// The payload did not decode to the shape the operation requires.
    InvalidPayload,
    /// A log level outside `debug|info|warn|error` was requested.
    UnsupportedLogLevel,
    /// The external handler reported a fatal (non-application) error.
    External(String),
}

/// Mathematical image of [`DispatchError`].
pub enum DispatchErrorView {
    MissingPayload,
    InvalidPayload,
    UnsupportedLogLevel,
    External(Seq<char>),
}

impl View for DispatchError {
    type V = DispatchErrorView;

    open spec fn view(&self) -> DispatchErrorView {
        match self {
            DispatchError::MissingPayload => DispatchErrorView::MissingPayload,
            DispatchError::InvalidPayload => DispatchErrorView::InvalidPayload,
            DispatchError::UnsupportedLogLevel => DispatchErrorView::UnsupportedLogLevel,
            DispatchError::External(s) => DispatchErrorView::External(s@),
        }
    }
}

impl DispatchError {
    /// A human-readable description of the infrastructure failure.
    pub fn message(&self) -> (r: String)
        ensures
            self matches DispatchError::MissingPayload ==> r@ == "payload cannot be empty"@,
            self matches DispatchError::InvalidPayload ==> r@ == "failed to deserialize payload"@,
            self matches DispatchError::UnsupportedLogLevel ==> r@
                == "log level is not supported"@,
            self matches DispatchError::External(s) ==> r@ == s@,
    {
        match self {
            DispatchError::MissingPayload => String::from_str("payload cannot be empty"),
            DispatchError::InvalidPayload => String::from_str("failed to deserialize payload"),
            DispatchError::UnsupportedLogLevel => String::from_str("log level is not supported"),
            DispatchError::External(s) => s.clone(),
        }
    }
}

} // verus!
