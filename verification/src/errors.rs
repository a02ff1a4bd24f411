//! Failure taxonomy of the facade.

use vstd::prelude::*;

verus! {

/// Every way a session operation can fail.
///
/// - `UsageError`: the caller violated the construction contract (the session
///   handle must be obtained through the asynchronous factory, never through
///   the plain constructor). Fatal to the call, not to the process.
/// - `ConnectionFailure`: the voice engine could not complete the handshake;
///   carries the engine's diagnostic text. Never retried automatically.
/// - `ActivationFailure`: the source provider could not turn a source
///   description into a playable input; carries the provider's diagnostic.
///   Raised before the session is touched, so session state is unaffected.
#[derive(Debug, Clone)]
pub enum SessionError {
    UsageError,
    ConnectionFailure(String),
    ActivationFailure(String),
}

impl SessionError {
    /// True exactly on the construction-contract violation.
    pub fn is_usage_error(&self) -> (r: bool)
        ensures
            r == (self is UsageError),
    {
        match self {
            SessionError::UsageError => true,
            _ => false,
        }
    }
}

} // verus!
