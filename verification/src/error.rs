//! The error taxonomy of the protocol.
//!
//! Expected irregular conditions (no controller yet, stale script URL, a
//! worker that is not yet activated or already redundant) are not errors:
//! they are recovered from by a page reload.  Only the two genuinely fatal
//! conditions below surface as errors; anything the browser itself reports
//! is propagated unmodified by the driver and never reaches this type.

use vstd::prelude::*;

verus! {

/// A fatal condition of the lifecycle protocol.
#[derive(Clone, Copy, Debug, PartialEq, Eq, Structural)]
pub enum Error {
    /// The worker-side initialization ran outside a worker global scope.
    NotInServiceWorker,
    /// Registration succeeded but no worker handle could be obtained, either
    /// right after registering or after the retrieval retries were exhausted.
    RegistrationInvalid,
}

impl Error {
    /// A human-readable description of the condition.
    pub fn message(&self) -> (r: &'static str)
        ensures
            *self == Error::NotInServiceWorker ==> r@ == "not in a service worker"@,
            *self == Error::RegistrationInvalid ==> r@ == "Service worker registration is not valid"@,
    {
        match self {
            Error::NotInServiceWorker => "not in a service worker",
            Error::RegistrationInvalid => "Service worker registration is not valid",
        }
    }
}

} // verus!
