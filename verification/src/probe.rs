//! What one health check of the service's endpoint came back with.

use vstd::prelude::*;

verus! {

/// The result of one `GET` on the service's endpoint.
#[derive(Clone, Copy, Debug, PartialEq, Eq, Structural)]
pub enum ProbeOutcome {
    /// No response arrived: the connection was refused, reset or timed out.
    Unreachable,
    /// A response arrived with this status code.
    Status(u16),
}

impl ProbeOutcome {
    /// A probe succeeds exactly when a response arrived whose status code is
    /// in the success class, 200 to 299.
    pub open spec fn is_success(self) -> bool {
        match self {
            ProbeOutcome::Unreachable => false,
            ProbeOutcome::Status(code) => 200 <= code < 300,
        }
    }

    /// Whether this outcome declares the service ready.
    pub fn succeeded(&self) -> (r: bool)
        ensures
            r == self.is_success(),
    {
        match self {
            ProbeOutcome::Unreachable => false,
            ProbeOutcome::Status(code) => status_in_success_class(*code),
        }
    }
}

/// Classifies a status code with `reqwest::StatusCode::from_u16` followed by
/// `StatusCode::is_success`. The former accepts exactly the codes 100 to
/// 999, the latter holds exactly of 200 to 299; a code that is no status
/// code at all is no success.
#[verifier::external_body]
fn status_in_success_class(code: u16) -> (r: bool)
    ensures
        r == (200 <= code < 300),
{
    match reqwest::StatusCode::from_u16(code) {
        Ok(status) => status.is_success(),
        Err(_) => false,
    }
}

} // verus!
