//! The states and errors shared by every client backend.
use vstd::prelude::*;

verus! {

/// The observable lifecycle state of a client.
#[derive(Clone, Copy, Debug, PartialEq, Eq, Structural)]
pub enum SecureLinkClientState {
    Running,
    Pending,
    Stopped,
}

/// Why an operation on a client failed.
///
/// `UnauthorizedError` is terminal for the current token, `NetworkError` is
/// transient, `ServiceError` comes from the OS service layer. The strings carry
/// the collaborator's own description of the failure.
#[derive(Clone, Debug, PartialEq, Eq)]
pub enum SecureLinkClientError {
    UnauthorizedError,
    ServiceError(String),
    NetworkError(String),
}

impl SecureLinkClientState {
    /// The name of the state as shown to the user.
    pub fn name(&self) -> (r: &'static str)
        ensures
            *self is Running ==> r@ == "Running"@,
            *self is Pending ==> r@ == "Pending"@,
            *self is Stopped ==> r@ == "Stopped"@,
    {
        match self {
            SecureLinkClientState::Running => "Running",
            SecureLinkClientState::Pending => "Pending",
            SecureLinkClientState::Stopped => "Stopped",
        }
    }
}

} // verus!
