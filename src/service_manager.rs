//! What the OS service manager reports, and how it maps onto client states
//! and errors. The calls themselves are made by the caller.
use vstd::prelude::*;

use crate::secure_link_client::{SecureLinkClientError, SecureLinkClientState};

verus! {

/// The state of the OS service, as the service manager reports it.
#[derive(Clone, Copy, Debug, PartialEq, Eq, Structural)]
pub enum ServiceState {
    Stopped,
    StartPending,
    StopPending,
    Running,
    ContinuePending,
    PausePending,
    Paused,
}

/// How the service manager's "start service" call failed.
#[derive(Clone, Debug, PartialEq, Eq)]
pub enum ServiceStartError {
    /// The service rejected the token.
    Unauthorized,
    /// The service could not reach the server.
    Network(String),
    /// Any other failure of the service layer.
    Other(String),
}

/// Everything the service manager's "start service" call is given.
pub struct ServiceStartRequest {
    pub server_host: String,
    pub server_port: u16,
    pub auth_token: String,
    pub service_log_file_path: String,
}

/// The client state a service state stands for. States in transition other
/// than a start are reported as pending, never as stopped.
pub open spec fn client_state_of(s: ServiceState) -> SecureLinkClientState {
    match s {
        ServiceState::Running => SecureLinkClientState::Running,
        ServiceState::StartPending => SecureLinkClientState::Pending,
        ServiceState::Stopped => SecureLinkClientState::Stopped,
        _ => SecureLinkClientState::Pending,
    }
}

/// The client error a failed service start is reported as.
pub open spec fn start_error(e: ServiceStartError) -> SecureLinkClientError {
    match e {
        ServiceStartError::Unauthorized => SecureLinkClientError::UnauthorizedError,
        ServiceStartError::Network(m) => SecureLinkClientError::NetworkError(m),
        ServiceStartError::Other(m) => SecureLinkClientError::ServiceError(m),
    }
}

/// The outcome of a "start service" call in the client's terms.
pub open spec fn start_outcome(result: Result<(), ServiceStartError>) -> Result<(), SecureLinkClientError> {
    match result {
        Ok(()) => Ok(()),
        Err(e) => Err(start_error(e)),
    }
}

/// The outcome of a "stop service" call in the client's terms: any failure is
/// a service error.
pub open spec fn stop_outcome(result: Result<(), String>) -> Result<(), SecureLinkClientError> {
    match result {
        Ok(()) => Ok(()),
        Err(m) => Err(SecureLinkClientError::ServiceError(m)),
    }
}

/// The outcome of a "query state" call in the client's terms.
pub open spec fn query_outcome(result: Result<ServiceState, String>) -> Result<
    SecureLinkClientState,
    SecureLinkClientError,
> {
    match result {
        Ok(s) => Ok(client_state_of(s)),
        Err(m) => Err(SecureLinkClientError::ServiceError(m)),
    }
}

/// Maps a service state onto a client state.
pub fn map_service_state(s: ServiceState) -> (r: SecureLinkClientState)
    ensures
        r == client_state_of(s),
{
    match s {
        ServiceState::Running => SecureLinkClientState::Running,
        ServiceState::StartPending => SecureLinkClientState::Pending,
        ServiceState::Stopped => SecureLinkClientState::Stopped,
        _ => SecureLinkClientState::Pending,
    }
}

/// Maps the outcome of a "start service" call, error variant by variant.
pub fn map_start_result(result: Result<(), ServiceStartError>) -> (r: Result<(), SecureLinkClientError>)
    ensures
        r == start_outcome(result),
{
    match result {
        Ok(()) => Ok(()),
        Err(ServiceStartError::Unauthorized) => Err(SecureLinkClientError::UnauthorizedError),
        Err(ServiceStartError::Network(m)) => Err(SecureLinkClientError::NetworkError(m)),
        Err(ServiceStartError::Other(m)) => Err(SecureLinkClientError::ServiceError(m)),
    }
}

/// Maps the outcome of a "stop service" call.
pub fn map_stop_result(result: Result<(), String>) -> (r: Result<(), SecureLinkClientError>)
    ensures
        r == stop_outcome(result),
{
    match result {
        Ok(()) => Ok(()),
        Err(m) => Err(SecureLinkClientError::ServiceError(m)),
    }
}

/// Maps the outcome of a "query state" call.
pub fn map_query_result(result: Result<ServiceState, String>) -> (r: Result<
    SecureLinkClientState,
    SecureLinkClientError,
>)
    ensures
        r == query_outcome(result),
{
    match result {
        Ok(s) => Ok(map_service_state(s)),
        Err(m) => Err(SecureLinkClientError::ServiceError(m)),
    }
}

} // verus!
