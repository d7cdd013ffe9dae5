//! The service-backed client without a status cache: every status request
//! goes to the OS service manager.
//!
//! The client keeps the last state it knows the service to be in: pending
//! from a start request until the start ends, running after a successful
//! start, stopped after a failed one or a stop, and otherwise what the last
//! status query said. A start while that state is pending or running makes no
//! new start request, as for any other client.
use vstd::prelude::*;

use crate::secure_link_client::{SecureLinkClientError, SecureLinkClientState};
use crate::service_manager::{
    map_query_result, map_start_result, map_stop_result, query_outcome, start_outcome,
    stop_outcome, ServiceStartError, ServiceStartRequest, ServiceState,
};

verus! {

/// The abstract state of a service-backed client: what it hands to the
/// service manager, and the state it last knew the service to be in.
pub struct ServiceClientView {
    pub server_host: Seq<char>,
    pub server_port: u16,
    pub auth_token: Seq<char>,
    pub service_log_file_path: Seq<char>,
    pub state: SecureLinkClientState,
}

/// Whether `req` is exactly the start request built from `v`.
pub open spec fn is_start_request(req: ServiceStartRequest, v: ServiceClientView) -> bool {
    &&& req.server_host@ == v.server_host
    &&& req.server_port == v.server_port
    &&& req.auth_token@ == v.auth_token
    &&& req.service_log_file_path@ == v.service_log_file_path
}

impl ServiceClientView {
    /// The same client in another known state.
    pub open spec fn with_state(self, state: SecureLinkClientState) -> Self {
        ServiceClientView { state, ..self }
    }

    /// After `start`: a stopped client becomes pending; a pending or running
    /// one is left as it is.
    pub open spec fn started(self) -> Self {
        if self.state is Stopped {
            self.with_state(SecureLinkClientState::Pending)
        } else {
            self
        }
    }

    /// After the start ended, successfully or not.
    pub open spec fn start_ended(self, succeeded: bool) -> Self {
        self.with_state(
            if succeeded {
                SecureLinkClientState::Running
            } else {
                SecureLinkClientState::Stopped
            },
        )
    }

    /// After a status query answered `s`: adopted, unless a start is under
    /// way, whose own end decides.
    pub open spec fn observed(self, s: SecureLinkClientState) -> Self {
        if self.state is Pending {
            self
        } else {
            self.with_state(s)
        }
    }

    /// After a query came back with `result`: a failure teaches nothing.
    pub open spec fn queried(self, result: Result<SecureLinkClientState, SecureLinkClientError>) -> Self {
        match result {
            Ok(s) => self.observed(s),
            Err(_) => self,
        }
    }
}

/// A client that delegates start, stop and status to the OS service manager.
pub struct SecureLinkWindowsServiceClient {
    secure_link_server_host: String,
    secure_link_server_port: u16,
    auth_token: String,
    service_log_file_path: String,
    known_state: SecureLinkClientState,
}

impl View for SecureLinkWindowsServiceClient {
    type V = ServiceClientView;

    closed spec fn view(&self) -> ServiceClientView {
        ServiceClientView {
            server_host: self.secure_link_server_host@,
            server_port: self.secure_link_server_port,
            auth_token: self.auth_token@,
            service_log_file_path: self.service_log_file_path@,
            state: self.known_state,
        }
    }
}

impl SecureLinkWindowsServiceClient {
    /// A client that knows the service as stopped.
    pub fn new(
        secure_link_server_host: &str,
        secure_link_server_port: u16,
        auth_token: &str,
        service_log_file_path: &str,
    ) -> (r: Self)
        ensures
            r@ == (ServiceClientView {
                server_host: secure_link_server_host@,
                server_port: secure_link_server_port,
                auth_token: auth_token@,
                service_log_file_path: service_log_file_path@,
                state: SecureLinkClientState::Stopped,
            }),
    {
        SecureLinkWindowsServiceClient {
            secure_link_server_host: secure_link_server_host.to_owned(),
            secure_link_server_port,
            auth_token: auth_token.to_owned(),
            service_log_file_path: service_log_file_path.to_owned(),
            known_state: SecureLinkClientState::Stopped,
        }
    }

    /// Begins a start. A client known as pending or running is left as it is
    /// and `None` comes back: the service is not asked again. A stopped one
    /// becomes pending and returns what to hand to "start service".
    pub fn start_request(&mut self) -> (r: Option<ServiceStartRequest>)
        ensures
            final(self)@ == old(self)@.started(),
            r is Some <==> old(self)@.state is Stopped,
            r matches Some(req) ==> is_start_request(req, old(self)@),
    {
        match self.known_state {
            SecureLinkClientState::Stopped => {},
            _ => {
                return None;
            },
        }
        self.known_state = SecureLinkClientState::Pending;
        Some(
            ServiceStartRequest {
                server_host: self.secure_link_server_host.clone(),
                server_port: self.secure_link_server_port,
                auth_token: self.auth_token.clone(),
                service_log_file_path: self.service_log_file_path.clone(),
            },
        )
    }

    /// Ends a start, given what "start service" returned: running on
    /// success, stopped otherwise.
    pub fn start_finished(&mut self, result: Result<(), ServiceStartError>) -> (r: Result<
        (),
        SecureLinkClientError,
    >)
        ensures
            r == start_outcome(result),
            final(self)@ == old(self)@.start_ended(result is Ok),
    {
        self.known_state = match &result {
            Ok(()) => SecureLinkClientState::Running,
            Err(_) => SecureLinkClientState::Stopped,
        };
        map_start_result(result)
    }

    /// Begins a stop: the client no longer counts the service as started.
    pub fn stop_request(&mut self)
        ensures
            final(self)@ == old(self)@.with_state(SecureLinkClientState::Stopped),
    {
        self.known_state = SecureLinkClientState::Stopped;
    }

    /// The result of `stop`, given what "stop service" returned.
    pub fn stop_finished(&self, result: Result<(), String>) -> (r: Result<(), SecureLinkClientError>)
        ensures
            r == stop_outcome(result),
    {
        map_stop_result(result)
    }

    /// The result of `status`, given what "query state" returned; a state
    /// that came back is adopted as the known one unless a start is under
    /// way.
    pub fn status_finished(&mut self, result: Result<ServiceState, String>) -> (r: Result<
        SecureLinkClientState,
        SecureLinkClientError,
    >)
        ensures
            r == query_outcome(result),
            final(self)@ == old(self)@.queried(r),
    {
        let r = map_query_result(result);
        match &r {
            Ok(s) => {
                match self.known_state {
                    SecureLinkClientState::Pending => {},
                    _ => {
                        self.known_state = *s;
                    },
                }
            },
            Err(_) => {},
        }
        r
    }
}

} // verus!
