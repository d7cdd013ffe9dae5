//! The service-backed client with a debounced status query.
//!
//! A status query of the OS service can be slow, and a poller asks often. The
//! client remembers the last successful answer and when it was obtained; a
//! status request within the debounce window is answered from that memory.
//! Start and stop forget it, so that no answer from before a transition is
//! reused after it. Like the client without a cache, it keeps the state it
//! last knew the service to be in, and a start while that is pending or
//! running asks nothing of the service. Instants are milliseconds of a
//! monotonic clock that the caller reads.
use vstd::prelude::*;

use crate::secure_link_client::{SecureLinkClientError, SecureLinkClientState};
use crate::service_manager::{
    map_query_result, map_start_result, map_stop_result, query_outcome, start_outcome,
    stop_outcome, ServiceStartError, ServiceStartRequest, ServiceState,
};
use crate::windows_service_client::{is_start_request, ServiceClientView};

verus! {

/// The debounce window of a new client, in milliseconds.
pub const DEFAULT_STATUS_DEBOUNCE_MILLIS: u64 = 100;

/// Milliseconds from `since` to `now`; zero if `now` is earlier.
pub open spec fn elapsed_millis(since: u64, now: u64) -> int {
    if now >= since {
        now - since
    } else {
        0
    }
}

/// The abstract state of a debounced service client.
pub struct DebouncedServiceView {
    pub client: ServiceClientView,
    pub debounce_millis: u64,
    pub last_status_query: Option<u64>,
    pub cached_status: Option<SecureLinkClientState>,
}

impl DebouncedServiceView {
    /// The same client with nothing remembered.
    pub open spec fn cleared(self) -> Self {
        DebouncedServiceView { last_status_query: None, cached_status: None, ..self }
    }

    /// The remembered answer that may be returned at `now`, if any.
    pub open spec fn cache_hit(self, now: u64) -> Option<SecureLinkClientState> {
        match (self.last_status_query, self.cached_status) {
            (Some(t), Some(s)) => if elapsed_millis(t, now) < self.debounce_millis {
                Some(s)
            } else {
                None
            },
            _ => None,
        }
    }

    /// After a query made at `now` came back with `result`: a successful
    /// answer is remembered and taught to the client, a failure changes
    /// nothing.
    pub open spec fn recorded(
        self,
        now: u64,
        result: Result<SecureLinkClientState, SecureLinkClientError>,
    ) -> Self {
        match result {
            Ok(s) => DebouncedServiceView {
                last_status_query: Some(now),
                cached_status: Some(s),
                client: self.client.observed(s),
                ..self
            },
            Err(_) => self,
        }
    }

    /// After `start`: a client known as stopped forgets its remembered status
    /// and becomes pending; a pending or running one is left as it is.
    pub open spec fn started(self) -> Self {
        if self.client.state is Stopped {
            DebouncedServiceView { client: self.client.started(), ..self.cleared() }
        } else {
            self
        }
    }

    /// After the start ended: nothing remembered, and the client running on
    /// success, stopped otherwise.
    pub open spec fn start_ended(self, succeeded: bool) -> Self {
        DebouncedServiceView { client: self.client.start_ended(succeeded), ..self.cleared() }
    }

    /// After `stop` was requested: nothing remembered, the client stopped.
    pub open spec fn stop_requested(self) -> Self {
        DebouncedServiceView {
            client: self.client.with_state(SecureLinkClientState::Stopped),
            ..self.cleared()
        }
    }
}

/// A client that delegates to the OS service manager and debounces status
/// queries.
pub struct SecureLinkWindowsService {
    secure_link_server_host: String,
    secure_link_server_port: u16,
    auth_token: String,
    service_log_file_path: String,
    known_state: SecureLinkClientState,
    last_status_query: Option<u64>,
    cached_status: Option<SecureLinkClientState>,
    debounce_millis: u64,
}

impl View for SecureLinkWindowsService {
    type V = DebouncedServiceView;

    closed spec fn view(&self) -> DebouncedServiceView {
        DebouncedServiceView {
            client: ServiceClientView {
                server_host: self.secure_link_server_host@,
                server_port: self.secure_link_server_port,
                auth_token: self.auth_token@,
                service_log_file_path: self.service_log_file_path@,
                state: self.known_state,
            },
            debounce_millis: self.debounce_millis,
            last_status_query: self.last_status_query,
            cached_status: self.cached_status,
        }
    }
}

impl SecureLinkWindowsService {
    /// A client with nothing remembered, that knows the service as stopped,
    /// with the default debounce window.
    pub fn new(
        secure_link_server_host: &str,
        secure_link_server_port: u16,
        auth_token: &str,
        service_log_file_path: &str,
    ) -> (r: Self)
        ensures
            r@ == (DebouncedServiceView {
                client: ServiceClientView {
                    server_host: secure_link_server_host@,
                    server_port: secure_link_server_port,
                    auth_token: auth_token@,
                    service_log_file_path: service_log_file_path@,
                    state: SecureLinkClientState::Stopped,
                },
                debounce_millis: DEFAULT_STATUS_DEBOUNCE_MILLIS,
                last_status_query: None,
                cached_status: None,
            }),
    {
        SecureLinkWindowsService {
            secure_link_server_host: secure_link_server_host.to_owned(),
            secure_link_server_port,
            auth_token: auth_token.to_owned(),
            service_log_file_path: service_log_file_path.to_owned(),
            known_state: SecureLinkClientState::Stopped,
            last_status_query: None,
            cached_status: None,
            debounce_millis: DEFAULT_STATUS_DEBOUNCE_MILLIS,
        }
    }

    /// The same client with another debounce window, in milliseconds.
    pub fn with_debounce_duration(self, debounce_millis: u64) -> (r: Self)
        ensures
            r@ == (DebouncedServiceView { debounce_millis, ..self@ }),
    {
        let mut s = self;
        s.debounce_millis = debounce_millis;
        s
    }

    /// Begins a start. A client known as pending or running is left as it is
    /// and `None` comes back. A stopped one forgets its remembered status,
    /// becomes pending, and returns what to hand to "start service".
    pub fn start_request(&mut self) -> (r: Option<ServiceStartRequest>)
        ensures
            final(self)@ == old(self)@.started(),
            r is Some <==> old(self)@.client.state is Stopped,
            r matches Some(req) ==> is_start_request(req, old(self)@.client),
    {
        match self.known_state {
            SecureLinkClientState::Stopped => {},
            _ => {
                return None;
            },
        }
        self.known_state = SecureLinkClientState::Pending;
        self.last_status_query = None;
        self.cached_status = None;
        Some(
            ServiceStartRequest {
                server_host: self.secure_link_server_host.clone(),
                server_port: self.secure_link_server_port,
                auth_token: self.auth_token.clone(),
                service_log_file_path: self.service_log_file_path.clone(),
            },
        )
    }

    /// Ends a start, given what "start service" returned: running on
    /// success, stopped otherwise. Whatever a status query recorded while the
    /// call was under way is forgotten.
    pub fn start_finished(&mut self, result: Result<(), ServiceStartError>) -> (r: Result<
        (),
        SecureLinkClientError,
    >)
        ensures
            final(self)@ == old(self)@.start_ended(result is Ok),
            r == start_outcome(result),
    {
        self.known_state = match &result {
            Ok(()) => SecureLinkClientState::Running,
            Err(_) => SecureLinkClientState::Stopped,
        };
        self.last_status_query = None;
        self.cached_status = None;
        map_start_result(result)
    }

    /// Begins a stop: forgets the remembered status, and no longer counts the
    /// service as started.
    pub fn stop_request(&mut self)
        ensures
            final(self)@ == old(self)@.stop_requested(),
    {
        self.known_state = SecureLinkClientState::Stopped;
        self.last_status_query = None;
        self.cached_status = None;
    }

    /// Ends a stop, given what "stop service" returned.
    pub fn stop_finished(&mut self, result: Result<(), String>) -> (r: Result<(), SecureLinkClientError>)
        ensures
            final(self)@ == old(self)@.cleared(),
            r == stop_outcome(result),
    {
        self.last_status_query = None;
        self.cached_status = None;
        map_stop_result(result)
    }

    /// The remembered status, if it was obtained less than the debounce
    /// window before `now`; `None` means that the service must be queried.
    pub fn cached_status(&self, now: u64) -> (r: Option<SecureLinkClientState>)
        ensures
            r == self@.cache_hit(now),
    {
        match (self.last_status_query, self.cached_status) {
            (Some(t), Some(s)) => {
                if now.saturating_sub(t) < self.debounce_millis {
                    Some(s)
                } else {
                    None
                }
            },
            _ => None,
        }
    }

    /// Ends a status query made at `now`, given what "query state" returned:
    /// the mapped answer is returned, and remembered when it is a state; it
    /// also becomes the known state unless a start is under way.
    pub fn status_finished(&mut self, now: u64, result: Result<ServiceState, String>) -> (r: Result<
        SecureLinkClientState,
        SecureLinkClientError,
    >)
        ensures
            r == query_outcome(result),
            final(self)@ == old(self)@.recorded(now, r),
    {
        let r = map_query_result(result);
        match &r {
            Ok(s) => {
                self.cached_status = Some(*s);
                self.last_status_query = Some(now);
                match self.known_state {
                    SecureLinkClientState::Pending => {},
                    _ => {
                        self.known_state = *s;
                    },
                }
            },
            Err(_) => {},
        }
        r
    }
}

/// A successful status answer obtained at `t1` is returned again at `t2` while
/// less than the debounce window has passed, with no new query; from the end
/// of the window on, the service is queried afresh.
pub proof fn lemma_status_debounce(
    v: DebouncedServiceView,
    t1: u64,
    s: SecureLinkClientState,
    t2: u64,
)
    ensures
        elapsed_millis(t1, t2) < v.debounce_millis ==> v.recorded(t1, Ok(s)).cache_hit(t2) == Some(s),
        elapsed_millis(t1, t2) >= v.debounce_millis ==> v.recorded(t1, Ok(s)).cache_hit(t2) is None,
{
}

} // verus!
