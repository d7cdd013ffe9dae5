//! The lifecycle core: owns the one client of the process, builds it lazily
//! from the stored token, rebuilds it when the token changes, and routes
//! start, stop and status to it.
//!
//! Each operation is a step: it decides under the caller's lock what is to be
//! done and returns it. Work that waits (a connection attempt, a call into the
//! OS service manager) is carried out by the caller without the lock, and its
//! outcome is handed back together with the generation of the client it was
//! made for. An outcome for a client that has since been replaced changes
//! nothing here.
use vstd::prelude::*;

use crate::embedded_client::{
    connect_outcome, is_connect_request, map_link_error, ConnectRequest, EmbeddedClientView, LinkConnectError,
    SecureLinkEmbeddedClient,
};
use crate::secure_link_client::{SecureLinkClientError, SecureLinkClientState};
use crate::service_manager::{
    map_query_result, map_start_result, map_stop_result, query_outcome, start_outcome,
    stop_outcome, ServiceStartError, ServiceStartRequest, ServiceState,
};
use crate::windows_service::{DebouncedServiceView, SecureLinkWindowsService};
use crate::windows_service_client::{
    is_start_request, SecureLinkWindowsServiceClient, ServiceClientView,
};

verus! {

/// Which backend the core builds; chosen once, at construction.
#[derive(Clone, Copy, Debug, PartialEq, Eq, Structural)]
pub enum BackendKind {
    /// The link protocol runs in this process.
    Embedded,
    /// The OS service runs the link; every status request queries it.
    WindowsServiceClient,
    /// The OS service runs the link; status answers are reused within the
    /// given window, in milliseconds.
    WindowsService { debounce_millis: u64 },
}

/// The client the core owns.
pub enum Backend {
    Embedded(SecureLinkEmbeddedClient),
    WindowsServiceClient(SecureLinkWindowsServiceClient),
    WindowsService(SecureLinkWindowsService),
}

/// The abstract state of a backend.
pub enum BackendView {
    Embedded(EmbeddedClientView),
    WindowsServiceClient(ServiceClientView),
    WindowsService(DebouncedServiceView),
}

impl View for Backend {
    type V = BackendView;

    open spec fn view(&self) -> BackendView {
        match self {
            Backend::Embedded(c) => BackendView::Embedded(c@),
            Backend::WindowsServiceClient(c) => BackendView::WindowsServiceClient(c@),
            Backend::WindowsService(c) => BackendView::WindowsService(c@),
        }
    }
}

impl BackendView {
    /// The token the backend was built with.
    pub open spec fn auth_token(self) -> Seq<char> {
        match self {
            BackendView::Embedded(e) => e.auth_token,
            BackendView::WindowsServiceClient(c) => c.auth_token,
            BackendView::WindowsService(d) => d.client.auth_token,
        }
    }

    /// The state that decides whether `start` makes an attempt: the
    /// in-memory state of an embedded client, the last known state of a
    /// service-backed one.
    pub open spec fn start_state(self) -> SecureLinkClientState {
        match self {
            BackendView::Embedded(e) => e.state,
            BackendView::WindowsServiceClient(c) => c.state,
            BackendView::WindowsService(d) => d.client.state,
        }
    }

    /// Whether the backend is of the given kind.
    pub open spec fn is_of_kind(self, kind: BackendKind) -> bool {
        match (self, kind) {
            (BackendView::Embedded(_), BackendKind::Embedded) => true,
            (BackendView::WindowsServiceClient(_), BackendKind::WindowsServiceClient) => true,
            (BackendView::WindowsService(d), BackendKind::WindowsService { debounce_millis }) =>
                d.debounce_millis == debounce_millis,
            _ => false,
        }
    }
}

/// The abstract state of the core. The current client, if any, has the
/// generation `constructions`.
pub struct LifecycleView {
    pub kind: BackendKind,
    pub server_host: Seq<char>,
    pub server_port: u16,
    pub service_log_file_path: Seq<char>,
    /// How many clients have been built, saturating at `u64::MAX`.
    pub constructions: u64,
    pub client: Option<BackendView>,
}

/// The token a stored value stands for.
pub open spec fn token_view(t: Option<String>) -> Option<Seq<char>> {
    match t {
        Some(s) => Some(s@),
        None => None,
    }
}

impl LifecycleView {
    /// The client is absent or of the configured kind.
    pub open spec fn wf(self) -> bool {
        self.client matches Some(b) ==> b.is_of_kind(self.kind)
    }

    /// The generation of the current client, if there is one.
    pub open spec fn generation(self) -> Option<u64> {
        if self.client is Some {
            Some(self.constructions)
        } else {
            None
        }
    }

    /// The backend of the configured kind built for `token`.
    pub open spec fn built(self, token: Seq<char>) -> BackendView {
        let service = ServiceClientView {
            server_host: self.server_host,
            server_port: self.server_port,
            auth_token: token,
            service_log_file_path: self.service_log_file_path,
            state: SecureLinkClientState::Stopped,
        };
        match self.kind {
            BackendKind::Embedded => BackendView::Embedded(
                EmbeddedClientView {
                    auth_token: token,
                    server_host: self.server_host,
                    server_port: self.server_port,
                    state: SecureLinkClientState::Stopped,
                    shutdown_armed: false,
                },
            ),
            BackendKind::WindowsServiceClient => BackendView::WindowsServiceClient(service),
            BackendKind::WindowsService { debounce_millis } => BackendView::WindowsService(
                DebouncedServiceView {
                    client: service,
                    debounce_millis,
                    last_status_query: None,
                    cached_status: None,
                },
            ),
        }
    }

    /// After `ensure_created` with the stored token `stored`: an existing
    /// client stays, whatever is stored now; otherwise a client is built if a
    /// token is stored.
    pub open spec fn created(self, stored: Option<Seq<char>>) -> Self {
        if self.client is Some {
            self
        } else {
            match stored {
                None => self,
                Some(t) => LifecycleView {
                    constructions: if self.constructions < u64::MAX {
                        (self.constructions + 1) as u64
                    } else {
                        self.constructions
                    },
                    client: Some(self.built(t)),
                    ..self
                },
            }
        }
    }

    /// The same core with another client.
    pub open spec fn with_client(self, client: Option<BackendView>) -> Self {
        LifecycleView { client, ..self }
    }

    /// Whether `start` makes a connection or service-start attempt once the
    /// client has been ensured with `stored`.
    pub open spec fn start_attempts(self, stored: Option<Seq<char>>) -> bool {
        match self.created(stored).client {
            Some(b) => b.start_state() is Stopped,
            None => false,
        }
    }

    /// After `start`, once the client has been ensured.
    pub open spec fn started(self) -> Self {
        match self.client {
            Some(BackendView::Embedded(e)) => self.with_client(Some(BackendView::Embedded(e.started()))),
            Some(BackendView::WindowsServiceClient(c)) => self.with_client(
                Some(BackendView::WindowsServiceClient(c.started())),
            ),
            Some(BackendView::WindowsService(d)) => self.with_client(
                Some(BackendView::WindowsService(d.started())),
            ),
            None => self,
        }
    }

    /// Whether `stop` sends a shutdown signal.
    pub open spec fn stop_signals(self) -> bool {
        self.client matches Some(BackendView::Embedded(e)) && e.shutdown_armed
    }

    /// After `stop`.
    pub open spec fn stopped(self) -> Self {
        match self.client {
            Some(BackendView::Embedded(e)) => self.with_client(Some(BackendView::Embedded(e.stopped()))),
            Some(BackendView::WindowsServiceClient(c)) => self.with_client(
                Some(BackendView::WindowsServiceClient(c.with_state(SecureLinkClientState::Stopped))),
            ),
            Some(BackendView::WindowsService(d)) => self.with_client(
                Some(BackendView::WindowsService(d.stop_requested())),
            ),
            None => self,
        }
    }

    /// After the embedded client of generation `generation` moved to
    /// `state`; nothing changes if that client is no longer the current one.
    pub open spec fn embedded_moved_to(self, generation: u64, state: SecureLinkClientState) -> Self {
        match self.client {
            Some(BackendView::Embedded(e)) => if generation == self.constructions {
                self.with_client(Some(BackendView::Embedded(e.with_state(state))))
            } else {
                self
            },
            _ => self,
        }
    }

    /// After "start service" for generation `generation` ended: the current
    /// service-backed client of that generation is running on success and
    /// stopped otherwise, and a debounced one forgets its remembered status.
    pub open spec fn service_start_ended(self, generation: u64, succeeded: bool) -> Self {
        if generation != self.constructions {
            self
        } else {
            match self.client {
                Some(BackendView::WindowsServiceClient(c)) => self.with_client(
                    Some(BackendView::WindowsServiceClient(c.start_ended(succeeded))),
                ),
                Some(BackendView::WindowsService(d)) => self.with_client(
                    Some(BackendView::WindowsService(d.start_ended(succeeded))),
                ),
                _ => self,
            }
        }
    }

    /// After "stop service" for generation `generation` ended: a debounced
    /// client forgets its remembered status.
    pub open spec fn service_stop_ended(self, generation: u64) -> Self {
        match self.client {
            Some(BackendView::WindowsService(d)) => if generation == self.constructions {
                self.with_client(Some(BackendView::WindowsService(d.cleared())))
            } else {
                self
            },
            _ => self,
        }
    }

    /// After a status query made at `now` for generation `generation` came
    /// back with `result`.
    pub open spec fn status_recorded(
        self,
        generation: u64,
        now: u64,
        result: Result<SecureLinkClientState, SecureLinkClientError>,
    ) -> Self {
        if generation != self.constructions {
            self
        } else {
            match self.client {
                Some(BackendView::WindowsServiceClient(c)) => self.with_client(
                    Some(BackendView::WindowsServiceClient(c.queried(result))),
                ),
                Some(BackendView::WindowsService(d)) => self.with_client(
                    Some(BackendView::WindowsService(d.recorded(now, result))),
                ),
                _ => self,
            }
        }
    }

    /// After `reinitialize` with the stored token `stored`: the current client
    /// is dropped and a new one is built from what is stored now.
    pub open spec fn reinitialized(self, stored: Option<Seq<char>>) -> Self {
        self.with_client(None).created(stored)
    }
}

/// What the caller does next after `start`.
pub enum StartStep {
    /// No token is stored, so no client exists: nothing to start.
    NoAuthToken,
    /// The client is already pending or running: nothing to do.
    AlreadyActive,
    /// Connect as the request says, racing the attempt against its shutdown
    /// receiver, and report back with `connect_finished` or `run_ended`.
    Connect { generation: u64, request: ConnectRequest },
    /// Call "start service" with the request and report back with
    /// `service_start_finished`.
    StartService { generation: u64, start_request: ServiceStartRequest },
}

/// What the caller does next after `stop`.
#[derive(Clone, Copy, Debug, PartialEq, Eq, Structural)]
pub enum StopStep {
    /// Nothing more; `signalled` tells whether a shutdown signal was sent.
    Done { signalled: bool },
    /// Call "stop service" and report back with `service_stop_finished`.
    StopService { generation: u64 },
}

/// What `reinitialize` did.
#[derive(Clone, Copy, Debug, PartialEq, Eq, Structural)]
pub struct Reinitialized {
    /// A shutdown signal was sent to the run of the dropped client.
    pub signalled: bool,
    /// The generation of the new client, if one was built.
    pub generation: Option<u64>,
}

/// What the caller does next after `status`.
#[derive(Clone, Copy, Debug, PartialEq, Eq, Structural)]
pub enum StatusStep {
    /// The state is known without asking anyone.
    Known(SecureLinkClientState),
    /// Call "query state" and report back with `service_status_finished`.
    QueryService { generation: u64 },
}

/// The owner of the process's one client.
pub struct SecureLinkLifecycle {
    kind: BackendKind,
    secure_link_server_host: String,
    secure_link_server_port: u16,
    service_log_file_path: String,
    constructions: u64,
    client: Option<Backend>,
}

impl View for SecureLinkLifecycle {
    type V = LifecycleView;

    closed spec fn view(&self) -> LifecycleView {
        LifecycleView {
            kind: self.kind,
            server_host: self.secure_link_server_host@,
            server_port: self.secure_link_server_port,
            service_log_file_path: self.service_log_file_path@,
            constructions: self.constructions,
            client: match self.client {
                Some(b) => Some(b@),
                None => None,
            },
        }
    }
}

impl SecureLinkLifecycle {
    /// A core with no client yet. `service_log_file_path` is handed to the
    /// service-backed kinds only.
    pub fn new(
        kind: BackendKind,
        secure_link_server_host: &str,
        secure_link_server_port: u16,
        service_log_file_path: &str,
    ) -> (r: Self)
        ensures
            r@ == (LifecycleView {
                kind,
                server_host: secure_link_server_host@,
                server_port: secure_link_server_port,
                service_log_file_path: service_log_file_path@,
                constructions: 0,
                client: None,
            }),
            r@.wf(),
    {
        SecureLinkLifecycle {
            kind,
            secure_link_server_host: secure_link_server_host.to_owned(),
            secure_link_server_port,
            service_log_file_path: service_log_file_path.to_owned(),
            constructions: 0,
            client: None,
        }
    }

    /// Whether a client exists. Only when none does is the stored token
    /// needed by `ensure_created`.
    pub fn has_client(&self) -> (r: bool)
        ensures
            r == self@.client is Some,
    {
        self.client.is_some()
    }

    /// The generation of the current client, if there is one.
    pub fn generation(&self) -> (r: Option<u64>)
        ensures
            r == self@.generation(),
    {
        if self.client.is_some() {
            Some(self.constructions)
        } else {
            None
        }
    }

    fn build(&self, auth_token: &str) -> (r: Backend)
        ensures
            r@ == self@.built(auth_token@),
    {
        match self.kind {
            BackendKind::Embedded => Backend::Embedded(
                SecureLinkEmbeddedClient::new(
                    auth_token,
                    self.secure_link_server_host.as_str(),
                    self.secure_link_server_port,
                ),
            ),
            BackendKind::WindowsServiceClient => Backend::WindowsServiceClient(
                SecureLinkWindowsServiceClient::new(
                    self.secure_link_server_host.as_str(),
                    self.secure_link_server_port,
                    auth_token,
                    self.service_log_file_path.as_str(),
                ),
            ),
            BackendKind::WindowsService { debounce_millis } => Backend::WindowsService(
                SecureLinkWindowsService::new(
                    self.secure_link_server_host.as_str(),
                    self.secure_link_server_port,
                    auth_token,
                    self.service_log_file_path.as_str(),
                ).with_debounce_duration(debounce_millis),
            ),
        }
    }

    /// Makes sure a client exists. An existing client stays, even if the
    /// stored token has changed since it was built. Without one, a client is
    /// built from `stored_token`, or none if no token is stored. Returns the
    /// generation of the client, or `None` if there is none.
    pub fn ensure_created(&mut self, stored_token: Option<String>) -> (r: Option<u64>)
        requires
            old(self)@.wf(),
        ensures
            final(self)@ == old(self)@.created(token_view(stored_token)),
            final(self)@.wf(),
            r == final(self)@.generation(),
    {
        if self.client.is_none() {
            match stored_token {
                Some(t) => {
                    let backend = self.build(t.as_str());
                    self.constructions = self.constructions.saturating_add(1);
                    self.client = Some(backend);
                },
                None => {},
            }
        }
        self.generation()
    }

    /// Starts the client, building it first if needed. A client that is
    /// already pending or running (for a service-backed one: last known so)
    /// is left alone. A stopped one becomes pending, and a connection attempt
    /// or a service start is requested.
    pub fn start(&mut self, stored_token: Option<String>) -> (r: StartStep)
        requires
            old(self)@.wf(),
        ensures
            final(self)@ == old(self)@.created(token_view(stored_token)).started(),
            final(self)@.wf(),
            r is NoAuthToken <==> old(self)@.created(token_view(stored_token)).client is None,
            (r is Connect || r is StartService) <==> old(self)@.start_attempts(
                token_view(stored_token),
            ),
            r is AlreadyActive <==> (old(self)@.created(token_view(stored_token)).client matches Some(
                b,
            ) && !(b.start_state() is Stopped)),
            r matches StartStep::Connect { generation, request } ==> {
                &&& generation == final(self)@.constructions
                &&& old(self)@.created(token_view(stored_token)).client matches Some(
                    BackendView::Embedded(e),
                )
                &&& is_connect_request(request, e)
            },
            r matches StartStep::StartService { generation, start_request } ==> {
                &&& generation == final(self)@.constructions
                &&& match old(self)@.created(token_view(stored_token)).client {
                    Some(BackendView::WindowsServiceClient(c)) => is_start_request(start_request, c),
                    Some(BackendView::WindowsService(d)) => is_start_request(start_request, d.client),
                    _ => false,
                }
            },
    {
        let _ = self.ensure_created(stored_token);
        let generation = self.constructions;
        match &mut self.client {
            None => StartStep::NoAuthToken,
            Some(Backend::Embedded(e)) => match e.start() {
                Some(request) => StartStep::Connect { generation, request },
                None => StartStep::AlreadyActive,
            },
            Some(Backend::WindowsServiceClient(c)) => match c.start_request() {
                Some(start_request) => StartStep::StartService { generation, start_request },
                None => StartStep::AlreadyActive,
            },
            Some(Backend::WindowsService(d)) => match d.start_request() {
                Some(start_request) => StartStep::StartService { generation, start_request },
                None => StartStep::AlreadyActive,
            },
        }
    }

    /// Reports how the connection attempt of generation `generation` ended.
    /// The current embedded client of that generation becomes running or
    /// stopped; the result is the attempt's outcome in the client's terms.
    pub fn connect_finished(&mut self, generation: u64, result: Result<(), LinkConnectError>) -> (r:
        Result<(), SecureLinkClientError>)
        requires
            old(self)@.wf(),
        ensures
            r == connect_outcome(result),
            final(self)@ == old(self)@.embedded_moved_to(
                generation,
                if result is Ok {
                    SecureLinkClientState::Running
                } else {
                    SecureLinkClientState::Stopped
                },
            ),
            final(self)@.wf(),
    {
        let current = generation == self.constructions;
        match &mut self.client {
            Some(Backend::Embedded(e)) => {
                if current {
                    return e.connect_finished(result);
                }
            },
            _ => {},
        }
        match result {
            Ok(()) => Ok(()),
            Err(e) => Err(map_link_error(e)),
        }
    }

    /// Reports that the run of generation `generation` is over: the shutdown
    /// signal arrived, or the message loop ended on its own.
    pub fn run_ended(&mut self, generation: u64)
        requires
            old(self)@.wf(),
        ensures
            final(self)@ == old(self)@.embedded_moved_to(generation, SecureLinkClientState::Stopped),
            final(self)@.wf(),
    {
        let current = generation == self.constructions;
        match &mut self.client {
            Some(Backend::Embedded(e)) => {
                if current {
                    e.run_ended();
                }
            },
            _ => {},
        }
    }

    /// Reports what "start service" returned for generation `generation`.
    pub fn service_start_finished(
        &mut self,
        generation: u64,
        result: Result<(), ServiceStartError>,
    ) -> (r: Result<(), SecureLinkClientError>)
        requires
            old(self)@.wf(),
        ensures
            r == start_outcome(result),
            final(self)@ == old(self)@.service_start_ended(generation, result is Ok),
            final(self)@.wf(),
    {
        let current = generation == self.constructions;
        match &mut self.client {
            Some(Backend::WindowsServiceClient(c)) => {
                if current {
                    c.start_finished(result)
                } else {
                    map_start_result(result)
                }
            },
            Some(Backend::WindowsService(d)) => {
                if current {
                    d.start_finished(result)
                } else {
                    map_start_result(result)
                }
            },
            _ => map_start_result(result),
        }
    }

    /// Stops the current client; without one this is a no-op. An embedded
    /// client's shutdown sender is consumed and signalled, at most once per
    /// run. A service-backed client asks for the service to be stopped.
    pub fn stop(&mut self) -> (r: StopStep)
        requires
            old(self)@.wf(),
        ensures
            final(self)@ == old(self)@.stopped(),
            final(self)@.wf(),
            r is StopService <==> (old(self)@.client matches Some(b) && !(b is Embedded)),
            r matches StopStep::Done { signalled } ==> signalled == old(self)@.stop_signals(),
            r matches StopStep::StopService { generation } ==> generation == old(
                self,
            )@.constructions,
    {
        let generation = self.constructions;
        match &mut self.client {
            None => StopStep::Done { signalled: false },
            Some(Backend::Embedded(e)) => StopStep::Done { signalled: e.stop() },
            Some(Backend::WindowsServiceClient(c)) => {
                c.stop_request();
                StopStep::StopService { generation }
            },
            Some(Backend::WindowsService(d)) => {
                d.stop_request();
                StopStep::StopService { generation }
            },
        }
    }

    /// Reports what "stop service" returned for generation `generation`.
    pub fn service_stop_finished(&mut self, generation: u64, result: Result<(), String>) -> (r:
        Result<(), SecureLinkClientError>)
        requires
            old(self)@.wf(),
        ensures
            r == stop_outcome(result),
            final(self)@ == old(self)@.service_stop_ended(generation),
            final(self)@.wf(),
    {
        let current = generation == self.constructions;
        match &mut self.client {
            Some(Backend::WindowsServiceClient(c)) => c.stop_finished(result),
            Some(Backend::WindowsService(d)) => {
                if current {
                    d.stop_finished(result)
                } else {
                    map_stop_result(result)
                }
            },
            _ => map_stop_result(result),
        }
    }

    /// The client's state at `now` (milliseconds of the caller's monotonic
    /// clock), building the client first if needed. Without a client it is
    /// `Stopped`. An embedded client answers from memory, a debounced one
    /// from its remembered answer while that is fresh; otherwise the service
    /// is to be queried.
    pub fn status(&mut self, stored_token: Option<String>, now: u64) -> (r: StatusStep)
        requires
            old(self)@.wf(),
        ensures
            final(self)@ == old(self)@.created(token_view(stored_token)),
            final(self)@.wf(),
            match final(self)@.client {
                None => r == StatusStep::Known(SecureLinkClientState::Stopped),
                Some(BackendView::Embedded(e)) => r == StatusStep::Known(e.state),
                Some(BackendView::WindowsServiceClient(_)) => r == StatusStep::QueryService {
                    generation: final(self)@.constructions,
                },
                Some(BackendView::WindowsService(d)) => match d.cache_hit(now) {
                    Some(s) => r == StatusStep::Known(s),
                    None => r == StatusStep::QueryService {
                        generation: final(self)@.constructions,
                    },
                },
            },
    {
        let _ = self.ensure_created(stored_token);
        let generation = self.constructions;
        match &self.client {
            None => StatusStep::Known(SecureLinkClientState::Stopped),
            Some(Backend::Embedded(e)) => StatusStep::Known(e.status()),
            Some(Backend::WindowsServiceClient(_)) => StatusStep::QueryService { generation },
            Some(Backend::WindowsService(d)) => match d.cached_status(now) {
                Some(s) => StatusStep::Known(s),
                None => StatusStep::QueryService { generation },
            },
        }
    }

    /// Reports what "query state", called at `now` for generation
    /// `generation`, returned. The answer is mapped onto a client state and,
    /// for the current debounced client, remembered.
    pub fn service_status_finished(
        &mut self,
        generation: u64,
        now: u64,
        result: Result<ServiceState, String>,
    ) -> (r: Result<SecureLinkClientState, SecureLinkClientError>)
        requires
            old(self)@.wf(),
        ensures
            r == query_outcome(result),
            final(self)@ == old(self)@.status_recorded(generation, now, r),
            final(self)@.wf(),
    {
        let current = generation == self.constructions;
        match &mut self.client {
            Some(Backend::WindowsServiceClient(c)) => {
                if current {
                    c.status_finished(result)
                } else {
                    map_query_result(result)
                }
            },
            Some(Backend::WindowsService(d)) => {
                if current {
                    d.status_finished(now, result)
                } else {
                    map_query_result(result)
                }
            },
            _ => map_query_result(result),
        }
    }

    /// Stops and drops the current client, and builds a new one from
    /// `stored_token`, so that the next start uses it. An embedded client's
    /// run is signalled to shut down if it has not been yet. A service-backed
    /// client is stopped beforehand by the caller, through `stop`, since that
    /// takes a call into the service manager.
    pub fn reinitialize(&mut self, stored_token: Option<String>) -> (r: Reinitialized)
        requires
            old(self)@.wf(),
        ensures
            final(self)@ == old(self)@.reinitialized(token_view(stored_token)),
            final(self)@.wf(),
            r.signalled == old(self)@.stop_signals(),
            r.generation == final(self)@.generation(),
    {
        let signalled = match self.client.take() {
            Some(Backend::Embedded(mut e)) => e.stop(),
            _ => false,
        };
        let generation = self.ensure_created(stored_token);
        Reinitialized { signalled, generation }
    }
}

/// How many connection or service-start attempts a sequence of `start` calls
/// makes, with nothing else in between; `stored[i]` is the stored token at the
/// `i`-th call.
pub open spec fn start_attempt_count(v: LifecycleView, stored: Seq<Option<Seq<char>>>) -> nat
    decreases stored.len(),
{
    if stored.len() == 0 {
        0
    } else {
        (if v.start_attempts(stored[0]) {
            1nat
        } else {
            0nat
        }) + start_attempt_count(v.created(stored[0]).started(), stored.drop_first())
    }
}

proof fn lemma_active_client_makes_no_attempt(v: LifecycleView, stored: Seq<Option<Seq<char>>>)
    requires
        v.client matches Some(b) && !(b.start_state() is Stopped),
    ensures
        start_attempt_count(v, stored) == 0,
    decreases stored.len(),
{
    if stored.len() > 0 {
        assert(v.created(stored[0]).started() == v);
        lemma_active_client_makes_no_attempt(v, stored.drop_first());
    }
}

/// Starting is idempotent: whatever the backend, any sequence of `start`
/// calls with no `stop` in between makes at most one connection or
/// service-start attempt.
pub proof fn lemma_repeated_start_attempts_once(v: LifecycleView, stored: Seq<Option<Seq<char>>>)
    ensures
        start_attempt_count(v, stored) <= 1,
    decreases stored.len(),
{
    if stored.len() > 0 {
        let w = v.created(stored[0]).started();
        if v.start_attempts(stored[0]) {
            lemma_active_client_makes_no_attempt(w, stored.drop_first());
        } else {
            lemma_repeated_start_attempts_once(w, stored.drop_first());
        }
    }
}

/// A second `stop` right after a first one sends no shutdown signal and
/// changes nothing more.
pub proof fn lemma_second_stop_is_silent(v: LifecycleView)
    ensures
        !v.stopped().stop_signals(),
        v.stopped().stopped() == v.stopped(),
{
}

/// After the token is changed to `t` and the core reinitialized, the next
/// `start` keeps the client built from `t`, whatever is stored by then, and
/// makes an attempt with it.
pub proof fn lemma_reinitialize_uses_new_token(
    v: LifecycleView,
    t: Seq<char>,
    later: Option<Seq<char>>,
)
    requires
        v.wf(),
    ensures
        v.reinitialized(Some(t)).created(later) == v.reinitialized(Some(t)),
        v.reinitialized(Some(t)).client matches Some(b) && b.auth_token() == t,
        v.reinitialized(Some(t)).start_attempts(later),
{
}

} // verus!
