//! The in-process backend: runs the link protocol itself.
//!
//! A run goes `Stopped -> Pending -> Running -> Stopped`, or `Pending ->
//! Stopped` when the connection attempt fails or is abandoned. Each run gets a
//! fresh shutdown channel; the client keeps the sending half until `stop`
//! consumes it, and the receiving half goes with the connection request to the
//! task that performs the connect and the message loop.
use vstd::prelude::*;

use tokio::sync::mpsc::{UnboundedReceiver, UnboundedSender};

use crate::secure_link_client::{SecureLinkClientError, SecureLinkClientState};
use crate::shutdown::{new_shutdown_channel, send_shutdown};

verus! {

/// How a connection attempt of the link protocol failed.
#[derive(Clone, Debug, PartialEq, Eq)]
pub enum LinkConnectError {
    /// The server rejected the token.
    Unauthorized,
    /// Any other failure, with its description.
    Other(String),
}

/// The client error that a failed connection attempt is reported as.
pub open spec fn link_error(e: LinkConnectError) -> SecureLinkClientError {
    match e {
        LinkConnectError::Unauthorized => SecureLinkClientError::UnauthorizedError,
        LinkConnectError::Other(m) => SecureLinkClientError::NetworkError(m),
    }
}

/// The outcome of a connection attempt in the client's terms.
pub open spec fn connect_outcome(result: Result<(), LinkConnectError>) -> Result<
    (),
    SecureLinkClientError,
> {
    match result {
        Ok(()) => Ok(()),
        Err(e) => Err(link_error(e)),
    }
}

/// Maps a failed connection attempt onto the client's error taxonomy.
pub fn map_link_error(e: LinkConnectError) -> (r: SecureLinkClientError)
    ensures
        r == link_error(e),
{
    match e {
        LinkConnectError::Unauthorized => SecureLinkClientError::UnauthorizedError,
        LinkConnectError::Other(m) => SecureLinkClientError::NetworkError(m),
    }
}

/// What the connecting task needs: where to connect, with which token, and the
/// receiving half of this run's shutdown channel.
pub struct ConnectRequest {
    pub server_host: String,
    pub server_port: u16,
    pub auth_token: String,
    pub shutdown: UnboundedReceiver<()>,
}

/// Whether `req` asks to connect where and with what `v` says.
pub open spec fn is_connect_request(req: ConnectRequest, v: EmbeddedClientView) -> bool {
    &&& req.server_host@ == v.server_host
    &&& req.server_port == v.server_port
    &&& req.auth_token@ == v.auth_token
}

/// The abstract state of an embedded client.
pub struct EmbeddedClientView {
    pub auth_token: Seq<char>,
    pub server_host: Seq<char>,
    pub server_port: u16,
    pub state: SecureLinkClientState,
    /// A shutdown sender is held and has not been consumed yet.
    pub shutdown_armed: bool,
}

impl EmbeddedClientView {
    /// The same client in another lifecycle state.
    pub open spec fn with_state(self, state: SecureLinkClientState) -> Self {
        EmbeddedClientView { state, ..self }
    }

    /// After `start`: a stopped client becomes pending with a fresh shutdown
    /// sender; a pending or running one is left as it is.
    pub open spec fn started(self) -> Self {
        if self.state is Stopped {
            EmbeddedClientView { state: SecureLinkClientState::Pending, shutdown_armed: true, ..self }
        } else {
            self
        }
    }

    /// After `stop`: the shutdown sender is consumed; the state is left to the
    /// run that receives the signal.
    pub open spec fn stopped(self) -> Self {
        EmbeddedClientView { shutdown_armed: false, ..self }
    }
}

/// A client that runs the link protocol in this process.
pub struct SecureLinkEmbeddedClient {
    auth_token: String,
    secure_link_server_host: String,
    secure_link_server_port: u16,
    shutdown_sender: Option<UnboundedSender<()>>,
    current_state: SecureLinkClientState,
}

impl View for SecureLinkEmbeddedClient {
    type V = EmbeddedClientView;

    closed spec fn view(&self) -> EmbeddedClientView {
        EmbeddedClientView {
            auth_token: self.auth_token@,
            server_host: self.secure_link_server_host@,
            server_port: self.secure_link_server_port,
            state: self.current_state,
            shutdown_armed: self.shutdown_sender is Some,
        }
    }
}

impl SecureLinkEmbeddedClient {
    /// A stopped client for the given token and server.
    pub fn new(auth_token: &str, secure_link_server_host: &str, secure_link_server_port: u16) -> (r:
        Self)
        ensures
            r@ == (EmbeddedClientView {
                auth_token: auth_token@,
                server_host: secure_link_server_host@,
                server_port: secure_link_server_port,
                state: SecureLinkClientState::Stopped,
                shutdown_armed: false,
            }),
    {
        SecureLinkEmbeddedClient {
            auth_token: auth_token.to_owned(),
            secure_link_server_host: secure_link_server_host.to_owned(),
            secure_link_server_port,
            shutdown_sender: None,
            current_state: SecureLinkClientState::Stopped,
        }
    }

    /// Begins a run. A client that is already pending or running is left as
    /// it is and `None` comes back: no second attempt is made. A stopped client
    /// becomes pending, keeps the sender of a fresh shutdown channel, and hands
    /// back the request that the connecting task carries out.
    pub fn start(&mut self) -> (r: Option<ConnectRequest>)
        ensures
            final(self)@ == old(self)@.started(),
            r is Some <==> old(self)@.state is Stopped,
            r matches Some(req) ==> is_connect_request(req, old(self)@),
    {
        match self.current_state {
            SecureLinkClientState::Running => {
                return None;
            },
            SecureLinkClientState::Pending => {
                return None;
            },
            SecureLinkClientState::Stopped => {},
        }
        self.current_state = SecureLinkClientState::Pending;
        let (sender, receiver) = new_shutdown_channel();
        self.shutdown_sender = Some(sender);
        Some(
            ConnectRequest {
                server_host: self.secure_link_server_host.clone(),
                server_port: self.secure_link_server_port,
                auth_token: self.auth_token.clone(),
                shutdown: receiver,
            },
        )
    }

    /// Records how the connection attempt ended: running on success, stopped
    /// and the mapped error otherwise.
    pub fn connect_finished(&mut self, result: Result<(), LinkConnectError>) -> (r: Result<
        (),
        SecureLinkClientError,
    >)
        ensures
            r == connect_outcome(result),
            result is Ok ==> final(self)@ == old(self)@.with_state(SecureLinkClientState::Running),
            result is Err ==> final(self)@ == old(self)@.with_state(SecureLinkClientState::Stopped),
    {
        match result {
            Ok(()) => {
                self.current_state = SecureLinkClientState::Running;
                Ok(())
            },
            Err(e) => {
                self.current_state = SecureLinkClientState::Stopped;
                Err(map_link_error(e))
            },
        }
    }

    /// Records that the run is over: the shutdown signal arrived before or
    /// after the connection was made, or the message loop ended on its own.
    pub fn run_ended(&mut self)
        ensures
            final(self)@ == old(self)@.with_state(SecureLinkClientState::Stopped),
    {
        self.current_state = SecureLinkClientState::Stopped;
    }

    /// Consumes the shutdown sender, if one is held, and signals the run on it.
    /// Returns whether a signal was sent; with no sender this is a no-op.
    pub fn stop(&mut self) -> (signalled: bool)
        ensures
            final(self)@ == old(self)@.stopped(),
            signalled == old(self)@.shutdown_armed,
    {
        match self.shutdown_sender.take() {
            Some(sender) => {
                send_shutdown(sender);
                true
            },
            None => false,
        }
    }

    /// The in-memory state; no outside query is made.
    pub fn status(&self) -> (r: SecureLinkClientState)
        ensures
            r == self@.state,
    {
        self.current_state
    }
}

/// Starting is idempotent: once started, a client is pending or running, and
/// starting it again changes nothing, so no second connection attempt is made.
pub proof fn lemma_start_idempotent(v: EmbeddedClientView)
    ensures
        !(v.started().state is Stopped),
        v.started().started() == v.started(),
{
}

/// How many of `k` consecutive starts from `v` make a connection attempt.
pub open spec fn start_attempts_in(v: EmbeddedClientView, k: nat) -> nat
    decreases k,
{
    if k == 0 {
        0
    } else {
        (if v.state is Stopped {
            1nat
        } else {
            0nat
        }) + start_attempts_in(v.started(), (k - 1) as nat)
    }
}

proof fn lemma_active_starts_attempt_nothing(v: EmbeddedClientView, k: nat)
    requires
        !(v.state is Stopped),
    ensures
        start_attempts_in(v, k) == 0,
    decreases k,
{
    if k > 0 {
        lemma_active_starts_attempt_nothing(v.started(), (k - 1) as nat);
    }
}

/// Any number of starts with no stop in between makes at most one connection
/// attempt.
pub proof fn lemma_starts_attempt_once(v: EmbeddedClientView, k: nat)
    ensures
        start_attempts_in(v, k) <= 1,
{
    if k > 0 {
        lemma_active_starts_attempt_nothing(v.started(), (k - 1) as nat);
    }
}

/// Stopping consumes the shutdown sender: a second stop right after the first
/// finds none, so it sends nothing and changes nothing.
pub proof fn lemma_stop_signals_once(v: EmbeddedClientView)
    ensures
        !v.stopped().shutdown_armed,
        v.stopped().stopped() == v.stopped(),
{
}

} // verus!
