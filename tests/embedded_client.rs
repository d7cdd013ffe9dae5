use secure_link_app::embedded_client::{map_link_error, LinkConnectError, SecureLinkEmbeddedClient};
use secure_link_app::{SecureLinkClientError, SecureLinkClientState};

fn client() -> SecureLinkEmbeddedClient {
    SecureLinkEmbeddedClient::new("token-1", "link.example.org", 4433)
}

#[test]
fn new_embedded_client_is_stopped() {
    let c = client();
    assert_eq!(c.status(), SecureLinkClientState::Stopped);
}

#[test]
fn start_then_connect_goes_pending_then_running() {
    let mut c = client();
    let req = c.start().expect("a stopped client makes an attempt");
    assert_eq!(req.server_host, "link.example.org");
    assert_eq!(req.server_port, 4433);
    assert_eq!(req.auth_token, "token-1");
    // every observer during the attempt sees it pending
    assert_eq!(c.status(), SecureLinkClientState::Pending);
    assert_eq!(c.status(), SecureLinkClientState::Pending);
    assert_eq!(c.connect_finished(Ok(())), Ok(()));
    assert_eq!(c.status(), SecureLinkClientState::Running);
}

#[test]
fn repeated_start_makes_one_attempt() {
    let mut c = client();
    assert!(c.start().is_some());
    assert!(c.start().is_none());
    assert!(c.start().is_none());
    assert_eq!(c.status(), SecureLinkClientState::Pending);
    c.connect_finished(Ok(())).unwrap();
    assert!(c.start().is_none());
    assert_eq!(c.status(), SecureLinkClientState::Running);
}

#[test]
fn unauthorized_connect_returns_to_stopped() {
    let mut c = client();
    let _req = c.start().unwrap();
    assert_eq!(
        c.connect_finished(Err(LinkConnectError::Unauthorized)),
        Err(SecureLinkClientError::UnauthorizedError)
    );
    assert_eq!(c.status(), SecureLinkClientState::Stopped);
}

#[test]
fn other_connect_failure_is_a_network_error() {
    let mut c = client();
    let _req = c.start().unwrap();
    assert_eq!(
        c.connect_finished(Err(LinkConnectError::Other("timed out".to_string()))),
        Err(SecureLinkClientError::NetworkError("timed out".to_string()))
    );
    assert_eq!(c.status(), SecureLinkClientState::Stopped);
}

#[test]
fn link_errors_map_onto_client_errors() {
    assert_eq!(map_link_error(LinkConnectError::Unauthorized), SecureLinkClientError::UnauthorizedError);
    assert_eq!(
        map_link_error(LinkConnectError::Other("reset".to_string())),
        SecureLinkClientError::NetworkError("reset".to_string())
    );
}

#[test]
fn failed_attempt_allows_a_new_one() {
    let mut c = client();
    let _first = c.start().unwrap();
    let _ = c.connect_finished(Err(LinkConnectError::Other("down".to_string())));
    assert!(c.start().is_some());
    assert_eq!(c.status(), SecureLinkClientState::Pending);
}

#[test]
fn stop_twice_sends_one_shutdown_signal() {
    let mut c = client();
    let mut req = c.start().unwrap();
    assert!(c.stop());
    assert!(!c.stop());
    assert_eq!(req.shutdown.try_recv(), Ok(()));
    assert!(req.shutdown.try_recv().is_err());
}

#[test]
fn stop_without_a_run_is_a_no_op() {
    let mut c = client();
    assert!(!c.stop());
    assert_eq!(c.status(), SecureLinkClientState::Stopped);
}

#[test]
fn stop_before_connect_abandons_the_attempt() {
    let mut c = client();
    let mut req = c.start().unwrap();
    assert!(c.stop());
    // the connecting task sees the signal first and reports the run over
    assert_eq!(req.shutdown.try_recv(), Ok(()));
    c.run_ended();
    assert_eq!(c.status(), SecureLinkClientState::Stopped);
    assert!(c.start().is_some());
}

#[test]
fn message_loop_end_stops_a_running_client() {
    let mut c = client();
    let _req = c.start().unwrap();
    c.connect_finished(Ok(())).unwrap();
    c.run_ended();
    assert_eq!(c.status(), SecureLinkClientState::Stopped);
}

#[test]
fn each_run_gets_its_own_shutdown_channel() {
    let mut c = client();
    let mut first = c.start().unwrap();
    c.run_ended();
    let mut second = c.start().unwrap();
    assert!(c.stop());
    assert!(first.shutdown.try_recv().is_err());
    assert_eq!(second.shutdown.try_recv(), Ok(()));
}
