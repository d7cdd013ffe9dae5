use secure_link_app::auth_token::auth_token_update_needed;
use secure_link_app::embedded_client::LinkConnectError;
use secure_link_app::lifecycle::{
    BackendKind, Reinitialized, SecureLinkLifecycle, StartStep, StatusStep, StopStep,
};
use secure_link_app::service_manager::{ServiceStartError, ServiceState};
use secure_link_app::{SecureLinkClientError, SecureLinkClientState};

fn embedded_core() -> SecureLinkLifecycle {
    SecureLinkLifecycle::new(BackendKind::Embedded, "link.example.org", 4433, "service.log")
}

fn token(s: &str) -> Option<String> {
    Some(s.to_string())
}

fn known(step: StatusStep) -> SecureLinkClientState {
    match step {
        StatusStep::Known(s) => s,
        StatusStep::QueryService { .. } => panic!("expected a known state"),
    }
}

#[test]
fn start_without_token_reports_no_auth_token() {
    let mut core = embedded_core();
    assert!(matches!(core.start(None), StartStep::NoAuthToken));
    assert!(!core.has_client());
    assert_eq!(core.generation(), None);
    assert_eq!(known(core.status(None, 0)), SecureLinkClientState::Stopped);
}

#[test]
fn start_builds_the_client_from_the_stored_token() {
    let mut core = embedded_core();
    match core.start(token("secret-a")) {
        StartStep::Connect { generation, request } => {
            assert_eq!(generation, 1);
            assert_eq!(request.auth_token, "secret-a");
            assert_eq!(request.server_host, "link.example.org");
            assert_eq!(request.server_port, 4433);
        }
        _ => panic!("expected a connection attempt"),
    }
    assert!(core.has_client());
    assert_eq!(known(core.status(None, 0)), SecureLinkClientState::Pending);
    assert_eq!(core.connect_finished(1, Ok(())), Ok(()));
    assert_eq!(known(core.status(None, 0)), SecureLinkClientState::Running);
}

#[test]
fn repeated_start_makes_one_connection_attempt() {
    let mut core = embedded_core();
    let mut attempts = 0;
    for _ in 0..5 {
        if let StartStep::Connect { .. } = core.start(token("secret-a")) {
            attempts += 1;
        }
    }
    assert_eq!(attempts, 1);
    assert!(matches!(core.start(token("secret-a")), StartStep::AlreadyActive));
}

#[test]
fn existing_client_keeps_its_token() {
    let mut core = embedded_core();
    assert_eq!(core.ensure_created(token("secret-a")), Some(1));
    assert_eq!(core.ensure_created(token("secret-b")), Some(1));
    match core.start(token("secret-b")) {
        StartStep::Connect { request, .. } => assert_eq!(request.auth_token, "secret-a"),
        _ => panic!("expected a connection attempt"),
    }
}

#[test]
fn changed_token_is_used_by_the_next_start() {
    let mut core = embedded_core();
    let _ = core.start(token("secret-a"));
    core.connect_finished(1, Ok(())).unwrap();
    assert!(auth_token_update_needed(&token("secret-a"), "secret-b"));
    assert_eq!(core.stop(), StopStep::Done { signalled: true });
    assert_eq!(
        core.reinitialize(token("secret-b")),
        Reinitialized { signalled: false, generation: Some(2) }
    );
    assert_eq!(known(core.status(None, 0)), SecureLinkClientState::Stopped);
    match core.start(None) {
        StartStep::Connect { generation, request } => {
            assert_eq!(generation, 2);
            assert_eq!(request.auth_token, "secret-b");
        }
        _ => panic!("expected a connection attempt with the new token"),
    }
}

#[test]
fn same_token_update_needs_nothing() {
    assert!(!auth_token_update_needed(&token("secret-a"), "secret-a"));
    let mut core = embedded_core();
    let _ = core.start(token("secret-a"));
    // nothing was rebuilt: the generation and the pending state remain
    assert_eq!(core.generation(), Some(1));
    assert_eq!(known(core.status(None, 0)), SecureLinkClientState::Pending);
}

#[test]
fn reinitialize_signals_the_old_run() {
    let mut core = embedded_core();
    let mut old = match core.start(token("secret-a")) {
        StartStep::Connect { request, .. } => request,
        _ => panic!("expected a connection attempt"),
    };
    assert_eq!(
        core.reinitialize(token("secret-b")),
        Reinitialized { signalled: true, generation: Some(2) }
    );
    assert_eq!(old.shutdown.try_recv(), Ok(()));
}

#[test]
fn reinitialize_without_token_leaves_no_client() {
    let mut core = embedded_core();
    let _ = core.ensure_created(token("secret-a"));
    assert_eq!(core.reinitialize(None), Reinitialized { signalled: false, generation: None });
    assert!(!core.has_client());
    assert!(matches!(core.start(None), StartStep::NoAuthToken));
}

#[test]
fn outcome_for_a_replaced_client_changes_nothing() {
    let mut core = embedded_core();
    let _ = core.start(token("secret-a"));
    let _ = core.reinitialize(token("secret-b"));
    assert_eq!(core.connect_finished(1, Ok(())), Ok(()));
    assert_eq!(known(core.status(None, 0)), SecureLinkClientState::Stopped);
    assert_eq!(
        core.connect_finished(1, Err(LinkConnectError::Unauthorized)),
        Err(SecureLinkClientError::UnauthorizedError)
    );
}

#[test]
fn unauthorized_connect_leaves_core_stopped() {
    let mut core = embedded_core();
    let _ = core.start(token("secret-a"));
    assert_eq!(
        core.connect_finished(1, Err(LinkConnectError::Unauthorized)),
        Err(SecureLinkClientError::UnauthorizedError)
    );
    assert_eq!(known(core.status(None, 0)), SecureLinkClientState::Stopped);
}

#[test]
fn stop_then_stop_signals_once() {
    let mut core = embedded_core();
    let mut req = match core.start(token("secret-a")) {
        StartStep::Connect { request, .. } => request,
        _ => panic!("expected a connection attempt"),
    };
    assert_eq!(core.stop(), StopStep::Done { signalled: true });
    assert_eq!(core.stop(), StopStep::Done { signalled: false });
    assert_eq!(req.shutdown.try_recv(), Ok(()));
    assert!(req.shutdown.try_recv().is_err());
}

#[test]
fn stop_before_connect_settles_to_stopped() {
    let mut core = embedded_core();
    let mut req = match core.start(token("secret-a")) {
        StartStep::Connect { request, .. } => request,
        _ => panic!("expected a connection attempt"),
    };
    assert_eq!(core.stop(), StopStep::Done { signalled: true });
    assert_eq!(req.shutdown.try_recv(), Ok(()));
    core.run_ended(1);
    assert_eq!(known(core.status(None, 0)), SecureLinkClientState::Stopped);
}

#[test]
fn stop_without_client_is_a_no_op() {
    let mut core = embedded_core();
    assert_eq!(core.stop(), StopStep::Done { signalled: false });
    assert!(!core.has_client());
}

#[test]
fn core_service_client_start_is_idempotent() {
    let mut core = SecureLinkLifecycle::new(BackendKind::WindowsServiceClient, "h", 7, "C:/svc.log");
    match core.start(token("secret-a")) {
        StartStep::StartService { generation, start_request } => {
            assert_eq!(generation, 1);
            assert_eq!(start_request.server_host, "h");
            assert_eq!(start_request.server_port, 7);
            assert_eq!(start_request.auth_token, "secret-a");
            assert_eq!(start_request.service_log_file_path, "C:/svc.log");
        }
        _ => panic!("expected a service start"),
    }
    // while the start is under way, and after it succeeded
    assert!(matches!(core.start(None), StartStep::AlreadyActive));
    assert_eq!(core.service_start_finished(1, Ok(())), Ok(()));
    assert!(matches!(core.start(None), StartStep::AlreadyActive));
    assert!(matches!(core.start(None), StartStep::AlreadyActive));
    // after a stop the service is asked again
    assert_eq!(core.stop(), StopStep::StopService { generation: 1 });
    assert_eq!(core.service_stop_finished(1, Ok(())), Ok(()));
    assert!(matches!(core.start(None), StartStep::StartService { generation: 1, .. }));
}

#[test]
fn service_client_outcomes_are_mapped() {
    let mut core = SecureLinkLifecycle::new(BackendKind::WindowsServiceClient, "h", 7, "C:/svc.log");
    assert!(matches!(core.start(token("secret-a")), StartStep::StartService { .. }));
    assert_eq!(
        core.service_start_finished(1, Err(ServiceStartError::Network("offline".to_string()))),
        Err(SecureLinkClientError::NetworkError("offline".to_string()))
    );
    // a failed start allows another one
    assert!(matches!(core.start(None), StartStep::StartService { .. }));
    assert_eq!(core.stop(), StopStep::StopService { generation: 1 });
    assert_eq!(
        core.service_stop_finished(1, Err("denied".to_string())),
        Err(SecureLinkClientError::ServiceError("denied".to_string()))
    );
    assert_eq!(core.status(None, 0), StatusStep::QueryService { generation: 1 });
    assert_eq!(core.status(None, 1), StatusStep::QueryService { generation: 1 });
    assert_eq!(
        core.service_status_finished(1, 1, Ok(ServiceState::PausePending)),
        Ok(SecureLinkClientState::Pending)
    );
    // the service was learnt to be in transition: no new start
    assert!(matches!(core.start(None), StartStep::AlreadyActive));
}

#[test]
fn debounced_service_status_is_reused_within_window() {
    let kind = BackendKind::WindowsService { debounce_millis: 100 };
    let mut core = SecureLinkLifecycle::new(kind, "h", 7, "C:/svc.log");
    assert_eq!(core.status(token("secret-a"), 1_000), StatusStep::QueryService { generation: 1 });
    assert_eq!(
        core.service_status_finished(1, 1_000, Ok(ServiceState::Running)),
        Ok(SecureLinkClientState::Running)
    );
    assert_eq!(core.status(None, 1_050), StatusStep::Known(SecureLinkClientState::Running));
    assert_eq!(core.status(None, 1_100), StatusStep::QueryService { generation: 1 });
    // a start forgets the remembered answer
    core.service_status_finished(1, 1_100, Ok(ServiceState::Stopped)).unwrap();
    assert!(matches!(core.start(None), StartStep::StartService { .. }));
    assert_eq!(core.status(None, 1_110), StatusStep::QueryService { generation: 1 });
    assert_eq!(core.service_start_finished(1, Ok(())), Ok(()));
    assert!(matches!(core.start(None), StartStep::AlreadyActive));
    // stop forgets it too
    core.service_status_finished(1, 1_200, Ok(ServiceState::Running)).unwrap();
    assert_eq!(core.stop(), StopStep::StopService { generation: 1 });
    assert_eq!(core.status(None, 1_210), StatusStep::QueryService { generation: 1 });
}

#[test]
fn status_answer_for_a_replaced_client_is_not_remembered() {
    let kind = BackendKind::WindowsService { debounce_millis: 100 };
    let mut core = SecureLinkLifecycle::new(kind, "h", 7, "C:/svc.log");
    let _ = core.ensure_created(token("secret-a"));
    let _ = core.reinitialize(token("secret-b"));
    assert_eq!(
        core.service_status_finished(1, 0, Ok(ServiceState::Running)),
        Ok(SecureLinkClientState::Running)
    );
    assert_eq!(core.status(None, 10), StatusStep::QueryService { generation: 2 });
}
