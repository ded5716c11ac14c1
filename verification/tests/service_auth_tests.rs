use timez::api_types::{project_from_api, projects_from_api, verify_handshake, ApiProject, SyncTimeResponse};
use timez::auth::{auth_action, auth_header, get_token, token_after, AuthAction, AuthTokenState};
use timez::service::{
    admission_of, check_handled, envelope, response_result, route_request, startup_order,
    startup_verdict, Admission, Request, RequestEnvelope, ServiceKind, StartupProbe,
    StartupVerdict, REQUEST_TOKEN,
};

#[test]
fn auth_token_state() {
    let s = AuthTokenState::new();
    assert!(!s.is_authenticated());
    assert_eq!(get_token(&s), None);
    let mut s = AuthTokenState::with_token("tok".to_string());
    assert!(s.is_authenticated());
    assert_eq!(get_token(&s), Some("tok".to_string()));
    s.clear_access_token();
    assert!(!s.is_authenticated());
    s.store_access_token("t2".to_string());
    assert_eq!(s.access_token.as_deref(), Some("t2"));
    assert!(!AuthTokenState::default().is_authenticated());
}

#[test]
fn bearer_header() {
    assert_eq!(auth_header(&Some("abc".to_string())), Some("Bearer abc".to_string()));
    assert_eq!(auth_header(&None), None);
}

#[test]
fn service_kinds() {
    assert_eq!(ServiceKind::Auth.socket_path(), "/tmp/timez-auth-service.sock");
    assert_eq!(ServiceKind::Task.socket_path(), "/tmp/timez-task-service.sock");
    assert_eq!(ServiceKind::Tracker.socket_path(), "/tmp/timez-tracker-service.sock");
    assert_eq!(ServiceKind::IdleTime.socket_path(), "/tmp/timez-idle-time-service.sock");
    assert_eq!(ServiceKind::Quit.socket_path(), "/tmp/timez-quit-service.sock");
    assert_eq!(ServiceKind::Auth.port(), 23401);
    assert_eq!(ServiceKind::Quit.port(), 23405);
    assert_eq!(ServiceKind::IdleTime.binary_name(), "timez-idle-time-service");
    assert_eq!(startup_order()[0], ServiceKind::Task);
    assert_eq!(startup_order().len(), 5);
}

#[test]
fn requests_go_to_a_service_that_handles_them() {
    let requests = vec![
        Request::ListTasks,
        Request::StartTimer { task_id: 1 },
        Request::GetActivityStats,
        Request::GoogleLogin { google_id_token: "t".to_string() },
        Request::Logout,
        Request::GetIdleEvent,
        Request::ResolveIdleEvent,
        Request::CheckMidnightReset,
        Request::ListProjectTasks { project_id: 3 },
        Request::GetSyncStatus,
        Request::Shutdown,
    ];
    for r in &requests {
        let kind = route_request(r);
        assert!(check_handled(kind, r).is_ok());
    }
    assert_eq!(route_request(&Request::Logout), ServiceKind::Auth);
    assert_eq!(route_request(&Request::GetActivityStats), ServiceKind::Tracker);
    assert_eq!(route_request(&Request::GetIdleEvent), ServiceKind::IdleTime);
    assert_eq!(route_request(&Request::Shutdown), ServiceKind::Quit);
    assert_eq!(route_request(&Request::RetrySyncFailed), ServiceKind::Task);
    assert_eq!(
        check_handled(ServiceKind::Quit, &Request::ListTasks),
        Err("Unsupported request for quit service".to_string())
    );
    assert_eq!(
        check_handled(ServiceKind::IdleTime, &Request::Logout),
        Err("Unsupported request for idle-time service".to_string())
    );
}

#[test]
fn admission_checks_the_shared_secret() {
    let e = envelope(Request::Shutdown);
    assert_eq!(e.token, REQUEST_TOKEN);
    match admission_of(e) {
        Admission::Accepted { request: Request::Shutdown, shutdown } => assert!(shutdown),
        other => panic!("unexpected {other:?}"),
    }
    match admission_of(envelope(Request::ListTasks)) {
        Admission::Accepted { shutdown, .. } => assert!(!shutdown),
        other => panic!("unexpected {other:?}"),
    }
    let bad = RequestEnvelope { token: "nope".to_string(), request: Request::ListTasks };
    match admission_of(bad) {
        Admission::Refused(m) => assert_eq!(m, "Unauthorized request"),
        other => panic!("unexpected {other:?}"),
    }
}

#[test]
fn reply_envelopes_read_back() {
    assert_eq!(response_result(true, Some(5), None), Ok(5));
    assert_eq!(response_result::<i32>(true, None, None), Err("Missing response payload".to_string()));
    assert_eq!(response_result::<i32>(false, Some(1), Some("boom".to_string())), Err("boom".to_string()));
    assert_eq!(response_result::<i32>(false, None, None), Err("Unknown service error".to_string()));
}

#[test]
fn startup_verdicts() {
    let (t, a) = (ServiceKind::Task, ServiceKind::Auth);
    assert_eq!(startup_verdict(&vec![(t, StartupProbe::Ready), (a, StartupProbe::Ready)]), StartupVerdict::AllReady);
    assert_eq!(startup_verdict(&vec![(t, StartupProbe::Ready), (a, StartupProbe::NotReady)]), StartupVerdict::Wait);
    assert_eq!(
        startup_verdict(&vec![
            (t, StartupProbe::NotReady),
            (a, StartupProbe::Exited("exit status: 1".to_string())),
            (ServiceKind::Quit, StartupProbe::Exited("later".to_string())),
        ]),
        StartupVerdict::Failed("timez-auth-service exited during startup with status exit status: 1".to_string())
    );
}

#[test]
fn auth_service_actions() {
    match auth_action(Request::ValidateToken { token: "t".to_string() }) {
        Ok(AuthAction::Validate { token }) => assert_eq!(token, "t"),
        other => panic!("unexpected {other:?}"),
    }
    assert!(matches!(auth_action(Request::Logout), Ok(AuthAction::Logout)));
    match auth_action(Request::ListTasks) {
        Err(m) => assert_eq!(m, "Unsupported request for auth service"),
        other => panic!("unexpected {other:?}"),
    }
    let access = Some("new".to_string());
    assert_eq!(
        token_after(&AuthAction::GoogleLogin { google_id_token: "g".to_string() }, &access),
        Some(Some("new".to_string()))
    );
    assert_eq!(token_after(&AuthAction::Logout, &access), Some(None));
    assert_eq!(token_after(&AuthAction::Shutdown, &access), None);
}

#[test]
fn handshake_must_confirm_the_task() {
    let ok = SyncTimeResponse { id: 1, task_id: 9, duration: Some(30), is_synced: true };
    assert_eq!(verify_handshake(9, ok), Ok(ok));
    assert_eq!(
        verify_handshake(8, ok),
        Err("Handshake failed: sent task_id=8, received task_id=9".to_string())
    );
}

#[test]
fn projects_default_their_task_count() {
    let ps = vec![
        ApiProject { id: 1, name: "A".to_string(), color: Some("#fff".to_string()), task_count: Some(4) },
        ApiProject { id: 2, name: "B".to_string(), color: None, task_count: None },
    ];
    let out = projects_from_api(&ps);
    assert_eq!(out.len(), 2);
    assert_eq!(out[0].task_count, 4);
    assert_eq!(out[1].task_count, 0);
    assert_eq!(out[1].name, "B");
    assert_eq!(project_from_api(&ps[0]).color.as_deref(), Some("#fff"));
}
