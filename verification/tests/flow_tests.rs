use kanidm_init::conf::{BootstrapConfig, KanidmConfig};
use kanidm_init::error::{AppError, KanidmError};
use kanidm_init::logic::{BootstrapFlow, FlowAction, FlowEvent, FlowStage};

fn server_config() -> KanidmConfig {
    KanidmConfig {
        version: "2".to_string(),
        bindaddress: "[::]:8443".to_string(),
        db_path: "/data/kanidm.db".to_string(),
        tls_chain: "/data/chain.pem".to_string(),
        tls_key: "/data/key.pem".to_string(),
        domain: "idm.example.internal".to_string(),
        origin: "https://idm.example.internal".to_string(),
    }
}

fn conflict(ctx: &str) -> AppError {
    AppError::Kanidm(KanidmError { http_status: Some(409), description: "Http(409)".to_string() }).context(ctx)
}

fn failure(ctx: &str) -> AppError {
    AppError::Kanidm(KanidmError { http_status: Some(500), description: "Http(500)".to_string() }).context(ctx)
}

fn started() -> BootstrapFlow {
    let (flow, step) = BootstrapFlow::start(&server_config(), &BootstrapConfig::default());
    assert_eq!(step.notice.as_deref(), Some("Starting bootstrap flow..."));
    assert!(matches!(step.action, FlowAction::CheckAdmin));
    flow
}

fn finish_error(action: FlowAction) -> String {
    match action {
        FlowAction::Finish(Err(e)) => e.render(),
        other => panic!("unexpected {:?}", other),
    }
}

#[test]
fn whole_flow_when_every_call_succeeds() {
    let flow = started();
    let (flow, step) = flow.resume(FlowEvent::AdminChecked(Ok(false)));
    match &step.action {
        FlowAction::CreatePersonAndApp { person_id, person_display_name, app_name, app_display_name, origin } => {
            assert_eq!(person_id, "default_idm_admin");
            assert_eq!(person_display_name, "Default Administrator");
            assert_eq!(app_name, "internal_admin_portal");
            assert_eq!(app_display_name, "Internal Admin Portal");
            assert_eq!(origin, "https://idm.example.internal");
        }
        other => panic!("unexpected {:?}", other),
    }
    let (flow, step) = flow.resume(FlowEvent::Created { person: Ok(()), app: Ok(()) });
    assert!(matches!(step.action, FlowAction::AddToGroup { ref person_id, ref group_id }
        if person_id == "default_idm_admin" && group_id == "idm_admins"));
    let (flow, step) = flow.resume(FlowEvent::GroupUpdated(Ok(())));
    assert!(matches!(step.action, FlowAction::IssueResetToken { ref person_id } if person_id == "default_idm_admin"));
    let (flow, step) = flow.resume(FlowEvent::TokenIssued(Ok("tok123".to_string())));
    assert!(matches!(step.action, FlowAction::SaveReadme { ref token } if token == "tok123"));
    let (flow, step) = flow.resume(FlowEvent::ReadmeSaved(Ok(())));
    assert_eq!(step.notice.as_deref(), Some("Group membership updated and setup README saved."));
    match &step.action {
        FlowAction::ConfigureApp { app_name, redirect_url, scopes } => {
            assert_eq!(app_name, "internal_admin_portal");
            assert_eq!(redirect_url, "https://admin.idm.example.internal/callback");
            assert_eq!(scopes, &vec!["email", "profile", "openid"]);
        }
        other => panic!("unexpected {:?}", other),
    }
    let (flow, step) = flow.resume(FlowEvent::AppConfigured { redirect: Ok(()), scopes: Ok(()) });
    assert_eq!(step.notice.as_deref(), Some("Bootstrap successful."));
    assert!(matches!(step.action, FlowAction::Finish(Ok(()))));
    assert!(flow.is_finished());
}

#[test]
fn completed_setup_is_left_alone() {
    let (flow, step) = started().resume(FlowEvent::AdminChecked(Ok(true)));
    assert_eq!(step.notice.as_deref(), Some("Initial setup is already complete."));
    assert!(matches!(step.action, FlowAction::Finish(Ok(()))));
    assert!(matches!(flow.stage, FlowStage::Finished));
}

#[test]
fn failed_admin_check_is_reported() {
    let (_, step) = started().resume(FlowEvent::AdminChecked(Err(AppError::Other("x".to_string()))));
    match step.action {
        FlowAction::Finish(Err(AppError::Other(m))) => {
            assert_eq!(m, "Failed to verify administrator status: Unknown error: x")
        }
        other => panic!("unexpected {:?}", other),
    }
}

#[test]
fn existing_person_and_app_are_reused() {
    let (flow, _) = started().resume(FlowEvent::AdminChecked(Ok(false)));
    let (flow, step) = flow.resume(FlowEvent::Created {
        person: Err(conflict("Failed to create person")),
        app: Err(conflict("Failed to create oauth2 app")),
    });
    assert!(matches!(step.action, FlowAction::AddToGroup { .. }));
    let (flow, _) = flow.resume(FlowEvent::GroupUpdated(Ok(())));
    let (flow, _) = flow.resume(FlowEvent::TokenIssued(Ok("t".to_string())));
    let (_, step) = flow.resume(FlowEvent::ReadmeSaved(Ok(())));
    assert!(matches!(step.action, FlowAction::ConfigureApp { .. }));
}

#[test]
fn person_creation_failure_stops() {
    let (flow, _) = started().resume(FlowEvent::AdminChecked(Ok(false)));
    let (flow, step) = flow.resume(FlowEvent::Created { person: Err(failure("Failed to create person")), app: Ok(()) });
    assert_eq!(
        finish_error(step.action),
        "Failed to ensure person exists: Failed to create person: Kanidm client error: Http(500)"
    );
    assert!(flow.is_finished());
}

#[test]
fn group_and_token_failures_stop() {
    let (flow, _) = started().resume(FlowEvent::AdminChecked(Ok(false)));
    let (flow, _) = flow.resume(FlowEvent::Created { person: Ok(()), app: Ok(()) });
    let (_, step) = flow.resume(FlowEvent::GroupUpdated(Err(AppError::Other("g".to_string()))));
    assert_eq!(finish_error(step.action), "Failed to add to group: Unknown error: g");

    let (flow, _) = started().resume(FlowEvent::AdminChecked(Ok(false)));
    let (flow, _) = flow.resume(FlowEvent::Created { person: Ok(()), app: Ok(()) });
    let (flow, _) = flow.resume(FlowEvent::GroupUpdated(Ok(())));
    let (_, step) = flow.resume(FlowEvent::TokenIssued(Err(AppError::Other("t".to_string()))));
    assert_eq!(finish_error(step.action), "Failed to generate reset token: Unknown error: t");
}

#[test]
fn readme_failure_is_passed_on_unchanged() {
    let (flow, _) = started().resume(FlowEvent::AdminChecked(Ok(false)));
    let (flow, _) = flow.resume(FlowEvent::Created { person: Ok(()), app: Ok(()) });
    let (flow, _) = flow.resume(FlowEvent::GroupUpdated(Ok(())));
    let (flow, _) = flow.resume(FlowEvent::TokenIssued(Ok("t".to_string())));
    let (_, step) = flow.resume(FlowEvent::ReadmeSaved(Err(AppError::Io("full".to_string()))));
    assert_eq!(finish_error(step.action), "IO error: full");
}

#[test]
fn app_creation_failure_reported_after_readme() {
    let (flow, _) = started().resume(FlowEvent::AdminChecked(Ok(false)));
    let (flow, _) = flow.resume(FlowEvent::Created { person: Ok(()), app: Err(failure("Failed to create oauth2 app")) });
    let (flow, _) = flow.resume(FlowEvent::GroupUpdated(Ok(())));
    let (flow, _) = flow.resume(FlowEvent::TokenIssued(Ok("t".to_string())));
    let (_, step) = flow.resume(FlowEvent::ReadmeSaved(Ok(())));
    assert_eq!(step.notice.as_deref(), Some("Group membership updated and setup README saved."));
    assert_eq!(
        finish_error(step.action),
        "Failed to create OAuth2 app: Failed to create oauth2 app: Kanidm client error: Http(500)"
    );
}

#[test]
fn configuration_failures() {
    let configured = || {
        let (flow, _) = started().resume(FlowEvent::AdminChecked(Ok(false)));
        let (flow, _) = flow.resume(FlowEvent::Created { person: Ok(()), app: Ok(()) });
        let (flow, _) = flow.resume(FlowEvent::GroupUpdated(Ok(())));
        let (flow, _) = flow.resume(FlowEvent::TokenIssued(Ok("t".to_string())));
        let (flow, _) = flow.resume(FlowEvent::ReadmeSaved(Ok(())));
        flow
    };
    let (_, step) = configured().resume(FlowEvent::AppConfigured {
        redirect: Err(AppError::Other("r".to_string())),
        scopes: Err(AppError::Other("s".to_string())),
    });
    assert_eq!(finish_error(step.action), "Failed to set redirect URL: Unknown error: r");
    let (_, step) = configured().resume(FlowEvent::AppConfigured {
        redirect: Ok(()),
        scopes: Err(AppError::Other("s".to_string())),
    });
    assert_eq!(finish_error(step.action), "Failed to sync scopes: Unknown error: s");
}

#[test]
fn flow_expects_the_matching_event() {
    let flow = started();
    assert!(flow.expects(&FlowEvent::AdminChecked(Ok(true))));
    assert!(!flow.expects(&FlowEvent::GroupUpdated(Ok(()))));
    let (flow, _) = flow.resume(FlowEvent::AdminChecked(Ok(true)));
    assert!(!flow.expects(&FlowEvent::AdminChecked(Ok(true))));
}
