use kanidm_init::client::{ca_trust, ca_trust_for, CaTrust, KanidmCall};
use kanidm_init::error::{AppError, KanidmError};

fn refused() -> KanidmError {
    KanidmError { http_status: Some(403), description: "Http(403)".to_string() }
}

#[test]
fn call_failure_sentences() {
    let cases = [
        (KanidmCall::CreatePerson, "Failed to create person"),
        (KanidmCall::IssueResetToken, "Failed to generate reset token intent"),
        (KanidmCall::AddToGroup, "Failed to add person to group"),
        (KanidmCall::GetPerson, "Failed to get person entry"),
        (KanidmCall::DeletePerson, "Failed to delete person"),
        (KanidmCall::GetGroup, "Failed to get group entry"),
        (KanidmCall::CreateApp, "Failed to create oauth2 app"),
        (KanidmCall::AddRedirectUrl, "Failed to add redirect URL"),
        (KanidmCall::UpdateScopeMap, "Failed to update scope map"),
        (KanidmCall::DeleteApp, "Failed to delete oauth2 app"),
        (KanidmCall::LoadCaCertificate, "Failed to load CA certificate"),
        (KanidmCall::BuildClient, "Failed to build Kanidm client"),
        (KanidmCall::Authenticate, "Authentication failed with recovery code"),
    ];
    for (call, text) in cases {
        assert_eq!(call.context(), text);
        assert_eq!(call.fail(refused()).render(), format!("{}: Kanidm client error: Http(403)", text));
    }
}

#[test]
fn call_outcomes() {
    assert_eq!(KanidmCall::IssueResetToken.outcome(Ok("tok".to_string())).unwrap(), "tok");
    let e = KanidmCall::CreatePerson.outcome::<()>(Err(refused())).unwrap_err();
    assert!(matches!(e, AppError::WithContext { .. }));
    assert!(!e.is_conflict());
}

#[test]
fn trust_decisions() {
    assert_eq!(ca_trust_for("/ca.pem", true, false).unwrap(), CaTrust::RootCertificate);
    assert_eq!(ca_trust_for("/ca.pem", true, true).unwrap(), CaTrust::RootCertificate);
    assert_eq!(ca_trust_for("/ca.pem", false, true).unwrap(), CaTrust::AcceptInvalidCertificates);
    match ca_trust_for("/ca.pem", false, false) {
        Err(AppError::Other(m)) => assert_eq!(m, "Production error: CA certificate not found at /ca.pem"),
        other => panic!("unexpected {:?}", other),
    }
}

#[test]
fn trust_with_missing_file_on_disk() {
    let path = "/nonexistent/kanidm_init/ca.pem";
    assert_eq!(ca_trust(path, true).unwrap(), CaTrust::AcceptInvalidCertificates);
    assert!(ca_trust(path, false).is_err());
}
