use kanidm_init::client::ConflictCheck;
use kanidm_init::error::{AppError, AppResult, KanidmError};

fn http_failure(status: u16) -> KanidmError {
    KanidmError { http_status: Some(status), description: format!("Http({}, None, \"opid\")", status) }
}

#[test]
fn conflict_is_found_through_context_layers() {
    let e = AppError::Kanidm(http_failure(409))
        .context("Failed to create person")
        .context("Failed to ensure person exists");
    assert!(e.is_conflict());
}

#[test]
fn other_statuses_are_not_conflicts() {
    assert!(!AppError::Kanidm(http_failure(404)).is_conflict());
    assert!(!AppError::Kanidm(http_failure(500)).context("x").is_conflict());
    let transport = KanidmError { http_status: None, description: "Transport".to_string() };
    assert!(!AppError::Kanidm(transport).is_conflict());
}

#[test]
fn non_client_errors_are_never_conflicts() {
    assert!(!AppError::Io("disk".to_string()).is_conflict());
    assert!(!AppError::Toml("bad".to_string()).is_conflict());
    assert!(!AppError::Other("409".to_string()).is_conflict());
}

#[test]
fn result_conflict_check() {
    let ok: AppResult<u8> = Ok(1);
    assert!(!ok.is_conflict());
    let conflict: AppResult<u8> = Err(AppError::Kanidm(http_failure(409)).context("c"));
    assert!(conflict.is_conflict());
    let other: AppResult<u8> = Err(AppError::Other("no".to_string()));
    assert!(!other.is_conflict());
}

#[test]
fn render_each_kind() {
    assert_eq!(AppError::Io("No such file".to_string()).render(), "IO error: No such file");
    assert_eq!(AppError::Toml("bad key".to_string()).render(), "Config parse error: bad key");
    assert_eq!(
        AppError::Kanidm(KanidmError { http_status: None, description: "AuthenticationFailed".to_string() })
            .render(),
        "Kanidm client error: AuthenticationFailed"
    );
    assert_eq!(AppError::Other("boom".to_string()).render(), "Unknown error: boom");
}

#[test]
fn render_puts_context_in_front() {
    let e = AppError::Io("denied".to_string()).context("Failed to read").context("Outer");
    assert_eq!(e.render(), "Outer: Failed to read: IO error: denied");
}

#[test]
fn context_wraps_the_error() {
    let e = AppError::Other("inner".to_string()).context("what was done");
    match e {
        AppError::WithContext { message, source } => {
            assert_eq!(message, "what was done");
            assert!(matches!(*source, AppError::Other(ref m) if m == "inner"));
        }
        _ => panic!("not wrapped"),
    }
}

#[test]
fn from_client_failure() {
    let e: AppError = AppError::from(http_failure(409));
    assert!(matches!(e, AppError::Kanidm(ref k) if k.http_status == Some(409)));
    assert!(e.is_conflict());
}
