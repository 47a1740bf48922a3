use kanidm_init::error::AppError;
use kanidm_init::{recovery_result, ApiResponse, RecoveryOutcome, RecoveryReply};

fn other(r: Result<String, AppError>) -> String {
    match r {
        Err(AppError::Other(m)) => m,
        other => panic!("unexpected {:?}", other),
    }
}

#[test]
fn recovered_password_is_returned() {
    let r = recovery_result(
        "/data/server.toml",
        RecoveryOutcome::Replied(RecoveryReply::Recovered { password: "pw".to_string() }),
    );
    assert_eq!(r.unwrap(), "pw");
}

#[test]
fn recovery_replies_that_fail() {
    let p = "/data/server.toml";
    assert_eq!(
        other(recovery_result(p, RecoveryOutcome::Replied(RecoveryReply::ServerError))),
        "The server encountered an error processing the recovery. Check server logs."
    );
    assert_eq!(
        other(recovery_result(p, RecoveryOutcome::Replied(RecoveryReply::Protocol("Eof".to_string())))),
        "Codec/Protocol error: Eof"
    );
    assert_eq!(
        other(recovery_result(p, RecoveryOutcome::Replied(RecoveryReply::Closed))),
        "The admin socket was closed unexpectedly."
    );
    assert_eq!(
        other(recovery_result(p, RecoveryOutcome::Replied(RecoveryReply::Unexpected))),
        "Received an unexpected response type from the server."
    );
}

#[test]
fn recovery_stops_that_fail() {
    let p = "/data/server.toml";
    let e = recovery_result(p, RecoveryOutcome::ConfigUnreadable("bad toml".to_string())).unwrap_err();
    assert_eq!(e.render(), "Failed to parse server config at /data/server.toml: Unknown error: bad toml");
    assert_eq!(
        other(recovery_result(p, RecoveryOutcome::ConfigIncomplete)),
        "Configuration build failed. Check the error messages above for missing settings (like TLS or Domain)."
    );
    let e = recovery_result(
        p,
        RecoveryOutcome::ConnectFailed { socket: "/data/kanidmd.sock".to_string(), message: "refused".to_string() },
    )
    .unwrap_err();
    assert_eq!(e.render(), "Failed to connect to admin socket at /data/kanidmd.sock: IO error: refused");
    assert_eq!(
        other(recovery_result(p, RecoveryOutcome::SendFailed("BrokenPipe".to_string()))),
        "Failed to send recovery request: BrokenPipe"
    );
    assert_eq!(
        other(recovery_result(p, RecoveryOutcome::FlushFailed("BrokenPipe".to_string()))),
        "Failed to flush admin socket: BrokenPipe"
    );
}

#[test]
fn api_response_shapes() {
    let ok: ApiResponse<u32> = ApiResponse::Success(7);
    assert!(matches!(ok, ApiResponse::Success(7)));
    let err: ApiResponse<u32> = ApiResponse::Error { message: "m".to_string(), code: Some(409) };
    assert!(matches!(err, ApiResponse::Error { code: Some(409), .. }));
}
