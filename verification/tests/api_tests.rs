use moxen::common::MoxenError;
use moxen::moxen::api::api_url;
use moxen::moxen::api::interpret_challenge_response;
use moxen::moxen::api::interpret_fetch_response;
use moxen::moxen::api::interpret_publish_response;
use moxen::moxen::api::interpret_recovery_response;
use moxen::moxen::api::interpret_signup_response;
use moxen::moxen::api::response::DownloadPackageResponse;
use moxen::moxen::api::response::UserRecoveryResponse;
use moxen::moxen::api::response::UserRegisterResponse;

fn fetch_body(error: Option<&str>) -> DownloadPackageResponse {
    DownloadPackageResponse {
        manifest: "name = \"pkg\"".to_string(),
        package: vec![1, 2, 3],
        error: error.map(|e| e.to_string()),
    }
}

#[test]
fn base_endpoint_is_fixed() {
    assert_eq!(api_url(), "https://localhost:9443");
}

#[test]
fn fetch_ok_hands_back_manifest_and_package() {
    let (manifest, package) = interpret_fetch_response(200, fetch_body(None)).unwrap();
    assert_eq!(manifest, "name = \"pkg\"");
    assert_eq!(package, vec![1, 2, 3]);
}

#[test]
fn fetch_not_found_is_unknown_project() {
    match interpret_fetch_response(404, fetch_body(Some("no such mox"))) {
        Err(MoxenError::ProjectNotFound(msg)) => assert_eq!(msg, "no such mox"),
        other => panic!("expected an unknown-project error, got {:?}", other),
    }
}

#[test]
fn fetch_other_status_is_registry_error() {
    match interpret_fetch_response(500, fetch_body(Some("server down"))) {
        Err(MoxenError::ApiError(msg)) => assert_eq!(msg, "server down"),
        other => panic!("expected a registry error, got {:?}", other),
    }
    match interpret_fetch_response(500, fetch_body(None)) {
        Err(MoxenError::ApiError(msg)) => assert_eq!(msg, ""),
        other => panic!("expected a registry error, got {:?}", other),
    }
}

#[test]
fn publish_statuses_map_one_to_one() {
    assert!(interpret_publish_response(201, String::new()).is_ok());
    assert!(matches!(
        interpret_publish_response(409, String::new()),
        Err(MoxenError::ProjectAlreadyExists)
    ));
    match interpret_publish_response(401, String::new()) {
        Err(MoxenError::ApiError(msg)) => assert_eq!(msg, "invalid api key"),
        other => panic!("expected an invalid-key error, got {:?}", other),
    }
    match interpret_publish_response(500, "body text".to_string()) {
        Err(MoxenError::ApiError(msg)) => assert_eq!(msg, "body text"),
        other => panic!("expected a registry error, got {:?}", other),
    }
}

#[test]
fn challenge_ok_returns_text_else_error() {
    assert_eq!(interpret_challenge_response(200, "nonce".to_string()).unwrap(), "nonce");
    match interpret_challenge_response(503, "unavailable".to_string()) {
        Err(MoxenError::ApiError(msg)) => assert_eq!(msg, "unavailable"),
        other => panic!("expected a registry error, got {:?}", other),
    }
}

#[test]
fn signup_created_hands_back_key_and_codes() {
    let data = UserRegisterResponse {
        api_key: "SECRET-REDACTED".to_string(),
        recovery_codes: vec!["c1".to_string(), "c2".to_string()],
        error: None,
    };
    let (key, codes) = interpret_signup_response(201, data).unwrap();
    assert_eq!(key, "SECRET-REDACTED");
    assert_eq!(codes, vec!["c1".to_string(), "c2".to_string()]);
    let denied = UserRegisterResponse {
        api_key: String::new(),
        recovery_codes: vec![],
        error: Some("name taken".to_string()),
    };
    match interpret_signup_response(400, denied) {
        Err(MoxenError::ApiError(msg)) => assert_eq!(msg, "name taken"),
        other => panic!("expected a registry error, got {:?}", other),
    }
}

#[test]
fn recovery_statuses_map_one_to_one() {
    let ok = UserRecoveryResponse { api_key: "fresh".to_string(), error: None };
    assert_eq!(interpret_recovery_response(200, ok).unwrap(), "fresh");
    let denied = UserRecoveryResponse {
        api_key: String::new(),
        error: Some("bad code".to_string()),
    };
    match interpret_recovery_response(401, denied) {
        Err(MoxenError::AuthError(msg)) => assert_eq!(msg, "bad code"),
        other => panic!("expected an authentication error, got {:?}", other),
    }
    let broken = UserRecoveryResponse { api_key: String::new(), error: None };
    match interpret_recovery_response(500, broken) {
        Err(MoxenError::ApiError(msg)) => assert_eq!(msg, ""),
        other => panic!("expected a registry error, got {:?}", other),
    }
}
