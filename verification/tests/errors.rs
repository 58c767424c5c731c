use i_uploader::auth::auth_validator;
use i_uploader::{Opt, WebError};

fn all_errors() -> Vec<WebError> {
    vec![
        WebError::AuthenticationFailed,
        WebError::EmptyUpload,
        WebError::IoError("disk full".into()),
        WebError::ThreadPoolError("task panicked".into()),
        WebError::InvalidUrl,
        WebError::BadRequest,
        WebError::InvalidImage,
    ]
}

#[test]
fn status_of_each_error() {
    let codes: Vec<u16> = all_errors().iter().map(|e| e.status_code()).collect();
    assert_eq!(codes, vec![401, 400, 500, 500, 500, 400, 400]);
}

#[test]
fn message_of_each_error() {
    let texts: Vec<String> = all_errors().iter().map(|e| e.message()).collect();
    assert_eq!(
        texts,
        vec![
            "authentication failed",
            "tried to upload empty file",
            "i/o error: disk full",
            "thread pool error: task panicked",
            "invalid url",
            "bad request",
            "image error",
        ]
    );
}

#[test]
fn body_of_each_error() {
    let bodies: Vec<String> = all_errors().iter().map(|e| e.into_response().body).collect();
    assert_eq!(
        bodies,
        vec![
            "unauthorized",
            "tried to upload empty file",
            "i/o error",
            "internal error",
            "invalid url",
            "bad request",
            "invalid image",
        ]
    );
}

#[test]
fn only_a_failed_authentication_is_challenged() {
    for error in all_errors() {
        let response = error.into_response();
        assert_eq!(response.status, error.status_code());
        if error == WebError::AuthenticationFailed {
            assert_eq!(response.challenge.as_deref(), Some("Basic realm=\"i: file upload\""));
        } else {
            assert_eq!(response.challenge, None);
        }
    }
}

fn opt_with(user: Option<&str>, pass: Option<&str>) -> Opt {
    Opt {
        auth_user: user.map(String::from),
        auth_pass: pass.map(String::from),
        ..Opt::default()
    }
}

#[test]
fn open_service_lets_everyone_pass() {
    let opt = opt_with(None, None);
    assert_eq!(auth_validator(&opt, None), Ok(()));
    assert_eq!(auth_validator(&opt, Some(("anyone", "anything"))), Ok(()));
}

#[test]
fn half_configured_service_is_open() {
    assert_eq!(auth_validator(&opt_with(Some("admin"), None), None), Ok(()));
    assert_eq!(auth_validator(&opt_with(None, Some("secret")), Some(("x", "y"))), Ok(()));
}

#[test]
fn protected_service_wants_both_to_match() {
    let opt = opt_with(Some("admin"), Some("secret"));
    assert_eq!(auth_validator(&opt, Some(("admin", "secret"))), Ok(()));
    for creds in [("admin", "wrong"), ("root", "secret"), ("secret", "admin"), ("", ""), ("admin", "secret ")] {
        assert_eq!(auth_validator(&opt, Some(creds)), Err(WebError::AuthenticationFailed));
    }
}

#[test]
fn protected_service_wants_credentials() {
    let opt = opt_with(Some("admin"), Some("secret"));
    assert_eq!(auth_validator(&opt, None), Err(WebError::AuthenticationFailed));
}
