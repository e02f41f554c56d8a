use vfriends::auth::{
    begin_login, is_auth_error, login_probe_result, logout, restore_needs_probe, restore_result,
    two_factor_probe_result, verification_result, verify_two_factor, ApiError, AuthAction,
    AuthEvent, AuthRequest, AuthSession, AuthStep, AuthUser, ProbeResult, Restored,
    TwoFactorMethod,
};

fn err(message: &str, code: Option<&str>) -> ApiError {
    ApiError { message: message.to_string(), code: code.map(|c| c.to_string()) }
}

fn user() -> AuthUser {
    AuthUser { id: "usr_1".to_string(), display_name: "Nyx".to_string(), username: None }
}

fn failure_message(step: &AuthStep) -> Option<String> {
    match step {
        AuthStep::Done { outcome: AuthEvent::Failure { message, .. }, .. } => Some(message.clone()),
        _ => None,
    }
}

fn pending_session() -> AuthSession {
    let mut s = AuthSession::new(None);
    let step = begin_login(&mut s, "nyx", "secret");
    assert!(matches!(step, AuthStep::Send { .. }));
    let e = login_probe_result(&mut s, ProbeResult::RequiresTwoFactor(vec!["totp".to_string()]));
    assert!(matches!(e, AuthEvent::TwoFactorRequired { .. }));
    s
}

#[test]
fn empty_username_is_refused_locally() {
    let mut s = AuthSession::new(None);
    let step = begin_login(&mut s, "", "pwd");
    assert_eq!(failure_message(&step).as_deref(), Some("Please enter your username and password."));
    assert!(s.credentials.is_none());
    let step = begin_login(&mut s, "   ", "pwd");
    assert!(failure_message(&step).is_some());
}

#[test]
fn empty_password_is_refused_locally() {
    let mut s = AuthSession::new(Some("auth=abc".to_string()));
    let step = begin_login(&mut s, "nyx", "");
    assert!(matches!(step, AuthStep::Done { started: None, .. }));
    assert_eq!(s.cookie_header.as_deref(), Some("auth=abc"));
}

#[test]
fn login_stores_trimmed_credentials_and_probes() {
    let mut s = AuthSession::new(Some("auth=old".to_string()));
    let step = begin_login(&mut s, "  nyx ", " pw ");
    assert!(matches!(
        step,
        AuthStep::Send { started: Some(AuthAction::Credentials), request: AuthRequest::CurrentUser }
    ));
    assert_eq!(s.credentials, Some(("nyx".to_string(), " pw ".to_string())));
    assert!(s.cookie_header.is_none());
    assert!(!s.pending_two_factor);
}

#[test]
fn login_failure_clears_credentials() {
    let mut s = AuthSession::new(None);
    begin_login(&mut s, "nyx", "pw");
    let e = login_probe_result(&mut s, ProbeResult::Error(err("Invalid Username/Email or Password", Some("401"))));
    match e {
        AuthEvent::Failure { message, code } => {
            assert_eq!(message, "Invalid Username/Email or Password");
            assert_eq!(code.as_deref(), Some("401"));
        }
        _ => panic!("expected a failure"),
    }
    assert!(s.credentials.is_none());
}

#[test]
fn login_success_clears_credentials() {
    let mut s = AuthSession::new(None);
    begin_login(&mut s, "nyx", "pw");
    let e = login_probe_result(&mut s, ProbeResult::CurrentUser(user()));
    match e {
        AuthEvent::Success { user } => assert_eq!(user.display_name, "Nyx"),
        _ => panic!("expected a success"),
    }
    assert!(s.credentials.is_none());
    assert!(!s.pending_two_factor);
}

#[test]
fn two_factor_challenge_keeps_login_pending() {
    let s = pending_session();
    assert!(s.pending_two_factor);
    assert!(s.credentials.is_some());
}

#[test]
fn verify_without_pending_login_fails() {
    let s = AuthSession::new(None);
    let step = verify_two_factor(&s, "123456", "totp");
    assert_eq!(
        failure_message(&step).as_deref(),
        Some("2FA session not found. Please log in again")
    );
    assert!(matches!(step, AuthStep::Done { started: None, .. }));
}

#[test]
fn verify_checks_inputs_first() {
    let s = pending_session();
    assert_eq!(
        failure_message(&verify_two_factor(&s, "  ", "totp")).as_deref(),
        Some("Please enter your 2FA code")
    );
    assert_eq!(
        failure_message(&verify_two_factor(&s, "123456", " ")).as_deref(),
        Some("Please select a 2FA method")
    );
}

#[test]
fn verify_rejects_unknown_method() {
    let s = pending_session();
    let step = verify_two_factor(&s, "123456", "sms");
    assert!(matches!(step, AuthStep::Done { started: Some(AuthAction::TwoFactor), .. }));
    assert_eq!(failure_message(&step).as_deref(), Some("Unsupported 2FA method."));
}

#[test]
fn verify_dispatches_by_method() {
    let s = pending_session();
    let cases = [
        ("totp", TwoFactorMethod::Totp),
        ("emailOtp", TwoFactorMethod::EmailOtp),
        ("otp", TwoFactorMethod::RecoveryCode),
    ];
    for (name, method) in cases {
        match verify_two_factor(&s, " 123456 ", name) {
            AuthStep::Send {
                started: Some(AuthAction::TwoFactor),
                request: AuthRequest::Verify { method: m, code },
            } => {
                assert_eq!(m, method);
                assert_eq!(code, "123456");
            }
            _ => panic!("expected a verification call"),
        }
    }
    assert_eq!(TwoFactorMethod::from_name("TOTP"), None);
}

#[test]
fn chained_challenge_stays_pending() {
    let mut s = pending_session();
    assert!(matches!(verify_two_factor(&s, "123456", "totp"), AuthStep::Send { .. }));
    let next = verification_result(Ok(()));
    assert!(matches!(next, AuthStep::Send { started: None, request: AuthRequest::CurrentUser }));
    let e = two_factor_probe_result(
        &mut s,
        ProbeResult::RequiresTwoFactor(vec!["emailOtp".to_string()]),
    );
    match e {
        AuthEvent::TwoFactorRequired { methods, message } => {
            assert_eq!(methods, vec!["emailOtp".to_string()]);
            assert_eq!(message.as_deref(), Some("Another 2FA method is required"));
        }
        _ => panic!("expected another challenge"),
    }
    assert!(s.pending_two_factor);
}

#[test]
fn failed_verification_keeps_login_pending() {
    let mut s = pending_session();
    let step = verification_result(Err(err("Invalid code", Some("400"))));
    assert_eq!(failure_message(&step).as_deref(), Some("Invalid code"));
    let e = two_factor_probe_result(&mut s, ProbeResult::Error(err("timeout", None)));
    assert!(matches!(e, AuthEvent::Failure { .. }));
    assert!(s.pending_two_factor);
}

#[test]
fn verified_login_succeeds() {
    let mut s = pending_session();
    let e = two_factor_probe_result(&mut s, ProbeResult::CurrentUser(user()));
    assert!(matches!(e, AuthEvent::Success { .. }));
    assert!(!s.pending_two_factor);
    assert!(s.credentials.is_none());
}

#[test]
fn auth_errors_are_recognised() {
    assert!(is_auth_error("HTTP 401"));
    assert!(is_auth_error("request failed: HTTP 403 Forbidden"));
    assert!(!is_auth_error("HTTP 500"));
    assert!(!is_auth_error(""));
}

#[test]
fn restore_without_cookie_needs_no_probe() {
    assert!(!restore_needs_probe(&AuthSession::new(None)));
    assert!(restore_needs_probe(&AuthSession::new(Some("auth=abc".to_string()))));
}

#[test]
fn restore_outcomes() {
    let mut s = AuthSession::new(Some("auth=abc".to_string()));
    assert!(matches!(restore_result(&mut s, ProbeResult::CurrentUser(user())), Restored::Authenticated(_)));
    assert_eq!(s.cookie_header.as_deref(), Some("auth=abc"));

    let mut s = AuthSession::new(Some("auth=abc".to_string()));
    assert!(matches!(restore_result(&mut s, ProbeResult::Error(err("timed out", None))), Restored::Unchanged));
    assert_eq!(s.cookie_header.as_deref(), Some("auth=abc"));

    let mut s = AuthSession::new(Some("auth=abc".to_string()));
    assert!(matches!(restore_result(&mut s, ProbeResult::Error(err("HTTP 401", None))), Restored::Invalidated));
    assert!(s.cookie_header.is_none());

    let mut s = AuthSession::new(Some("auth=abc".to_string()));
    let r = restore_result(&mut s, ProbeResult::Error(err("Missing Credentials", Some("403"))));
    assert!(matches!(r, Restored::Invalidated));
    assert!(s.cookie_header.is_none());

    let mut s = AuthSession::new(Some("auth=abc".to_string()));
    let r = restore_result(&mut s, ProbeResult::Error(err("Service Unavailable", Some("503"))));
    assert!(matches!(r, Restored::Unchanged));
    assert!(s.cookie_header.is_some());

    let mut s = AuthSession::new(Some("auth=abc".to_string()));
    let r = restore_result(&mut s, ProbeResult::RequiresTwoFactor(vec![]));
    assert!(matches!(r, Restored::Invalidated));
    assert!(s.cookie_header.is_none());
}

#[test]
fn logout_is_idempotent() {
    let mut s = pending_session();
    assert!(matches!(logout(&mut s), AuthEvent::LoggedOut));
    assert!(s.credentials.is_none() && s.cookie_header.is_none() && !s.pending_two_factor);
    assert!(matches!(logout(&mut s), AuthEvent::LoggedOut));
    assert!(s.credentials.is_none() && s.cookie_header.is_none() && !s.pending_two_factor);
}
