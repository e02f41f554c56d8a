use vfriends::pipeline::{auth_token_from_cookie_header, PipelineState, ReconnectState, Supervise};

#[test]
fn backoff_doubles_then_caps_and_resets() {
    let mut r = ReconnectState::new();
    assert_eq!(r.on_listen_end(false), Supervise::SleepThenReconnect(5));
    assert_eq!(r.on_listen_end(false), Supervise::SleepThenReconnect(10));
    assert_eq!(r.on_listen_end(false), Supervise::SleepThenReconnect(20));
    assert_eq!(r.on_listen_end(false), Supervise::SleepThenReconnect(40));
    assert_eq!(r.on_listen_end(false), Supervise::SleepThenReconnect(60));
    assert_eq!(r.on_listen_end(false), Supervise::SleepThenReconnect(60));
    assert_eq!(r.on_listen_end(true), Supervise::Reconnect);
    assert_eq!(r.on_listen_end(false), Supervise::SleepThenReconnect(5));
}

#[test]
fn cancelled_supervisor_stops() {
    let mut r = ReconnectState::new();
    r.cancel();
    assert_eq!(r.on_listen_end(false), Supervise::Stop);
    assert_eq!(r.on_listen_end(true), Supervise::Stop);
}

#[test]
fn second_start_replaces_first_task() {
    let mut p = PipelineState::new();
    let first = p.start();
    assert_eq!(first.abort, None);
    let second = p.start();
    assert_eq!(second.abort, Some(first.spawn));
    assert_ne!(second.spawn, first.spawn);
    assert_eq!(p.active, Some(second.spawn));
    assert_eq!(p.stop(), Some(second.spawn));
    assert_eq!(p.stop(), None);
}

#[test]
fn start_needs_a_token() {
    let mut p = PipelineState::new();
    assert!(p.start_with_cookie_header(None).is_none());
    assert!(p.start_with_cookie_header(Some("   ")).is_none());
    assert!(p.start_with_cookie_header(Some("twoFactorAuth=x; other=y")).is_none());
    assert_eq!(p.active, None);
    let (token, plan) = p.start_with_cookie_header(Some("twoFactorAuth=x; auth=tok")).unwrap();
    assert_eq!(token, "tok");
    assert_eq!(p.active, Some(plan.spawn));
}

#[test]
fn token_from_cookie_header() {
    assert_eq!(auth_token_from_cookie_header("auth=abc").as_deref(), Some("abc"));
    assert_eq!(auth_token_from_cookie_header(" a=1 ; authToken = \"q1\" ").as_deref(), Some("q1"));
    assert_eq!(auth_token_from_cookie_header("auth_token=v=w").as_deref(), Some("v=w"));
    assert_eq!(auth_token_from_cookie_header("authx=1; auth").as_deref(), None);
    assert_eq!(auth_token_from_cookie_header("").as_deref(), None);
    assert_eq!(auth_token_from_cookie_header("x=1;;auth=;auth=z").as_deref(), Some(""));
}
