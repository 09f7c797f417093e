use xhs_auth::auth::AuthService;
use xhs_auth::credentials::Cookie;
use xhs_auth::error::ApiError;
use xhs_auth::login::{LoginEvent, LoginSession, LoginStatus, PollOutcome, QrCode};

fn session(now: u64, validity: u64) -> LoginSession {
    let code = QrCode { qr_id: "qr-1".to_string(), url: "https://qr/1".to_string() };
    let (s, e) = LoginSession::begin(Ok(code), vec![Cookie::new("guest", "g")], now, validity);
    match e {
        LoginEvent::Created { qr_id, url } => {
            assert_eq!(qr_id, "qr-1");
            assert_eq!(url, "https://qr/1");
        }
        _ => panic!("expected Created"),
    }
    s.unwrap()
}

fn kind(e: &LoginEvent) -> &'static str {
    match e {
        LoginEvent::Created { .. } => "created",
        LoginEvent::Waiting => "waiting",
        LoginEvent::Scanned => "scanned",
        LoginEvent::Confirmed => "confirmed",
        LoginEvent::Expired => "expired",
        LoginEvent::Failed { .. } => "failed",
    }
}

#[test]
fn waiting_waiting_scanned_confirmed() {
    let mut s = session(0, 10_000);
    let mut auth = AuthService::new();
    let replies = vec![
        (PollOutcome::Waiting, 1),
        (PollOutcome::Waiting, 2),
        (PollOutcome::Scanned, 3),
        (PollOutcome::Confirmed { cookies: vec![Cookie::new("web_session", "abc")] }, 4),
    ];
    let events = s.run(&mut auth, &replies);
    let kinds: Vec<&str> = events.iter().map(kind).collect();
    assert_eq!(kinds, vec!["waiting", "waiting", "scanned", "confirmed"]);
    assert_eq!(auth.credential_writes(), 1);
    let c = auth.try_get_credentials().unwrap();
    assert_eq!(c.cookie_string(), "web_session=abc");
    assert_eq!(c.captured_at, 4);
    assert_eq!(s.status(), LoginStatus::Confirmed);
}

#[test]
fn expired_reply_ends_without_credential() {
    let mut s = session(0, 10_000);
    let mut auth = AuthService::new();
    let replies = vec![(PollOutcome::Expired, 1), (PollOutcome::Confirmed { cookies: vec![] }, 2)];
    let events = s.run(&mut auth, &replies);
    assert_eq!(events.len(), 1);
    assert_eq!(kind(&events[0]), "expired");
    assert_eq!(s.status(), LoginStatus::Expired);
    assert_eq!(auth.credential_writes(), 0);
    assert!(auth.try_get_credentials().is_none());
}

#[test]
fn validity_window_forces_expiry() {
    let mut s = session(100, 50);
    assert_eq!(s.expires_at(), 150);
    let mut auth = AuthService::new();
    assert_eq!(kind(&s.poll(&mut auth, &PollOutcome::Waiting, 149).unwrap()), "waiting");
    let e = s.poll(&mut auth, &PollOutcome::Confirmed { cookies: vec![Cookie::new("a", "b")] }, 150).unwrap();
    assert_eq!(kind(&e), "expired");
    assert!(auth.try_get_credentials().is_none());
    assert!(s.poll(&mut auth, &PollOutcome::Waiting, 151).is_none());
}

#[test]
fn validity_saturates() {
    let s = session(u64::MAX - 1, 10);
    assert_eq!(s.expires_at(), u64::MAX);
}

#[test]
fn failure_is_reported_once() {
    let mut s = session(0, 1000);
    let mut auth = AuthService::new();
    let replies = vec![
        (PollOutcome::Scanned, 1),
        (PollOutcome::Failed { reason: "timeout".to_string() }, 2),
        (PollOutcome::Failed { reason: "again".to_string() }, 3),
    ];
    let events = s.run(&mut auth, &replies);
    assert_eq!(events.len(), 2);
    match &events[1] {
        LoginEvent::Failed { reason } => assert_eq!(reason, "timeout"),
        _ => panic!("expected Failed"),
    }
    assert_eq!(s.status(), LoginStatus::Failed);
}

#[test]
fn scanned_code_reported_waiting_stays_scanned() {
    let mut s = session(0, 1000);
    let mut auth = AuthService::new();
    assert_eq!(kind(&s.poll(&mut auth, &PollOutcome::Scanned, 1).unwrap()), "scanned");
    assert_eq!(kind(&s.poll(&mut auth, &PollOutcome::Waiting, 2).unwrap()), "scanned");
    assert_eq!(s.status(), LoginStatus::Scanned);
}

#[test]
fn confirmed_only_once() {
    let mut s = session(0, 1000);
    let mut auth = AuthService::new();
    let replies = vec![
        (PollOutcome::Confirmed { cookies: vec![Cookie::new("a", "1")] }, 1),
        (PollOutcome::Confirmed { cookies: vec![Cookie::new("a", "2")] }, 2),
    ];
    let events = s.run(&mut auth, &replies);
    assert_eq!(events.len(), 1);
    assert_eq!(auth.credential_writes(), 1);
    assert_eq!(auth.try_get_credentials().unwrap().cookie_string(), "a=1");
}

#[test]
fn failed_creation_gives_failed_event() {
    let (s, e) = LoginSession::begin(
        Err(ApiError::AgentFailed { reason: "no guest cookies".to_string() }),
        vec![],
        0,
        1000,
    );
    assert!(s.is_none());
    match e {
        LoginEvent::Failed { reason } => assert_eq!(reason, "Agent error: no guest cookies"),
        _ => panic!("expected Failed"),
    }
}

#[test]
fn session_keeps_its_guest_cookies() {
    let s = session(0, 1000);
    assert_eq!(s.qr_id(), "qr-1");
    assert_eq!(s.qr_url(), "https://qr/1");
    assert_eq!(s.guest_cookies()[0].value, "g");
    assert_eq!(s.status(), LoginStatus::Created);
}

#[test]
fn status_codes_map_to_outcomes() {
    assert!(matches!(PollOutcome::from_status_code(2, vec![]), PollOutcome::Waiting));
    assert!(matches!(PollOutcome::from_status_code(3, vec![]), PollOutcome::Scanned));
    assert!(matches!(PollOutcome::from_status_code(4, vec![]), PollOutcome::Expired));
    match PollOutcome::from_status_code(1, vec![Cookie::new("s", "v")]) {
        PollOutcome::Confirmed { cookies } => assert_eq!(cookies[0].name, "s"),
        _ => panic!("expected Confirmed"),
    }
    match PollOutcome::from_status_code(77, vec![]) {
        PollOutcome::Failed { reason } => assert_eq!(reason, "unrecognized login status"),
        _ => panic!("expected Failed"),
    }
}

#[test]
fn finished_only_when_terminal() {
    let mut s = session(0, 1000);
    let mut auth = AuthService::new();
    assert!(!s.is_finished());
    s.poll(&mut auth, &PollOutcome::Waiting, 1);
    assert!(!s.is_finished());
    s.poll(&mut auth, &PollOutcome::Expired, 2);
    assert!(s.is_finished());
}

#[test]
fn confirmation_with_repeated_names_keeps_last() {
    let mut s = session(0, 1000);
    let mut auth = AuthService::new();
    let cookies = vec![Cookie::new("web_session", "old"), Cookie::new("a1", "x"), Cookie::new("web_session", "new")];
    s.poll(&mut auth, &PollOutcome::Confirmed { cookies }, 5);
    assert_eq!(auth.try_get_credentials().unwrap().cookie_string(), "web_session=new; a1=x");
}
