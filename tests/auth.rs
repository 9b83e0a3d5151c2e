use argon2::password_hash::SaltString;
use argon2::{Argon2, PasswordHasher};
use backend::auth::{
    admit_protected, admit_protected_stored, get_current_user, login, logout, rate_limit, rate_limit_stored_at, require_login,
    AuthError, SessionFault,
};
use backend::rate_limit::{RateConfig, RateLimit};
use backend::session::SessionData;
use backend::store::StoreError;

fn stored_hash(password: &str) -> String {
    let salt = SaltString::from_b64("c29tZXNhbHR2YWx1ZQ").unwrap();
    Argon2::default().hash_password(password.as_bytes(), &salt).unwrap().to_string()
}

#[test]
fn login_who_am_i_logout_round_trip() {
    let mut s = SessionData::new();
    let hash = stored_hash("validpw");
    assert_eq!(login(&mut s, "a@x.com".to_string(), "validpw", Ok(hash)), Ok(()));
    assert_eq!(get_current_user(&mut s, &RateConfig::new(true), 0), Ok("a@x.com".to_string()));
    assert_eq!(logout(&mut s), Ok(()));
    assert_eq!(get_current_user(&mut s, &RateConfig::new(true), 1), Err(AuthError::Unauthenticated));
}

#[test]
fn unknown_account_and_wrong_password_look_the_same() {
    let hash = stored_hash("validpw");
    let mut a = SessionData::new();
    let mut b = SessionData::new();
    let unknown = login(&mut a, "nobody@x.com".to_string(), "validpw", Err(StoreError::UserNotFound));
    let wrong = login(&mut b, "a@x.com".to_string(), "wrongpw", Ok(hash));
    assert_eq!(unknown, Err(AuthError::IncorrectCredentials));
    assert_eq!(wrong, Err(AuthError::IncorrectCredentials));
    assert_eq!(unknown, wrong);
    assert_eq!(a.identity, None);
    assert_eq!(b.identity, None);
}

#[test]
fn failed_lookups_and_bad_hashes_are_incorrect_credentials() {
    let mut s = SessionData::new();
    let db = login(&mut s, "a@x.com".to_string(), "pw", Err(StoreError::SqlxError("down".to_string())));
    assert_eq!(db, Err(AuthError::IncorrectCredentials));
    let bad = login(&mut s, "a@x.com".to_string(), "pw", Ok("not a phc string".to_string()));
    assert_eq!(bad, Err(AuthError::IncorrectCredentials));
    assert_eq!(require_login(&s), Err(AuthError::Unauthenticated));
}

#[test]
fn failed_login_keeps_previous_identity() {
    let mut s = SessionData::new();
    s.identity = Some("old@x.com".to_string());
    s.rate_counter = Some(3);
    let r = login(&mut s, "a@x.com".to_string(), "wrongpw", Ok(stored_hash("validpw")));
    assert_eq!(r, Err(AuthError::IncorrectCredentials));
    assert_eq!(s.identity, Some("old@x.com".to_string()));
    assert_eq!(s.rate_counter, Some(3));
}

#[test]
fn relogin_replaces_identity_and_keeps_rate_state() {
    let mut s = SessionData::new();
    s.identity = Some("old@x.com".to_string());
    s.rate_counter = Some(4);
    s.rate_window_start = Some(10);
    assert_eq!(login(&mut s, "new@x.com".to_string(), "pw2", Ok(stored_hash("pw2"))), Ok(()));
    assert_eq!(require_login(&s), Ok("new@x.com".to_string()));
    assert_eq!(s.rate_counter, Some(4));
    assert_eq!(s.rate_window_start, Some(10));
}

#[test]
fn logout_twice_leaves_session_anonymous() {
    let mut s = SessionData::new();
    s.identity = Some("a@x.com".to_string());
    s.rate_counter = Some(9);
    s.rate_window_start = Some(100);
    assert_eq!(logout(&mut s), Ok(()));
    assert_eq!(logout(&mut s), Ok(()));
    assert_eq!(s.identity, None);
    assert_eq!(s.rate_counter, None);
    assert_eq!(s.rate_window_start, None);
    assert_eq!(require_login(&s), Err(AuthError::Unauthenticated));
}

#[test]
fn rate_limit_step_reports_rate_limited() {
    let cfg = RateConfig { enabled: true, window_seconds: 60, max_requests: 1 };
    let mut s = SessionData::new();
    assert_eq!(rate_limit(&mut s, &cfg, 0), Ok(RateLimit));
    assert_eq!(rate_limit(&mut s, &cfg, 1), Err(AuthError::RateLimited));
    assert_eq!(s.rate_counter, Some(1));
}

#[test]
fn stored_rate_state_is_checked() {
    let cfg = RateConfig { enabled: true, window_seconds: 60, max_requests: 2 };
    assert_eq!(rate_limit_stored_at(&cfg, Ok(None), Ok(None), 7), Ok(Some((1, 7))));
    assert_eq!(rate_limit_stored_at(&cfg, Ok(Some(1)), Ok(Some(7)), 9), Ok(Some((2, 7))));
    assert_eq!(rate_limit_stored_at(&cfg, Ok(Some(2)), Ok(Some(7)), 9), Err(AuthError::RateLimited));
    assert_eq!(rate_limit_stored_at(&cfg, Ok(Some(2)), Ok(Some(7)), 60_008), Ok(Some((1, 60_008))));
}

#[test]
fn store_faults_fail_closed() {
    let cfg = RateConfig::new(true);
    assert_eq!(rate_limit_stored_at(&cfg, Err(SessionFault), Ok(None), 0), Err(AuthError::SessionUnavailable));
    assert_eq!(rate_limit_stored_at(&cfg, Ok(Some(1)), Err(SessionFault), 0), Err(AuthError::SessionUnavailable));
    assert_eq!(rate_limit_stored_at(&cfg, Err(SessionFault), Err(SessionFault), 0), Err(AuthError::SessionUnavailable));
}

#[test]
fn stored_rate_state_ignored_when_disabled() {
    let cfg = RateConfig::new(false);
    assert_eq!(rate_limit_stored_at(&cfg, Err(SessionFault), Err(SessionFault), 0), Ok(None));
    assert_eq!(rate_limit_stored_at(&cfg, Ok(Some(50)), Ok(Some(0)), 1), Ok(None));
}

#[test]
fn stored_admission_checks_rate_before_identity() {
    let cfg = RateConfig { enabled: true, window_seconds: 60, max_requests: 50 };
    assert_eq!(
        admit_protected_stored(&cfg, Ok(Some(3)), Ok(Some(0)), Ok(None), 1_000),
        (Some((4, 0)), Err(AuthError::Unauthenticated))
    );
    assert_eq!(
        admit_protected_stored(&cfg, Ok(Some(3)), Ok(Some(0)), Err(SessionFault), 1_000),
        (Some((4, 0)), Err(AuthError::Unauthenticated))
    );
    assert_eq!(
        admit_protected_stored(&cfg, Ok(Some(50)), Ok(Some(0)), Ok(Some("a@x.com".to_string())), 1_000),
        (None, Err(AuthError::RateLimited))
    );
    assert_eq!(
        admit_protected_stored(&cfg, Ok(None), Ok(None), Ok(Some("a@x.com".to_string())), 5),
        (Some((1, 5)), Ok("a@x.com".to_string()))
    );
    assert_eq!(
        admit_protected_stored(&cfg, Err(SessionFault), Ok(None), Ok(Some("a@x.com".to_string())), 5),
        (None, Err(AuthError::SessionUnavailable))
    );
    assert_eq!(
        admit_protected_stored(&RateConfig::new(false), Ok(None), Ok(None), Ok(Some("b@x.com".to_string())), 5),
        (None, Ok("b@x.com".to_string()))
    );
}

#[test]
fn anonymous_requests_use_up_the_budget() {
    let cfg = RateConfig { enabled: true, window_seconds: 60, max_requests: 2 };
    let mut s = SessionData::new();
    assert_eq!(admit_protected(&mut s, &cfg, 0), Err(AuthError::Unauthenticated));
    assert_eq!(admit_protected(&mut s, &cfg, 1), Err(AuthError::Unauthenticated));
    assert_eq!(s.rate_counter, Some(2));
    s.identity = Some("a@x.com".to_string());
    assert_eq!(admit_protected(&mut s, &cfg, 2), Err(AuthError::RateLimited));
    assert_eq!(admit_protected(&mut s, &cfg, 61_000), Ok("a@x.com".to_string()));
}

#[test]
fn auth_error_status_codes() {
    assert_eq!(AuthError::SessionUnavailable.status_code(), 500);
    assert_eq!(AuthError::RateLimited.status_code(), 429);
    assert_eq!(AuthError::Unauthenticated.status_code(), 401);
    assert_eq!(AuthError::IncorrectCredentials.status_code(), 401);
}

#[test]
fn current_user_probe_counts_against_budget() {
    let cfg = RateConfig::new(true);
    let mut s = SessionData::new();
    s.rate_counter = Some(7);
    s.rate_window_start = Some(1_000);
    assert_eq!(get_current_user(&mut s, &cfg, 2_000), Err(AuthError::Unauthenticated));
    assert_eq!(s.rate_counter, Some(8));
    assert_eq!(s.rate_window_start, Some(1_000));
    s.rate_counter = Some(50);
    s.identity = Some("a@x.com".to_string());
    assert_eq!(get_current_user(&mut s, &cfg, 3_000), Err(AuthError::RateLimited));
    assert_eq!(s.rate_counter, Some(50));
}
