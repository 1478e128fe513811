use ferrite::session::{
    challenge_page, check_with_cloudflare, gate, gate_at, has_valid_session, now_unix,
    session_cookie, session_cookie_at, session_valid_at, siteverify_form, unix_seconds, verify,
    verify_at, GateStep, SameSite, SiteverifyReply, SESSION_COOKIE, SESSION_DURATION_SECS,
};

#[test]
fn session_lasts_thirty_days() {
    assert_eq!(SESSION_DURATION_SECS, 2_592_000);
    let issued = 1_725_029_869i64;
    let v = issued.to_string();
    assert!(session_valid_at(Some(&v), issued));
    assert!(session_valid_at(Some(&v), issued + SESSION_DURATION_SECS - 1));
    assert!(!session_valid_at(Some(&v), issued + SESSION_DURATION_SECS));
    assert!(!session_valid_at(Some(&v), issued - 1));
}

#[test]
fn malformed_or_missing_cookies_are_refused() {
    assert!(!session_valid_at(None, 100));
    assert!(!session_valid_at(Some(""), 100));
    assert!(!session_valid_at(Some("abc"), 100));
    assert!(!session_valid_at(Some("12.5"), 100));
    assert!(!has_valid_session(None));
    assert!(!has_valid_session(Some("not a number")));
}

#[test]
fn extreme_issue_times_do_not_overflow() {
    assert!(!session_valid_at(Some("-9223372036854775808"), i64::MAX));
    assert!(!session_valid_at(Some("9223372036854775807"), i64::MIN));
}

#[test]
fn fresh_cookie_admits_the_request() {
    let now = 1_700_000_000i64;
    let c = session_cookie_at(now);
    assert_eq!(c.name, SESSION_COOKIE);
    assert_eq!(c.value, "1700000000");
    assert_eq!(c.path, "/");
    assert!(c.http_only && c.secure);
    assert!(matches!(c.same_site, SameSite::Lax));
    assert_eq!(c.max_age_secs, SESSION_DURATION_SECS);
    assert!(session_valid_at(Some(&c.value), now));
    assert!(matches!(gate_at(Some(&c.value), now), GateStep::Pass));
}

#[test]
fn cookie_issued_now_passes_the_gate_now() {
    let c = session_cookie();
    assert!(has_valid_session(Some(&c.value)));
    assert!(matches!(gate(Some(&c.value)), GateStep::Pass));
    assert!(matches!(gate(None), GateStep::Challenge));
    assert!(now_unix() > 1_600_000_000);
}

#[test]
fn clock_readings() {
    assert_eq!(unix_seconds(None), 0);
    assert_eq!(unix_seconds(Some(42)), 42);
    assert_eq!(unix_seconds(Some(u64::MAX)), -1);
}

#[test]
fn challenge_page_carries_the_site_key() {
    assert_eq!(
        challenge_page(Some("<div data-sitekey=\"{{SITE_KEY}}\"></div>{{SITE_KEY}}"), "0xABC"),
        "<div data-sitekey=\"0xABC\"></div>0xABC"
    );
    assert_eq!(challenge_page(None, "k"), "<h1>Could not load challenge page</h1>");
}

#[test]
fn siteverify() {
    let f = siteverify_form("s3", "tok");
    assert_eq!(f, vec![("secret".to_string(), "s3".to_string()), ("response".to_string(), "tok".to_string())]);
    assert!(check_with_cloudflare(SiteverifyReply::Answered { success: true }));
    assert!(!check_with_cloudflare(SiteverifyReply::Answered { success: false }));
    assert!(!check_with_cloudflare(SiteverifyReply::Unreadable));
    assert!(!check_with_cloudflare(SiteverifyReply::Unreachable));
}

#[test]
fn verify_issues_a_cookie_only_when_passed() {
    let yes = verify_at(true, 5);
    assert_eq!(yes.redirect_to, "/");
    assert_eq!(yes.cookie.unwrap().value, "5");
    let no = verify(false);
    assert_eq!(no.redirect_to, "/");
    assert!(no.cookie.is_none());
}

#[test]
fn cookie_key_from_a_long_secret() {
    let secret = "0123456789abcdef0123456789abcdef";
    let material = ferrite::session::cookie_key(secret);
    assert_eq!(material.len(), 64);
    assert_eq!(material, ferrite::session::cookie_key(secret));
    assert_ne!(material, ferrite::session::cookie_key("0123456789abcdef0123456789abcdeF"));
    let expected = axum_extra::extract::cookie::Key::derive_from(secret.as_bytes());
    assert_eq!(material.as_slice(), expected.master());
    assert!(axum_extra::extract::cookie::Key::from(&material) == expected);
}
