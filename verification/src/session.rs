//! The Turnstile gate: a signed session cookie holding the time it was
//! issued admits a browser for thirty days; without one, the challenge
//! page is served, and a passed challenge earns a fresh cookie.

use vstd::prelude::*;
use axum_extra::extract::cookie::Key;
use vstd::string::StringSliceAdditionalSpecFns;
use crate::text::{
    chars_of, i64_decimal, lemma_parse_i64_of_decimal, parse_i64, parse_i64_spec,
    replace_all, replace_chars, signed_decimal, string_of,
};

verus! {

/// The session cookie's name.
pub const SESSION_COOKIE: &'static str = "ferrite_session";

/// How long a session lasts: thirty days.
pub const SESSION_DURATION_SECS: i64 = 60 * 60 * 24 * 30;

/// Cloudflare's endpoint that checks a Turnstile token.
pub const SITEVERIFY_URL: &'static str = "https://challenges.cloudflare.com/turnstile/v0/siteverify";

/// The mark in the challenge page that the site key replaces.
pub const SITE_KEY_MARK: &'static str = "{{SITE_KEY}}";

/// The page served when the challenge page cannot be read.
pub const CHALLENGE_FALLBACK: &'static str = "<h1>Could not load challenge page</h1>";

/// The 64 bytes of signing and encryption keys that the `cookie` crate
/// derives by HKDF-SHA256 from a master key: what `Key::master` gives back
/// of `Key::derive_from(master_key)`.
pub uninterp spec fn derived_cookie_keys(master_key: Seq<u8>) -> Seq<u8>;

/// `Key::derive_from` (the `cookie` crate, through `axum-extra`), read back
/// as bytes with `Key::master`: the derivation depends on the master key
/// alone, and a key holds 64 bytes (32 to sign, 32 to encrypt), from which
/// `Key::from` rebuilds it. `derive_from` panics on a master key shorter
/// than 32 bytes, so that is required here.
#[verifier::external_body]
fn derive_key(master_key: &[u8]) -> (r: Vec<u8>)
    requires
        master_key@.len() >= 32,
    ensures
        r@ == derived_cookie_keys(master_key@),
        r@.len() == 64,
{
    Key::derive_from(master_key).master().to_vec()
}

/// The key material that signs session cookies, derived from the Turnstile
/// secret, so that sessions outlive a restart without a secret of their
/// own: the same secret always gives the same keys. The secret must be at
/// least 32 bytes long; `Key::from` makes the cookie key of the result.
pub fn cookie_key(turnstile_secret: &str) -> (r: Vec<u8>)
    requires
        turnstile_secret.spec_bytes().len() >= 32,
    ensures
        r@ == derived_cookie_keys(turnstile_secret.spec_bytes()),
        r@.len() == 64,
{
    derive_key(turnstile_secret.as_bytes())
}

#[verifier::external_type_specification]
#[verifier::external_body]
pub struct ExSystemTime(std::time::SystemTime);

/// `SystemTime::now`: the clock's current reading. Nothing is stated of it.
#[verifier::external_body]
fn clock_now() -> std::time::SystemTime {
    std::time::SystemTime::now()
}

/// `SystemTime::duration_since(UNIX_EPOCH)`, in whole seconds; `None` for a
/// reading earlier than the epoch. The reading is opaque, so nothing is
/// stated of the result.
#[verifier::external_body]
fn seconds_since_epoch(t: &std::time::SystemTime) -> Option<u64> {
    t.duration_since(std::time::UNIX_EPOCH).ok().map(|d| d.as_secs())
}

/// The Unix time for a clock reading: its seconds as an `i64`, `0` for a
/// reading before the epoch.
pub open spec fn unix_seconds_spec(elapsed: Option<u64>) -> i64 {
    match elapsed {
        Some(s) => s as i64,
        None => 0,
    }
}

/// The Unix time for a clock reading.
pub fn unix_seconds(elapsed: Option<u64>) -> (r: i64)
    ensures
        r == unix_seconds_spec(elapsed),
{
    match elapsed {
        Some(s) => s as i64,
        None => 0,
    }
}

/// The current Unix time in seconds, `0` before the epoch: `unix_seconds`
/// of the clock's reading. The reading itself is not known, so no clause
/// states the result; `unix_seconds` is exact.
pub fn now_unix() -> i64
{
    let reading = clock_now();
    let elapsed = seconds_since_epoch(&reading);
    unix_seconds(elapsed)
}

/// Whether a session cookie with this value admits a request at `now`: the
/// value is the issue time, and `now` lies in the thirty days from it.
pub open spec fn session_valid_spec(cookie_value: Option<Seq<char>>, now: i64) -> bool {
    match cookie_value {
        Some(v) => match parse_i64_spec(v) {
            Some(issued_at) => now >= issued_at && now - issued_at < SESSION_DURATION_SECS,
            None => false,
        },
        None => false,
    }
}

pub open spec fn view_str(s: Option<&str>) -> Option<Seq<char>> {
    match s {
        Some(v) => Some(v@),
        None => None,
    }
}

/// Whether the session cookie's value admits a request at `now`.
pub fn session_valid_at(cookie_value: Option<&str>, now: i64) -> (r: bool)
    ensures
        r == session_valid_spec(view_str(cookie_value), now),
{
    match cookie_value {
        None => false,
        Some(v) => {
            let chars = chars_of(v);
            match parse_i64(chars.as_slice()) {
                None => false,
                Some(issued_at) => {
                    let age: i128 = now as i128 - issued_at as i128;
                    now >= issued_at && age < SESSION_DURATION_SECS as i128
                },
            }
        },
    }
}

/// Whether the session cookie's value admits a request now.
pub fn has_valid_session(cookie_value: Option<&str>) -> (r: bool)
    ensures
        exists|now: i64| r == session_valid_spec(view_str(cookie_value), now),
        r ==> cookie_value is Some,
        r ==> parse_i64_spec(cookie_value->0@) is Some,
{
    let now = now_unix();
    session_valid_at(cookie_value, now)
}

/// Law: a cookie issued at `issued_at` admits a request at `now` exactly
/// when `now` lies in the thirty days that start at `issued_at`.
pub proof fn lemma_session_window(issued_at: i64, now: i64)
    ensures
        session_valid_spec(Some(signed_decimal(issued_at as int)), now) <==> (issued_at <= now
            && now < issued_at + SESSION_DURATION_SECS),
{
    lemma_parse_i64_of_decimal(issued_at);
}

/// Law: a freshly issued cookie admits the request it was issued with.
pub proof fn lemma_fresh_cookie_admits(now: i64)
    ensures
        session_valid_spec(Some(signed_decimal(now as int)), now),
{
    lemma_session_window(now, now);
}

/// The `SameSite` attribute of a cookie.
pub enum SameSite {
    Strict,
    Lax,
    Unrestricted,
}

/// A cookie to set, with its attributes.
pub struct SessionCookie {
    pub name: String,
    pub value: String,
    pub path: String,
    pub http_only: bool,
    pub secure: bool,
    pub same_site: SameSite,
    pub max_age_secs: i64,
}

/// The attributes that every session cookie has, whatever its value.
pub open spec fn session_cookie_attributes(c: SessionCookie) -> bool {
    &&& c.name@ == SESSION_COOKIE@
    &&& c.path@ == "/"@
    &&& c.http_only
    &&& c.secure
    &&& c.same_site is Lax
    &&& c.max_age_secs == SESSION_DURATION_SECS
}

/// The session cookie issued at `now`: its value is `now` in decimal.
pub fn session_cookie_at(now: i64) -> (r: SessionCookie)
    ensures
        session_cookie_attributes(r),
        r.value@ == signed_decimal(now as int),
{
    let value = i64_decimal(now);
    SessionCookie {
        name: String::from_str(SESSION_COOKIE),
        value: string_of(value.as_slice()),
        path: String::from_str("/"),
        http_only: true,
        secure: true,
        same_site: SameSite::Lax,
        max_age_secs: SESSION_DURATION_SECS,
    }
}

/// A session cookie issued now.
pub fn session_cookie() -> (r: SessionCookie)
    ensures
        session_cookie_attributes(r),
        exists|now: i64| r.value@ == signed_decimal(now as int),
{
    let now = now_unix();
    session_cookie_at(now)
}

/// What becomes of a request at the session check.
pub enum GateStep {
    /// Hand the request on to the app.
    Pass,
    /// Serve the challenge page instead.
    Challenge,
}

/// The session check's decision for a request carrying this cookie value
/// at `now`.
pub fn gate_at(cookie_value: Option<&str>, now: i64) -> (r: GateStep)
    ensures
        r is Pass <==> session_valid_spec(view_str(cookie_value), now),
{
    if session_valid_at(cookie_value, now) {
        GateStep::Pass
    } else {
        GateStep::Challenge
    }
}

/// The session check's decision for a request carrying this cookie value.
pub fn gate(cookie_value: Option<&str>) -> (r: GateStep)
    ensures
        exists|now: i64| (r is Pass <==> session_valid_spec(view_str(cookie_value), now)),
        cookie_value is None ==> r is Challenge,
{
    let now = now_unix();
    gate_at(cookie_value, now)
}

/// The challenge page: the template (or, when it could not be read, the
/// fallback) with every site-key mark replaced by the site key.
pub open spec fn challenge_page_spec(template: Option<Seq<char>>, site_key: Seq<char>) -> Seq<
    char,
> {
    let page = match template {
        Some(t) => t,
        None => CHALLENGE_FALLBACK@,
    };
    replace_all(page, SITE_KEY_MARK@, site_key)
}

/// The challenge page to serve.
pub fn challenge_page(template: Option<&str>, site_key: &str) -> (r: String)
    ensures
        r@ == challenge_page_spec(view_str(template), site_key@),
{
    let page = match template {
        Some(t) => chars_of(t),
        None => chars_of(CHALLENGE_FALLBACK),
    };
    let mark = chars_of(SITE_KEY_MARK);
    proof {
        reveal_strlit("{{SITE_KEY}}");
    }
    let key = chars_of(site_key);
    let out = replace_chars(page.as_slice(), mark.as_slice(), key.as_slice());
    string_of(out.as_slice())
}

/// The form posted from the challenge page.
pub struct VerifyForm {
    pub token: String,
}

/// The form fields sent to Cloudflare to check a token.
pub fn siteverify_form(secret: &str, token: &str) -> (r: Vec<(String, String)>)
    ensures
        r@.len() == 2,
        r@[0].0@ == "secret"@,
        r@[0].1@ == secret@,
        r@[1].0@ == "response"@,
        r@[1].1@ == token@,
{
    let mut form: Vec<(String, String)> = Vec::new();
    form.push((String::from_str("secret"), String::from_str(secret)));
    form.push((String::from_str("response"), String::from_str(token)));
    form
}

/// What came back from asking Cloudflare about a token.
pub enum SiteverifyReply {
    /// The request could not be sent or answered.
    Unreachable,
    /// The answer could not be read as a verdict.
    Unreadable,
    /// The verdict.
    Answered { success: bool },
}

/// Whether the token passed: only a readable verdict of success counts.
pub fn check_with_cloudflare(reply: SiteverifyReply) -> (r: bool)
    ensures
        r <==> (reply matches SiteverifyReply::Answered { success } && success),
{
    match reply {
        SiteverifyReply::Answered { success } => success,
        _ => false,
    }
}

/// What answering the challenge form does.
pub struct VerifyOutcome {
    /// The cookie to add, when the challenge was passed.
    pub cookie: Option<SessionCookie>,
    /// Where to send the browser next.
    pub redirect_to: String,
}

/// Answers the challenge form at `now`: a passed check earns a session
/// cookie; either way the browser goes back to `/`.
pub fn verify_at(passed: bool, now: i64) -> (r: VerifyOutcome)
    ensures
        r.redirect_to@ == "/"@,
        passed <==> r.cookie is Some,
        r.cookie matches Some(c) ==> session_cookie_attributes(c) && c.value@ == signed_decimal(
            now as int,
        ),
{
    let cookie = if passed {
        Some(session_cookie_at(now))
    } else {
        None
    };
    VerifyOutcome { cookie, redirect_to: String::from_str("/") }
}

/// Answers the challenge form now.
pub fn verify(passed: bool) -> (r: VerifyOutcome)
    ensures
        r.redirect_to@ == "/"@,
        passed <==> r.cookie is Some,
        r.cookie matches Some(c) ==> session_cookie_attributes(c) && exists|now: i64|
            c.value@ == signed_decimal(now as int),
{
    let now = now_unix();
    verify_at(passed, now)
}

} // verus!
