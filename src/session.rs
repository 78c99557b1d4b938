//! Session issuance: the opaque token, the cookie that carries it, the
//! front-end identity payload, and the cookie that clears it on logout.
use vstd::prelude::*;

use rand::distributions::DistString;

use crate::config::WebSettings;
use crate::encoding::{base64_encode, base64_of, is_ascii_alphanumeric, json_quoted, json_string};
use crate::identity::Identity;

verus! {

/// Lifetime of a session cookie, in seconds (twelve hours).
pub const SESSION_DURATION_SECS: i64 = 43200;

/// Number of random characters in a session token.
pub const TOKEN_RANDOM_LEN: usize = 32;

pub open spec fn session_prefix() -> Seq<char> {
    "saml_session_"@
}

/// Relies on rand's `Alphanumeric::sample_string` over `thread_rng`: `n`
/// characters drawn from `A-Z`, `a-z` and `0-9`.
#[verifier::external_body]
fn random_alphanumeric(n: usize) -> (r: String)
    ensures
        r@.len() == n,
        forall|i: int| 0 <= i < n ==> is_ascii_alphanumeric(#[trigger] r@[i]),
{
    rand::distributions::Alphanumeric.sample_string(&mut rand::thread_rng(), n)
}

/// A session token made of the fixed prefix and the given random part.
pub fn session_token_from(random: &str) -> (r: String)
    ensures
        r@ == session_prefix() + random@,
{
    let mut t = "saml_session_".to_owned();
    t.append(random);
    t
}

/// Whether a text is a session token: the prefix, then exactly
/// `TOKEN_RANDOM_LEN` ASCII letters and digits.
pub open spec fn is_session_token(t: Seq<char>) -> bool {
    let p = session_prefix();
    &&& t.len() == p.len() + TOKEN_RANDOM_LEN
    &&& t.subrange(0, p.len() as int) == p
    &&& forall|i: int| p.len() <= i < t.len() ==> is_ascii_alphanumeric(#[trigger] t[i])
}

/// Mints a fresh session token.
pub fn new_session_token() -> (r: String)
    ensures
        is_session_token(r@),
{
    let random = random_alphanumeric(TOKEN_RANDOM_LEN);
    let t = session_token_from(random.as_str());
    proof {
        let p = session_prefix();
        assert(t@.subrange(0, p.len() as int) =~= p);
        assert forall|i: int| p.len() <= i < t@.len() implies is_ascii_alphanumeric(#[trigger] t@[i]) by {
            assert(t@[i] == random@[i - p.len()]);
        }
    }
    t
}

/// The tokens a session cookie carries.
#[derive(Clone, Debug)]
pub struct AuthTokens {
    pub access_token: String,
    pub refresh_token: String,
}

/// Compact JSON of the tokens, fields in declaration order.
pub open spec fn tokens_json_of(access: Seq<char>, refresh: Seq<char>) -> Seq<char> {
    "{\"access_token\":"@ + json_quoted(access) + ",\"refresh_token\":"@ + json_quoted(refresh) + "}"@
}

impl AuthTokens {
    /// Bearer access token for a session; the refresh token is empty.
    pub fn for_session(token: &str) -> (r: AuthTokens)
        ensures
            r.access_token@ == "Bearer "@ + token@,
            r.refresh_token@.len() == 0,
    {
        let mut access_token = "Bearer ".to_owned();
        access_token.append(token);
        AuthTokens { access_token, refresh_token: String::new() }
    }

    /// Compact JSON text of the tokens.
    pub fn to_json(&self) -> (r: String)
        ensures
            r@ == tokens_json_of(self.access_token@, self.refresh_token@),
    {
        let mut s = "{\"access_token\":".to_owned();
        s.append(json_string(self.access_token.as_str()).as_str());
        s.append(",\"refresh_token\":");
        s.append(json_string(self.refresh_token.as_str()).as_str());
        s.append("}");
        s
    }
}

/// A cookie as handed to the HTTP layer; `expires` is in Unix seconds.
#[derive(Clone, Debug)]
pub struct SessionCookie {
    pub name: String,
    pub value: String,
    pub expires: i64,
    pub http_only: bool,
    pub secure: bool,
    pub path: String,
    pub same_site_lax: bool,
}

pub open spec fn auth_cookie_name() -> Seq<char> {
    "auth_tokens"@
}

/// The flags every auth cookie carries, on issue and on logout alike.
pub open spec fn has_cookie_policy(c: SessionCookie, s: WebSettings) -> bool {
    &&& c.name@ == auth_cookie_name()
    &&& c.http_only
    &&& c.secure == s.cookie_secure_only
    &&& c.path@ == "/"@
    &&& c.same_site_lax == s.cookie_same_site_lax
}

/// The value of the cookie that carries a session token.
pub open spec fn session_cookie_value(token: Seq<char>) -> Seq<char> {
    base64_of(tokens_json_of("Bearer "@ + token, Seq::empty()))
}

fn auth_cookie(value: String, expires: i64, settings: &WebSettings) -> (r: SessionCookie)
    ensures
        has_cookie_policy(r, *settings),
        r.value == value,
        r.expires == expires,
{
    SessionCookie {
        name: "auth_tokens".to_owned(),
        value,
        expires,
        http_only: true,
        secure: settings.cookie_secure_only,
        path: "/".to_owned(),
        same_site_lax: settings.cookie_same_site_lax,
    }
}

/// The cookie that carries a session issued at `now`.
pub fn session_cookie(token: &str, settings: &WebSettings, now: i64) -> (r: SessionCookie)
    requires
        now <= i64::MAX - SESSION_DURATION_SECS,
    ensures
        has_cookie_policy(r, *settings),
        r.value@ == session_cookie_value(token@),
        r.expires == now + SESSION_DURATION_SECS,
{
    let tokens = AuthTokens::for_session(token);
    let json = tokens.to_json();
    assert(tokens.refresh_token@ =~= Seq::<char>::empty());
    let value = base64_encode(json.as_str());
    auth_cookie(value, now + SESSION_DURATION_SECS, settings)
}

/// The cookie that clears the session cookie at `now`.
pub fn logout_cookie(settings: &WebSettings, now: i64) -> (r: SessionCookie)
    ensures
        has_cookie_policy(r, *settings),
        r.value@.len() == 0,
        r.expires == now,
{
    auth_cookie(String::new(), now, settings)
}

/// Compact JSON of the identity handed to the front end.
pub open spec fn identity_json_of(email: Seq<char>, name: Seq<char>) -> Seq<char> {
    "{\"email\":"@ + json_quoted(email) + ",\"name\":"@ + json_quoted(name) + "}"@
}

/// Constant header segment of the front-end identity payload.
pub open spec fn id_header() -> Seq<char> {
    "eyJhbGciOiJIUzI1NiIsInR5cCI6IkpXVCJ9"@
}

/// Where the browser lands after a successful sign-in.
pub open spec fn signed_in_url_of(s: WebSettings, email: Seq<char>, name: Seq<char>) -> Seq<char> {
    s.web_url@ + s.base_uri@ + "/web/cb#id_token="@ + id_header() + "."@ + base64_of(
        identity_json_of(email, name),
    )
}

/// Base64 of the identity's JSON, as carried after the header segment.
pub fn identity_payload(id: &Identity) -> (r: String)
    ensures
        r@ == base64_of(identity_json_of(id.email@, id.name@)),
{
    let mut s = "{\"email\":".to_owned();
    s.append(json_string(id.email.as_str()).as_str());
    s.append(",\"name\":");
    s.append(json_string(id.name.as_str()).as_str());
    s.append("}");
    base64_encode(s.as_str())
}

/// The front-end callback URL carrying the identity payload.
pub fn signed_in_url(settings: &WebSettings, id: &Identity) -> (r: String)
    ensures
        r@ == signed_in_url_of(*settings, id.email@, id.name@),
{
    let mut u = settings.web_url.clone();
    u.append(settings.base_uri.as_str());
    u.append("/web/cb#id_token=");
    u.append("eyJhbGciOiJIUzI1NiIsInR5cCI6IkpXVCJ9");
    u.append(".");
    u.append(identity_payload(id).as_str());
    u
}

/// Where the browser lands after logout.
pub fn logout_url(settings: &WebSettings) -> (r: String)
    ensures
        r@ == settings.web_url@ + settings.base_uri@ + "/"@,
{
    let mut u = settings.web_url.clone();
    u.append(settings.base_uri.as_str());
    u.append("/");
    u
}

/// The outcome of a logout at `now`: where to send the browser, and the
/// cookie that clears the session cookie. The server-side session is kept.
pub fn saml_logout(settings: &WebSettings, now: i64) -> (r: (String, SessionCookie))
    ensures
        r.0@ == settings.web_url@ + settings.base_uri@ + "/"@,
        has_cookie_policy(r.1, *settings),
        r.1.value@.len() == 0,
        r.1.expires == now,
{
    (logout_url(settings), logout_cookie(settings, now))
}

} // verus!
