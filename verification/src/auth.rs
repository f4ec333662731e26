//! Signing in: the administrator's password login and the Google OAuth flow.
use vstd::prelude::*;
use vstd::string::*;

use crate::models::User;
use crate::users::SessionUser;
use crate::text::{equals_text};

verus! {

/// The password login form.
#[derive(Debug, Clone)]
pub struct LoginForm {
    pub username: String,
    pub password: String,
}

/// A configuration value: the one that is set, or `default`.
pub open spec fn setting(value: Option<String>, default: Seq<char>) -> Seq<char> {
    match value {
        Some(v) => v@,
        None => default,
    }
}

/// The configuration value `value` if it is set, `default` otherwise.
pub fn setting_or(value: Option<String>, default: &str) -> (res: String)
    ensures
        res@ == setting(value, default@),
{
    match value {
        Some(v) => v,
        None => String::from_str(default),
    }
}

/// The answer to a password login.
#[derive(Debug, Clone)]
pub enum LoginOutcome {
    /// Store `{"username": username}` as the session and redirect to `/`.
    SignedIn { username: String },
    /// Answer `401 Username or password is incorrect!`.
    Rejected,
}

/// The password login: `username` and `password` are the configured
/// credentials (`USERNAME` and `PASSWORD`, both `admin` when unset); the form
/// signs in exactly when it gives both.
pub fn login_authentication(form: &LoginForm, username: Option<String>, password: Option<String>) -> (res:
    LoginOutcome)
    ensures
        res is SignedIn <==> (form.username@ == setting(username, "admin"@) && form.password@
            == setting(password, "admin"@)),
        res matches LoginOutcome::SignedIn { username: u } ==> u@ == setting(username, "admin"@),
{
    let user = setting_or(username, "admin");
    let pass = setting_or(password, "admin");
    if equals_text(form.username.as_str(), user.as_str()) && equals_text(
        form.password.as_str(),
        pass.as_str(),
    ) {
        LoginOutcome::SignedIn { username: user }
    } else {
        LoginOutcome::Rejected
    }
}

/// Where Google sends the browser back: `{base_url}/auth/callback`.
pub open spec fn callback_uri(base_url: Seq<char>) -> Seq<char> {
    base_url + "/auth/callback"@
}

/// The scopes that the sign-in asks for, URL-encoded.
pub open spec fn google_scopes() -> Seq<char> {
    "profile%20email%20openid%20https://www.googleapis.com/auth/userinfo.email"@
}

/// The Google authorization URI for the client `client_id` of the site at `base_url`.
pub open spec fn google_auth_uri(base_url: Seq<char>, client_id: Seq<char>) -> Seq<char> {
    "https://accounts.google.com/o/oauth2/v2/auth?client_id="@ + client_id + "&redirect_uri="@
        + callback_uri(base_url) + "&response_type=code&scope="@ + google_scopes()
}

/// The redirect URI of the OAuth flow.
pub fn redirect_uri(base_url: &str) -> (res: String)
    ensures
        res@ == callback_uri(base_url@),
{
    let mut s = String::from_str(base_url);
    s.append("/auth/callback");
    s
}

/// Where the Google sign-in starts: the authorization URI that the browser is
/// redirected to (`302 Found`).
pub fn google_auth(base_url: &str, client_id: &str) -> (res: String)
    ensures
        res@ == google_auth_uri(base_url@, client_id@),
{
    let back = redirect_uri(base_url);
    let mut s = String::from_str("https://accounts.google.com/o/oauth2/v2/auth?client_id=");
    s.append(client_id);
    s.append("&redirect_uri=");
    s.append(back.as_str());
    s.append("&response_type=code&scope=");
    s.append("profile%20email%20openid%20https://www.googleapis.com/auth/userinfo.email");
    s
}

/// The fields of the request that exchanges an authorization code for tokens.
#[derive(Debug, Clone)]
pub struct TokenRequest {
    pub code: String,
    pub client_id: String,
    pub client_secret: String,
    pub redirect_uri: String,
    pub grant_type: String,
}

/// The token request for `code`, sent to `https://oauth2.googleapis.com/token`.
pub fn token_request(code: &str, client_id: &str, client_secret: &str, base_url: &str) -> (res:
    TokenRequest)
    ensures
        res.code@ == code@,
        res.client_id@ == client_id@,
        res.client_secret@ == client_secret@,
        res.redirect_uri@ == callback_uri(base_url@),
        res.grant_type@ == "authorization_code"@,
{
    TokenRequest {
        code: String::from_str(code),
        client_id: String::from_str(client_id),
        client_secret: String::from_str(client_secret),
        redirect_uri: redirect_uri(base_url),
        grant_type: String::from_str("authorization_code"),
    }
}

/// The URL that tells what the ID token `id_token` says about its holder.
pub open spec fn tokeninfo_uri(id_token: Seq<char>) -> Seq<char> {
    "https://oauth2.googleapis.com/tokeninfo?id_token="@ + id_token
}

/// The token-info URL for `id_token`.
pub fn tokeninfo_url(id_token: &str) -> (res: String)
    ensures
        res@ == tokeninfo_uri(id_token@),
{
    let mut s = String::from_str("https://oauth2.googleapis.com/tokeninfo?id_token=");
    s.append(id_token);
    s
}

/// What the callback does once the code was exchanged.
#[derive(Debug, Clone)]
pub enum CallbackStep {
    /// Ask Google what the ID token says, at this URL.
    LookUpToken { url: String },
    /// Redirect the browser (`307`) to this location.
    Redirect { location: String },
}

/// The callback after the token exchange, whose answer held the ID token
/// `id_token` if any: look the token up, or send the browser to
/// `/login?error=1`.
pub fn after_token_exchange(id_token: Option<String>) -> (res: CallbackStep)
    ensures
        id_token matches Some(t) ==> (res matches CallbackStep::LookUpToken { url } && url@
            == tokeninfo_uri(t@)),
        id_token is None ==> (res matches CallbackStep::Redirect { location } && location@
            == "/login?error=1"@),
{
    match id_token {
        Some(t) => CallbackStep::LookUpToken { url: tokeninfo_url(t.as_str()) },
        None => CallbackStep::Redirect { location: String::from_str("/login?error=1") },
    }
}

/// What serde_json reads from the text `text` for the member `key` of the JSON
/// value it holds: `None` when `text` is not JSON, `Some(None)` when the value
/// has no member `key` or that member is not a string, and the string otherwise.
pub uninterp spec fn json_string_member(text: Seq<char>, key: Seq<char>) -> Option<Option<Seq<char>>>;

/// The member found by [`string_member`], as text.
pub open spec fn member_text(m: Option<Option<String>>) -> Option<Option<Seq<char>>> {
    match m {
        Some(Some(s)) => Some(Some(s@)),
        Some(None) => Some(None),
        None => None,
    }
}

/// `serde_json::from_str::<serde_json::Value>(text)`, then `get(key)` and
/// `as_str()` on the value: `None` when the text is not JSON, `Some(None)`
/// when the member is missing or not a string. The result is a function of
/// `text` and `key` alone; what JSON text serde_json accepts is not stated.
#[verifier::external_body]
fn string_member(text: &str, key: &str) -> (res: Option<Option<String>>)
    ensures
        member_text(res) == json_string_member(text@, key@),
{
    match serde_json::from_str::<serde_json::Value>(text) {
        Ok(v) => match v.get(key) {
            Some(m) => Some(m.as_str().map(String::from)),
            None => Some(None),
        },
        Err(_) => None,
    }
}

/// The callback after the token exchange answered `reply`: `None` when the
/// reply is not JSON; otherwise, as [`after_token_exchange`] decides, a look-up
/// of its `id_token` string or the redirect to `/login?error=1` when it has none.
pub fn after_token_reply(reply: &str) -> (res: Option<CallbackStep>)
    ensures
        res is None <==> json_string_member(reply@, "id_token"@) is None,
        json_string_member(reply@, "id_token"@) matches Some(Some(t)) ==> (res matches Some(
            CallbackStep::LookUpToken { url },
        ) && url@ == tokeninfo_uri(t)),
        json_string_member(reply@, "id_token"@) == Some(None::<Seq<char>>) ==> (res matches Some(
            CallbackStep::Redirect { location },
        ) && location@ == "/login?error=1"@),
{
    match string_member(reply, "id_token") {
        Some(t) => Some(after_token_exchange(t)),
        None => None,
    }
}

/// The e-mail address that Google's token information `reply` gives: `None`
/// when the reply is not JSON or has no `email` string.
pub fn token_email(reply: &str) -> (res: Option<String>)
    ensures
        res matches Some(e) ==> json_string_member(reply@, "email"@) == Some(Some(e@)),
        res is None ==> !(json_string_member(reply@, "email"@) matches Some(Some(_))),
{
    match string_member(reply, "email") {
        Some(Some(e)) => Some(e),
        _ => None,
    }
}

/// The end of the callback.
#[derive(Debug, Clone)]
pub struct CallbackOutcome {
    /// Where the browser is redirected (`307`).
    pub location: String,
    /// What the session then holds as `session`, if anything.
    pub session: Option<SessionUser>,
}

/// The callback after the user with the token's e-mail address was looked up:
/// a known user is signed in and sent to `/`, anyone else to `/login?error=2`.
pub fn after_user_lookup(user: Option<User>) -> (res: CallbackOutcome)
    ensures
        user matches Some(u) ==> {
            &&& res.location@ == "/"@
            &&& res.session matches Some(s) && s.id == u.id && s.name == u.name && s.role == u.role
        },
        user is None ==> res.location@ == "/login?error=2"@ && res.session is None,
{
    match user {
        Some(u) => CallbackOutcome {
            location: String::from_str("/"),
            session: Some(SessionUser { id: u.id, name: u.name, role: u.role }),
        },
        None => CallbackOutcome { location: String::from_str("/login?error=2"), session: None },
    }
}

/// Where a login page sends a browser whose session is signed in already: to
/// `/` (`302 Found`, with `Hx-Location`); a session that is not signed in
/// sees the page.
pub fn login_page_redirect(signed_in: bool) -> (res: Option<String>)
    ensures
        signed_in ==> (res matches Some(l) && l@ == "/"@),
        !signed_in ==> res is None,
{
    if signed_in {
        Some(String::from_str("/"))
    } else {
        None
    }
}

} // verus!
