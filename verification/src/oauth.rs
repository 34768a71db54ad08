//! The OAuth sign-in web flow of the VPN server: the provider redirect, the checks on the
//! completion request, and the answers it gets. HTTP requests to the provider are made by the
//! caller, which hands their outcomes in.

use vstd::prelude::*;
use vstd::utf8::encode_utf8;
use crate::codec::{json_string, json_string_text};
use crate::sessions::{pending_peer, PendingOAuths};
use crate::text::{decimal, hex_upper_char, push_str, split_at_char, split_char, str_eq, views};

verus! {

/// Whether a byte is left as it is by URL encoding: ASCII letters, digits and `-._~`.
pub open spec fn url_safe_byte(b: u8) -> bool {
    (48 <= b <= 57) || (65 <= b <= 90) || (97 <= b <= 122) || b == 45 || b == 46 || b == 95 || b == 126
}

/// Percent-encoding of bytes: safe bytes stay, every other byte becomes `%` and two
/// uppercase hexadecimal digits.
pub open spec fn url_encoded(bytes: Seq<u8>) -> Seq<char>
    decreases bytes.len(),
{
    if bytes.len() == 0 {
        seq![]
    } else {
        let b = bytes.last();
        url_encoded(bytes.drop_last()) + if url_safe_byte(b) {
            seq![b as char]
        } else {
            seq!['%', hex_upper_char((b / 16) as nat), hex_upper_char((b % 16) as nat)]
        }
    }
}

/// `urlencoding::encode`: percent-encodes every UTF-8 byte except ASCII letters, digits and
/// `-`, `_`, `.`, `~`, with uppercase hexadecimal digits (as its documentation and source state).
#[verifier::external_body]
pub(crate) fn url_encode(s: &str) -> (r: String)
    ensures
        r@ == url_encoded(encode_utf8(s@)),
{
    urlencoding::encode(s).into_owned()
}

/// The port of the client-side listener that catches the provider's redirect.
pub const CLIENT_OAUTH_CALLBACK_PORT: u16 = 19823;

/// The redirect URI registered with the provider: the client's local callback.
pub open spec fn callback_uri() -> Seq<char> {
    "http://localhost:19823/oauth/callback"@
}

/// The redirect URI: the client's local callback listener.
pub fn redirect_uri() -> (r: String)
    ensures
        r@ == callback_uri(),
{
    let mut r = "http://localhost:".to_owned();
    crate::text::write_decimal(&mut r, CLIENT_OAUTH_CALLBACK_PORT as u64);
    push_str(&mut r, "/oauth/callback");
    proof {
        reveal_strlit("http://localhost:");
        reveal_strlit("/oauth/callback");
        reveal_strlit("http://localhost:19823/oauth/callback");
        assert(decimal(19823) =~= seq!['1', '9', '8', '2', '3']) by {
            assert(decimal(1) =~= seq!['1']);
            assert(decimal(19) =~= seq!['1', '9']);
            assert(decimal(198) =~= seq!['1', '9', '8']);
            assert(decimal(1982) =~= seq!['1', '9', '8', '2']);
        }
        assert(r@ =~= callback_uri());
    }
    r
}

/// The provider's authorization URL for a client id and state token.
pub open spec fn google_auth_url_text(client_id: Seq<char>, state: Seq<char>) -> Seq<char> {
    "https://accounts.google.com/o/oauth2/v2/auth?client_id="@ + url_encoded(encode_utf8(client_id))
        + "&redirect_uri="@ + url_encoded(encode_utf8(callback_uri()))
        + "&response_type=code&scope=openid%20email%20profile&state="@ + url_encoded(encode_utf8(state))
        + "&access_type=online&prompt=consent"@
}

/// The provider's authorization URL.
pub fn google_auth_url(client_id: &str, state: &str) -> (r: String)
    ensures
        r@ == google_auth_url_text(client_id@, state@),
{
    let redirect = redirect_uri();
    let mut r = "https://accounts.google.com/o/oauth2/v2/auth?client_id=".to_owned();
    push_str(&mut r, url_encode(client_id).as_str());
    push_str(&mut r, "&redirect_uri=");
    push_str(&mut r, url_encode(redirect.as_str()).as_str());
    push_str(&mut r, "&response_type=code&scope=openid%20email%20profile&state=");
    push_str(&mut r, url_encode(state).as_str());
    push_str(&mut r, "&access_type=online&prompt=consent");
    r
}

/// The answer to a request that starts OAuth.
#[derive(Clone, Debug)]
pub enum OAuthStart {
    /// 400 with this message: the state token is not pending.
    BadRequest(String),
    /// Temporary redirect to the provider.
    Redirect(String),
}

/// Starts OAuth for a state token: the provider redirect if the token is pending, else a
/// bad request.
pub fn oauth_start(pending: &PendingOAuths, state: &str, client_id: &str) -> (r: OAuthStart)
    requires
        pending.wf(),
    ensures
        pending_peer(pending.view(), state@) is None ==> (r matches OAuthStart::BadRequest(m) && m@
            == "Invalid or expired authentication state"@),
        pending_peer(pending.view(), state@) is Some ==> (r matches OAuthStart::Redirect(u) && u@
            == google_auth_url_text(client_id@, state@)),
{
    if !pending.contains(state) {
        return OAuthStart::BadRequest("Invalid or expired authentication state".to_owned());
    }
    OAuthStart::Redirect(google_auth_url(client_id, state))
}

/// Why a completion request is refused.
#[derive(Clone, Copy, Debug, PartialEq, Eq, Structural)]
pub enum OAuthError {
    InvalidState,
    TokenExchangeFailed,
    TokenParseFailed,
    NoAccessToken,
    UserinfoParseFailed,
    UserinfoFailed,
    NoEmail,
    DomainNotAllowed,
    Internal,
}

/// The HTTP status of a refusal.
pub open spec fn oauth_error_status(e: OAuthError) -> u16 {
    match e {
        OAuthError::InvalidState => 400,
        OAuthError::NoEmail | OAuthError::DomainNotAllowed => 403,
        _ => 500,
    }
}

/// The error text of a refusal.
pub open spec fn oauth_error_text(e: OAuthError) -> Seq<char> {
    match e {
        OAuthError::InvalidState => "Invalid or expired authentication state"@,
        OAuthError::TokenExchangeFailed => "Token exchange failed"@,
        OAuthError::TokenParseFailed => "Token parse failed"@,
        OAuthError::NoAccessToken => "No access token"@,
        OAuthError::UserinfoParseFailed => "Userinfo parse failed"@,
        OAuthError::UserinfoFailed => "Userinfo request failed"@,
        OAuthError::NoEmail => "No email in profile"@,
        OAuthError::DomainNotAllowed => "Your email domain is not authorized for VPN access"@,
        OAuthError::Internal => "Internal error"@,
    }
}

impl OAuthError {
    /// The HTTP status of the refusal.
    pub fn status(&self) -> (r: u16)
        ensures
            r == oauth_error_status(*self),
    {
        match self {
            OAuthError::InvalidState => 400,
            OAuthError::NoEmail | OAuthError::DomainNotAllowed => 403,
            _ => 500,
        }
    }

    /// The error text of the refusal.
    pub fn message(&self) -> (r: &'static str)
        ensures
            r@ == oauth_error_text(*self),
    {
        match self {
            OAuthError::InvalidState => "Invalid or expired authentication state",
            OAuthError::TokenExchangeFailed => "Token exchange failed",
            OAuthError::TokenParseFailed => "Token parse failed",
            OAuthError::NoAccessToken => "No access token",
            OAuthError::UserinfoParseFailed => "Userinfo parse failed",
            OAuthError::UserinfoFailed => "Userinfo request failed",
            OAuthError::NoEmail => "No email in profile",
            OAuthError::DomainNotAllowed => "Your email domain is not authorized for VPN access",
            OAuthError::Internal => "Internal error",
        }
    }
}

/// The outcome of the user-information request.
#[derive(Clone, Copy, Debug, PartialEq, Eq, Structural)]
pub enum UserinfoOutcome {
    /// The request could not be sent.
    SendFailed,
    /// The provider answered with an error status.
    BadStatus,
    /// The answer was not JSON.
    ParseFailed,
    /// A JSON answer.
    Received,
}

/// What the provider requests yielded, step by step.
#[derive(Clone, Debug)]
pub struct OAuthExchange {
    /// The token request was sent and answered.
    pub token_sent: bool,
    /// The token answer had a success status.
    pub token_status_ok: bool,
    /// The token answer was JSON.
    pub token_json_ok: bool,
    /// The access token in the answer.
    pub access_token: Option<String>,
    pub userinfo: UserinfoOutcome,
    /// The email in the user information.
    pub email: Option<String>,
}

/// The domain of an email address: the text after its last `@` (the whole text without one).
pub open spec fn email_domain(email: Seq<char>) -> Seq<char> {
    split_char(email, '@').last()
}

/// The email is allowed: no domain list, or its domain is on the list.
pub open spec fn domain_allowed(allowed: Seq<Seq<char>>, email: Seq<char>) -> bool {
    allowed.len() == 0 || allowed.contains(email_domain(email))
}

/// The result of a completion request, checked in order: the state token, the token
/// exchange, the access token, the user information, the email and its domain.
pub open spec fn oauth_complete_result(state_pending: bool, x: OAuthExchange, allowed: Seq<Seq<char>>) -> Result<Seq<char>, OAuthError> {
    if !state_pending {
        Err(OAuthError::InvalidState)
    } else if !x.token_sent || !x.token_status_ok {
        Err(OAuthError::TokenExchangeFailed)
    } else if !x.token_json_ok {
        Err(OAuthError::TokenParseFailed)
    } else if x.access_token is None {
        Err(OAuthError::NoAccessToken)
    } else if x.userinfo == UserinfoOutcome::ParseFailed {
        Err(OAuthError::UserinfoParseFailed)
    } else if x.userinfo != UserinfoOutcome::Received {
        Err(OAuthError::UserinfoFailed)
    } else {
        match x.email {
            None => Err(OAuthError::NoEmail),
            Some(e) => if domain_allowed(allowed, e@) {
                Ok(e@)
            } else {
                Err(OAuthError::DomainNotAllowed)
            },
        }
    }
}

/// The domain of an email address.
pub fn domain_of(email: &str) -> (r: String)
    ensures
        r@ == email_domain(email@),
{
    let parts = split_at_char(email, '@');
    proof {
        crate::text::lemma_split_char_nonempty_pub(email@, '@');
    }
    let last = parts.len() - 1;
    let r = parts[last].clone();
    assert(views(parts@)[last as int] == parts@[last as int]@);
    r
}

/// Whether an email's domain is allowed.
pub fn is_domain_allowed(allowed: &Vec<String>, email: &str) -> (r: bool)
    ensures
        r == domain_allowed(views(allowed@), email@),
{
    if allowed.len() == 0 {
        return true;
    }
    let d = domain_of(email);
    let mut i: usize = 0;
    while i < allowed.len()
        invariant
            i <= allowed@.len(),
            d@ == email_domain(email@),
            forall|j: int| 0 <= j < i ==> allowed@[j]@ != d@,
        decreases allowed@.len() - i,
    {
        if str_eq(allowed[i].as_str(), d.as_str()) {
            assert(views(allowed@)[i as int] == d@);
            return true;
        }
        i = i + 1;
    }
    assert(!views(allowed@).contains(d@)) by {
        if views(allowed@).contains(d@) {
            let j = choose|j: int| 0 <= j < views(allowed@).len() && views(allowed@)[j] == d@;
            assert(allowed@[j]@ == d@);
        }
    }
    false
}

/// Decides a completion request from what the provider requests yielded; on success the
/// result is the authenticated email.
pub fn decide_oauth_complete(state_pending: bool, x: &OAuthExchange, allowed: &Vec<String>) -> (r: Result<String, OAuthError>)
    ensures
        match (r, oauth_complete_result(state_pending, *x, views(allowed@))) {
            (Ok(e), Ok(se)) => e@ == se,
            (Err(a), Err(b)) => a == b,
            _ => false,
        },
{
    if !state_pending {
        return Err(OAuthError::InvalidState);
    }
    if !x.token_sent || !x.token_status_ok {
        return Err(OAuthError::TokenExchangeFailed);
    }
    if !x.token_json_ok {
        return Err(OAuthError::TokenParseFailed);
    }
    if x.access_token.is_none() {
        return Err(OAuthError::NoAccessToken);
    }
    match x.userinfo {
        UserinfoOutcome::ParseFailed => return Err(OAuthError::UserinfoParseFailed),
        UserinfoOutcome::Received => {},
        _ => return Err(OAuthError::UserinfoFailed),
    }
    match &x.email {
        None => Err(OAuthError::NoEmail),
        Some(e) => {
            if is_domain_allowed(allowed, e.as_str()) {
                Ok(e.clone())
            } else {
                Err(OAuthError::DomainNotAllowed)
            }
        },
    }
}

/// The form of the token request: the code, the client credentials, the redirect URI and the
/// grant type, in this order.
pub open spec fn is_token_form(f: Seq<(String, String)>, code: Seq<char>, client_id: Seq<char>, client_secret: Seq<char>) -> bool {
    &&& f.len() == 5
    &&& f[0].0@ == "code"@ && f[0].1@ == code
    &&& f[1].0@ == "client_id"@ && f[1].1@ == client_id
    &&& f[2].0@ == "client_secret"@ && f[2].1@ == client_secret
    &&& f[3].0@ == "redirect_uri"@ && f[3].1@ == callback_uri()
    &&& f[4].0@ == "grant_type"@ && f[4].1@ == "authorization_code"@
}

/// The form of the token request: the code, the client credentials, the redirect URI and the
/// grant type.
pub fn token_request_form(code: &str, client_id: &str, client_secret: &str) -> (r: Vec<(String, String)>)
    ensures
        is_token_form(r@, code@, client_id@, client_secret@),
{
    let mut r: Vec<(String, String)> = Vec::new();
    r.push(("code".to_owned(), code.to_owned()));
    r.push(("client_id".to_owned(), client_id.to_owned()));
    r.push(("client_secret".to_owned(), client_secret.to_owned()));
    r.push(("redirect_uri".to_owned(), redirect_uri()));
    r.push(("grant_type".to_owned(), "authorization_code".to_owned()));
    r
}

/// The first step of a completion request.
#[derive(Clone, Debug)]
pub enum OAuthCompleteStep {
    /// Answer at once with this refusal; no request goes to the provider.
    Refuse(OAuthError),
    /// Send the token request with this form to the provider.
    RequestToken(Vec<(String, String)>),
}

/// Starts a completion request: a state token that is not pending is refused (400) before
/// anything is asked of the provider; otherwise the code is to be exchanged with this token
/// request, and the provider's answers then go to `decide_oauth_complete`.
pub fn oauth_complete_start(
    pending: &PendingOAuths,
    state: &str,
    code: &str,
    client_id: &str,
    client_secret: &str,
) -> (r: OAuthCompleteStep)
    requires
        pending.wf(),
    ensures
        pending_peer(pending.view(), state@) is None ==> (r matches OAuthCompleteStep::Refuse(e) && e
            == OAuthError::InvalidState),
        pending_peer(pending.view(), state@) is Some ==> (r matches OAuthCompleteStep::RequestToken(f)
            && is_token_form(f@, code@, client_id@, client_secret@)),
{
    if !pending.contains(state) {
        return OAuthCompleteStep::Refuse(OAuthError::InvalidState);
    }
    OAuthCompleteStep::RequestToken(token_request_form(code, client_id, client_secret))
}

/// The JSON body of a successful completion, as serde_json writes `{"status": "ok", "email": e}`
/// (object keys in sorted order).
pub open spec fn oauth_success_body_text(email: Seq<char>) -> Seq<char> {
    "{\"email\":"@ + json_string_text(email) + ",\"status\":\"ok\"}"@
}

/// The JSON body of a refusal, as serde_json writes `{"error": message}`.
pub open spec fn oauth_error_body_text(message: Seq<char>) -> Seq<char> {
    "{\"error\":"@ + json_string_text(message) + "}"@
}

/// The answer to a completion request with the decided result: 200 with the status and the
/// email, or the refusal's status with its error text.
pub fn oauth_complete_answer(result: &Result<String, OAuthError>) -> (r: (u16, String))
    ensures
        match result {
            Ok(e) => r.0 == 200 && r.1@ == oauth_success_body_text(e@),
            Err(x) => r.0 == oauth_error_status(*x) && r.1@ == oauth_error_body_text(oauth_error_text(*x)),
        },
{
    match result {
        Ok(e) => {
            let mut body = "{\"email\":".to_owned();
            push_str(&mut body, json_string(e.as_str()).as_str());
            push_str(&mut body, ",\"status\":\"ok\"}");
            (200, body)
        },
        Err(x) => {
            let mut body = "{\"error\":".to_owned();
            push_str(&mut body, json_string(x.message()).as_str());
            push_str(&mut body, "}");
            (x.status(), body)
        },
    }
}


/// The domain of an email is the text after its last `@`.
pub proof fn law_email_domain_after_last_at(local: Seq<char>, domain: Seq<char>)
    requires
        !domain.contains('@'),
    ensures
        email_domain(local + seq!['@'] + domain) == domain,
    decreases domain.len(),
{
    let s = local + seq!['@'] + domain;
    if domain.len() == 0 {
        assert(s.last() == '@');
        assert(s.drop_last() =~= local);
    } else {
        let d = domain.drop_last();
        assert(!d.contains('@')) by {
            if d.contains('@') {
                let k = choose|k: int| 0 <= k < d.len() && d[k] == '@';
                assert(domain[k] == '@');
            }
        }
        law_email_domain_after_last_at(local, d);
        assert(s.drop_last() =~= local + seq!['@'] + d);
        assert(s.last() == domain.last());
        assert(domain.last() != '@') by {
            assert(domain[domain.len() - 1] == domain.last());
        }
        crate::text::lemma_split_char_nonempty_pub(s.drop_last(), '@');
        assert(d.push(domain.last()) =~= domain);
    }
}

/// An email is accepted exactly when no domains are listed or its domain is one of the listed
/// domains, at whatever position: so adding domains to the list, in front or behind, never
/// refuses an accepted email.
pub proof fn law_domain_list_membership(allowed: Seq<Seq<char>>, more: Seq<Seq<char>>, email: Seq<char>, i: int)
    ensures
        allowed.len() == 0 ==> domain_allowed(allowed, email),
        0 <= i < allowed.len() && allowed[i] == email_domain(email) ==> domain_allowed(allowed, email),
        allowed.len() > 0 && domain_allowed(allowed, email) ==> exists|j: int|
            0 <= j < allowed.len() && allowed[j] == email_domain(email),
        allowed.len() > 0 && domain_allowed(allowed, email) ==> domain_allowed(allowed + more, email)
            && domain_allowed(more + allowed, email),
{
    if 0 <= i < allowed.len() && allowed[i] == email_domain(email) {
        assert(allowed.contains(email_domain(email)));
    }
    if allowed.len() > 0 && domain_allowed(allowed, email) {
        let j = choose|j: int| 0 <= j < allowed.len() && allowed[j] == email_domain(email);
        assert((allowed + more)[j] == allowed[j]);
        assert((more + allowed)[more.len() + j] == allowed[j]);
        assert((allowed + more).contains(email_domain(email)));
        assert((more + allowed).contains(email_domain(email)));
    }
}

} // verus!
