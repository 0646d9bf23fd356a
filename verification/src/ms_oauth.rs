use vstd::prelude::*;

use base64::Engine;
use crate::errors::{AppError, AppResult, ErrorKind, ErrorView};
use crate::text::{find_char_from, find_from};
use crate::user::{clone_opt, now_millis, opt_view, User};
use crate::utils::{base64_url_no_pad_encoded, encode_base64_url_no_pad, random_bytes};

verus! {

/// The extra field of the token response of the identity provider: the
/// OpenID Connect id token.
#[derive(Clone, Debug)]
pub struct MSExtraTokenFields {
    pub id_token: String,
}

/// The claims of an id token that the service reads.
#[derive(Clone, Debug)]
pub struct TokenClaims {
    pub name: String,
    pub preferred_username: String,
    pub oid: String,
    pub email: Option<String>,
}

/// Whether `u` is the user that `claims` describe (whatever its creation time).
pub open spec fn user_from_claims(u: User, claims: TokenClaims) -> bool {
    &&& u.id@ == claims.oid@
    &&& u.name@ == claims.name@
    &&& opt_view(u.email) == opt_view(claims.email)
}

impl TokenClaims {
    /// The user that these claims describe, created at `created` (milliseconds
    /// since the Unix epoch).
    pub fn user_at(&self, created: i64) -> (u: User)
        ensures
            user_from_claims(u, *self),
            u.created == created,
    {
        User {
            id: self.oid.clone(),
            name: self.name.clone(),
            email: clone_opt(&self.email),
            created,
        }
    }

    /// The user that these claims describe, created now; a system error where
    /// the clock reads a time before the Unix epoch.
    pub fn to_user(&self) -> (res: AppResult<User>)
        ensures
            match res {
                Ok(u) => user_from_claims(u, *self),
                Err(e) => e@.0 == ErrorKind::System,
            },
    {
        match now_millis() {
            Ok(ms) => Ok(self.user_at(ms)),
            Err(e) => Err(e),
        }
    }
}

/// The user that signs in with `claims`, given the stored user with the
/// claims' object id, if there is one; and whether that user must be stored.
pub fn user_for_login(existing: Option<User>, claims: &TokenClaims) -> (res: AppResult<(User, bool)>)
    ensures
        match existing {
            Some(u) => res == Ok::<(User, bool), AppError>((u, false)),
            None => match res {
                Ok(p) => p.1 && user_from_claims(p.0, *claims),
                Err(e) => e@.0 == ErrorKind::System,
            },
        },
{
    match existing {
        Some(u) => Ok((u, false)),
        None => match claims.to_user() {
            Ok(u) => Ok((u, true)),
            Err(e) => Err(e),
        },
    }
}

/// Whether `url::Url::parse` accepts `text`.
pub uninterp spec fn url_parses(text: Seq<char>) -> bool;

/// The text of the URI that `http::Uri::builder()` builds from a scheme, an
/// authority and a path with query; `None` where the builder fails.
pub uninterp spec fn http_uri_text(scheme: Seq<char>, authority: Seq<char>, path_and_query: Seq<char>) -> Option<Seq<char>>;

/// The text of the URL that `url::Url::parse_with_params` makes of `base` with
/// the one query parameter `name=value`; `None` where it fails.
pub uninterp spec fn url_with_param(base: Seq<char>, name: Seq<char>, value: Seq<char>) -> Option<Seq<char>>;

/// What base64 decoding (standard alphabet, no padding) makes of `text`;
/// `None` where it fails.
pub uninterp spec fn base64_no_pad_decoded(text: Seq<char>) -> Option<Seq<u8>>;

#[verifier::external_type_specification]
#[verifier::external_body]
pub struct ExUrlParseError(oauth2::url::ParseError);

#[verifier::external_type_specification]
#[verifier::external_body]
pub struct ExHttpError(axum::http::Error);

#[verifier::external_type_specification]
#[verifier::external_body]
pub struct ExDecodeError(base64::DecodeError);

/// Calls `url::Url::parse` on `text` and keeps only whether it succeeded.
/// Trusted: it succeeds exactly where `url_parses` holds.
#[verifier::external_body]
fn validate_url(text: &str) -> (res: Result<(), oauth2::url::ParseError>)
    ensures
        res is Ok <==> url_parses(text@),
{
    oauth2::url::Url::parse(text).map(|_| ())
}

/// Builds a URI with `http::Uri::builder()` and hands out its text. Trusted:
/// the outcome is what `http_uri_text` names, and a built URI's text begins
/// with the scheme and the authority as given, joined by `://` (the builder
/// keeps both verbatim and `Display` writes them first).
#[verifier::external_body]
fn build_uri(scheme: &str, authority: &str, path_and_query: &str) -> (res: Result<String, axum::http::Error>)
    ensures
        match res {
            Ok(s) => http_uri_text(scheme@, authority@, path_and_query@) == Some(s@)
                && starts_with_origin(s@, scheme@, authority@),
            Err(_) => http_uri_text(scheme@, authority@, path_and_query@) is None,
        },
{
    axum::http::Uri::builder()
        .scheme(scheme)
        .authority(authority)
        .path_and_query(path_and_query)
        .build()
        .map(|uri| uri.to_string())
}

/// Calls `url::Url::parse_with_params` with one parameter and hands out the
/// text of the URL. Trusted: the outcome is what `url_with_param` names.
#[verifier::external_body]
fn parse_url_with_param(base: &str, name: &str, value: &str) -> (res: Result<String, oauth2::url::ParseError>)
    ensures
        match res {
            Ok(s) => url_with_param(base@, name@, value@) == Some(s@),
            Err(_) => url_with_param(base@, name@, value@) is None,
        },
{
    oauth2::url::Url::parse_with_params(base, &[(name, value)]).map(|url| url.as_str().to_string())
}

/// Decodes base64 text (standard alphabet, no padding) with the `base64`
/// crate. Trusted: the outcome is what `base64_no_pad_decoded` names.
#[verifier::external_body]
fn decode_base64_no_pad(text: &str) -> (res: Result<Vec<u8>, base64::DecodeError>)
    ensures
        match res {
            Ok(bytes) => base64_no_pad_decoded(text@) == Some(bytes@),
            Err(_) => base64_no_pad_decoded(text@) is None,
        },
{
    base64::engine::general_purpose::STANDARD_NO_PAD.decode(text)
}

/// The display text of a `url::ParseError`. Trusted; nothing is stated of the text.
#[verifier::external_body]
fn url_error_message(e: &oauth2::url::ParseError) -> String {
    format!("{}", e)
}

/// The display text of an `http::Error`. Trusted; nothing is stated of the text.
#[verifier::external_body]
fn http_error_message(e: &axum::http::Error) -> String {
    format!("{}", e)
}

/// The display text of a `base64::DecodeError`. Trusted; nothing is stated of the text.
#[verifier::external_body]
fn decode_error_message(e: &base64::DecodeError) -> String {
    format!("{}", e)
}

/// The text of the authorization URL that `oauth2` builds for a client with
/// the given authorization endpoint, client id and redirect URL, asking for the
/// given scopes (in order) with the given state.
pub uninterp spec fn authorize_url_text(
    auth_url: Seq<char>,
    client_id: Seq<char>,
    redirect_url: Seq<char>,
    scopes: Seq<Seq<char>>,
    state: Seq<char>,
) -> Seq<char>;

/// A list of texts as values.
pub open spec fn texts_view(texts: Seq<String>) -> Seq<Seq<char>> {
    texts.map_values(|t: String| t@)
}

/// Builds an `oauth2` client for `client_id` with `auth_url` and `redirect_url`,
/// asks it for the authorization URL with state `state`, adds each scope, and
/// hands out the URL's text. Trusted: the text is what `authorize_url_text`
/// names; the call fails only where `url::Url::parse` rejects the authorization
/// endpoint or the redirect URL (`AuthUrl::new`, `RedirectUrl::new`).
#[verifier::external_body]
fn authorize_url(client_id: &str, auth_url: &str, redirect_url: &str, scopes: &Vec<String>, state: &str)
    -> (res: Result<String, oauth2::url::ParseError>)
    ensures
        res matches Ok(u) ==> u@ == authorize_url_text(auth_url@, client_id@, redirect_url@, texts_view(scopes@), state@),
        url_parses(auth_url@) && url_parses(redirect_url@) ==> res is Ok,
{
    let client = oauth2::basic::BasicClient::new(oauth2::ClientId::new(client_id.to_string()), None,
        oauth2::AuthUrl::new(auth_url.to_string())?, None)
        .set_redirect_uri(oauth2::RedirectUrl::new(redirect_url.to_string())?);
    let mut request = client.authorize_url(|| oauth2::CsrfToken::new(state.to_string()));
    for scope in scopes.iter() {
        request = request.add_scope(oauth2::Scope::new(scope.clone()));
    }
    Ok(request.url().0.to_string())
}

/// The scopes asked for at sign-in.
pub open spec fn login_scopes() -> Seq<Seq<char>> {
    seq!["openid"@, "profile"@, "email"@, "offline_access"@]
}

/// The outcome of an operation whose errors may carry a message from an
/// outside crate: a value, an exact error, or an error of a kind whose message
/// the outside crate writes.
pub enum Outcome<T> {
    Value(T),
    Exact(ErrorView),
    OfKind(ErrorKind),
}

/// Whether an executable text result is the given outcome.
pub open spec fn text_agrees(res: AppResult<String>, o: Outcome<Seq<char>>) -> bool {
    match o {
        Outcome::Value(v) => res matches Ok(s) && s@ == v,
        Outcome::Exact(e) => res matches Err(err) && err@ == e,
        Outcome::OfKind(k) => res matches Err(err) && err@.0 == k,
    }
}

/// The redirect URL on this host for `return_path`: the scheme and authority of
/// the incoming request, with `return_path` as path and query.
pub open spec fn redirect_url_outcome(
    scheme: Option<Seq<char>>,
    authority: Option<Seq<char>>,
    return_path: Seq<char>,
) -> Outcome<Seq<char>> {
    match scheme {
        None => Outcome::Exact((ErrorKind::Http, "Missing scheme"@)),
        Some(s) => match authority {
            None => Outcome::Exact((ErrorKind::Http, "Missing authority"@)),
            Some(a) => match http_uri_text(s, a, return_path) {
                None => Outcome::OfKind(ErrorKind::Http),
                Some(u) => if url_parses(u) {
                    Outcome::Value(u)
                } else {
                    Outcome::OfKind(ErrorKind::Parse)
                },
            },
        },
    }
}

/// A redirect URL is the URI built from the request's own scheme and
/// authority with the return path, and nothing else.
pub proof fn lemma_redirect_uses_request_origin(s: Seq<char>, a: Seq<char>, p: Seq<char>, u: Seq<char>)
    ensures
        redirect_url_outcome(Some(s), Some(a), p) == Outcome::Value(u)
            <==> (http_uri_text(s, a, p) == Some(u) && url_parses(u)),
{
}

/// Whether `url` begins with `scheme`, then `://`, then `authority`.
pub open spec fn starts_with_origin(url: Seq<char>, scheme: Seq<char>, authority: Seq<char>) -> bool {
    let origin = scheme + "://"@ + authority;
    origin.len() <= url.len() && url.subrange(0, origin.len() as int) == origin
}

/// An optional text as a value.
pub open spec fn opt_str_view(s: Option<&str>) -> Option<Seq<char>> {
    match s {
        Some(t) => Some(t@),
        None => None,
    }
}

/// The address of the identity provider's sign-out page.
pub open spec fn logout_base() -> Seq<char> {
    "https://login.microsoftonline.com/common/oauth2/v2.0/logout"@
}

/// The name of the sign-out parameter that holds where to return.
pub open spec fn logout_param() -> Seq<char> {
    "post_logout_redirect_uri"@
}

/// The sign-out URL: the provider's sign-out page, told to return to the
/// redirect URL for `on_logout_complete`.
pub open spec fn logout_outcome(
    scheme: Option<Seq<char>>,
    authority: Option<Seq<char>>,
    on_logout_complete: Seq<char>,
) -> Outcome<Seq<char>> {
    match redirect_url_outcome(scheme, authority, on_logout_complete) {
        Outcome::Value(r) => match url_with_param(logout_base(), logout_param(), r) {
            Some(u) => Outcome::Value(u),
            None => Outcome::OfKind(ErrorKind::Parse),
        },
        other => other,
    }
}

/// The text between the first and the second `.` of `s`, or after the first
/// `.` where there is no second one: the payload part of a JSON web token.
pub open spec fn second_segment(s: Seq<char>) -> Option<Seq<char>> {
    match find_from(s, '.', 0) {
        None => None,
        Some(i) => match find_from(s, '.', i + 1) {
            Some(k) => Some(s.subrange(i + 1, k)),
            None => Some(s.subrange(i + 1, s.len() as int)),
        },
    }
}

/// The common prefix of the identity provider's endpoints for a tenant.
pub open spec fn login_uri_prefix_for(tenant: Seq<char>) -> Seq<char> {
    "https://login.microsoftonline.com/"@ + tenant + "/oauth2/v2.0/"@
}

/// The authorization endpoint for a tenant.
pub open spec fn authorize_endpoint_for(tenant: Seq<char>) -> Seq<char> {
    login_uri_prefix_for(tenant) + "/authorize"@
}

/// The token endpoint for a tenant.
pub open spec fn token_endpoint_for(tenant: Seq<char>) -> Seq<char> {
    login_uri_prefix_for(tenant) + "/token"@
}

/// Sign-in with Microsoft Entra ID over OAuth 2.0.
#[derive(Debug)]
pub struct MSOAuthService {
    app_id: String,
    client_secret: String,
    tennant_id: String,
    callback_path: String,
}

impl Clone for MSOAuthService {
    fn clone(&self) -> (c: Self)
        ensures
            c.app_id() == self.app_id(),
            c.client_secret() == self.client_secret(),
            c.tennant_id() == self.tennant_id(),
            c.callback_path() == self.callback_path(),
    {
        MSOAuthService {
            app_id: self.app_id.clone(),
            client_secret: self.client_secret.clone(),
            tennant_id: self.tennant_id.clone(),
            callback_path: self.callback_path.clone(),
        }
    }
}

impl MSOAuthService {
    /// The application (client) id.
    pub closed spec fn app_id(&self) -> Seq<char> {
        self.app_id@
    }

    /// The client secret.
    pub closed spec fn client_secret(&self) -> Seq<char> {
        self.client_secret@
    }

    /// The tenant id.
    pub closed spec fn tennant_id(&self) -> Seq<char> {
        self.tennant_id@
    }

    /// The path to which the provider returns after sign-in.
    pub closed spec fn callback_path(&self) -> Seq<char> {
        self.callback_path@
    }

    pub fn new(app_id: String, client_secret: String, tennant_id: String, callback_path: String) -> (s: Self)
        ensures
            s.app_id() == app_id@,
            s.client_secret() == client_secret@,
            s.tennant_id() == tennant_id@,
            s.callback_path() == callback_path@,
    {
        Self { app_id, client_secret, tennant_id, callback_path }
    }

    /// The application (client) id.
    pub fn client_id_text(&self) -> (s: &String)
        ensures
            s@ == self.app_id(),
    {
        &self.app_id
    }

    /// The client secret.
    pub fn client_secret_text(&self) -> (s: &String)
        ensures
            s@ == self.client_secret(),
    {
        &self.client_secret
    }

    /// The authorization and token endpoints of the tenant, each confirmed to
    /// be a URL.
    pub fn client_endpoints(&self) -> (res: AppResult<(String, String)>)
        ensures
            ({
                let auth = authorize_endpoint_for(self.tennant_id());
                let token = token_endpoint_for(self.tennant_id());
                if !url_parses(auth) {
                    res matches Err(e) && e@.0 == ErrorKind::Parse
                } else if !url_parses(token) {
                    res matches Err(e) && e@.0 == ErrorKind::Parse
                } else {
                    res matches Ok(p) && p.0@ == auth && p.1@ == token
                }
            }),
    {
        let mut prefix = String::from_str("https://login.microsoftonline.com/");
        prefix.append(self.tennant_id.as_str());
        prefix.append("/oauth2/v2.0/");
        let mut auth = prefix.clone();
        auth.append("/authorize");
        let mut token = prefix;
        token.append("/token");
        if let Err(e) = validate_url(auth.as_str()) {
            return Err(AppError::ParseError(url_error_message(&e)));
        }
        if let Err(e) = validate_url(token.as_str()) {
            return Err(AppError::ParseError(url_error_message(&e)));
        }
        Ok((auth, token))
    }

    /// The redirect URL on the host of the incoming request, given the
    /// request's scheme and authority, for `return_path`.
    pub fn get_redirect_url(&self, scheme: Option<&str>, authority: Option<&str>, return_path: &str) -> (res: AppResult<String>)
        ensures
            text_agrees(res, redirect_url_outcome(opt_str_view(scheme), opt_str_view(authority), return_path@)),
            match (scheme, authority, res) {
                (Some(s), Some(a), Ok(u)) => {
                    &&& http_uri_text(s@, a@, return_path@) == Some(u@)
                    &&& url_parses(u@)
                    &&& starts_with_origin(u@, s@, a@)
                },
                (None, _, r) => r matches Err(e) && e@.0 == ErrorKind::Http,
                (_, None, r) => r matches Err(e) && e@.0 == ErrorKind::Http,
                _ => true,
            },
    {
        let scheme = match scheme {
            Some(s) => s,
            None => return Err(AppError::HttpError(String::from_str("Missing scheme"))),
        };
        let authority = match authority {
            Some(a) => a,
            None => return Err(AppError::HttpError(String::from_str("Missing authority"))),
        };
        let uri = match build_uri(scheme, authority, return_path) {
            Ok(u) => u,
            Err(e) => return Err(AppError::HttpError(http_error_message(&e))),
        };
        match validate_url(uri.as_str()) {
            Ok(()) => Ok(uri),
            Err(e) => Err(AppError::ParseError(url_error_message(&e))),
        }
    }

    /// The redirect URL to which the provider returns after sign-in.
    pub fn login_redirect_url(&self, scheme: Option<&str>, authority: Option<&str>) -> (res: AppResult<String>)
        ensures
            text_agrees(res, redirect_url_outcome(opt_str_view(scheme), opt_str_view(authority), self.callback_path())),
    {
        self.get_redirect_url(scheme, authority, self.callback_path.as_str())
    }

    /// The provider's sign-out URL, which returns to `on_logout_complete` on
    /// the host of the incoming request.
    pub fn logout(&self, scheme: Option<&str>, authority: Option<&str>, on_logout_complete: &str) -> (res: AppResult<String>)
        ensures
            text_agrees(res, logout_outcome(opt_str_view(scheme), opt_str_view(authority), on_logout_complete@)),
    {
        let redirect = match self.get_redirect_url(scheme, authority, on_logout_complete) {
            Ok(r) => r,
            Err(e) => return Err(e),
        };
        match parse_url_with_param(
            "https://login.microsoftonline.com/common/oauth2/v2.0/logout",
            "post_logout_redirect_uri",
            redirect.as_str(),
        ) {
            Ok(u) => Ok(u),
            Err(e) => Err(AppError::ParseError(url_error_message(&e))),
        }
    }

    /// Starts sign-in: the authorization URL of the tenant, returning to the
    /// sign-in callback on the host of the incoming request, with a fresh state
    /// of 16 random bytes in URL-safe base64; and that state. The errors are
    /// those of the endpoints, then those of the redirect URL, then a system
    /// error where no random bytes are to be had.
    pub fn login_start(&self, scheme: Option<&str>, authority: Option<&str>) -> (res: AppResult<(String, String)>)
        ensures
            ({
                let auth = authorize_endpoint_for(self.tennant_id());
                let token = token_endpoint_for(self.tennant_id());
                let redirect = redirect_url_outcome(opt_str_view(scheme), opt_str_view(authority), self.callback_path());
                if !url_parses(auth) || !url_parses(token) {
                    res matches Err(e) && e@.0 == ErrorKind::Parse
                } else {
                    match redirect {
                        Outcome::Value(r) => match res {
                            Ok(p) => {
                                &&& exists|bytes: Seq<u8>| bytes.len() == 16 && p.1@ == base64_url_no_pad_encoded(bytes)
                                &&& p.0@ == authorize_url_text(auth, self.app_id(), r, login_scopes(), p.1@)
                            },
                            Err(e) => e@.0 == ErrorKind::System,
                        },
                        Outcome::Exact(e) => res matches Err(err) && err@ == e,
                        Outcome::OfKind(k) => res matches Err(err) && err@.0 == k,
                    }
                }
            }),
    {
        match self.client_endpoints() {
            Ok(_) => {},
            Err(e) => return Err(e),
        }
        let redirect = match self.login_redirect_url(scheme, authority) {
            Ok(r) => r,
            Err(e) => return Err(e),
        };
        let state_bytes = match random_bytes(16) {
            Ok(b) => b,
            Err(e) => return Err(e),
        };
        let state = encode_base64_url_no_pad(state_bytes.as_slice());
        match self.authorization_url(redirect.as_str(), state.as_str()) {
            Ok(url) => Ok((url, state)),
            Err(e) => Err(e),
        }
    }

    /// The authorization URL of the tenant that returns to `redirect` and
    /// carries `state`, asking for the sign-in scopes; a parse error where the
    /// authorization endpoint or `redirect` is not a URL.
    pub fn authorization_url(&self, redirect: &str, state: &str) -> (res: AppResult<String>)
        ensures
            ({
                let auth = authorize_endpoint_for(self.tennant_id());
                if !url_parses(auth) || !url_parses(redirect@) {
                    res matches Err(e) && e@.0 == ErrorKind::Parse
                } else {
                    res matches Ok(u) && u@ == authorize_url_text(auth, self.app_id(), redirect@, login_scopes(), state@)
                }
            }),
    {
        let mut auth = String::from_str("https://login.microsoftonline.com/");
        auth.append(self.tennant_id.as_str());
        auth.append("/oauth2/v2.0/");
        auth.append("/authorize");
        assert(auth@ =~= authorize_endpoint_for(self.tennant_id()));
        if let Err(e) = validate_url(auth.as_str()) {
            return Err(AppError::ParseError(url_error_message(&e)));
        }
        if let Err(e) = validate_url(redirect) {
            return Err(AppError::ParseError(url_error_message(&e)));
        }
        let mut scopes: Vec<String> = Vec::new();
        scopes.push(String::from_str("openid"));
        scopes.push(String::from_str("profile"));
        scopes.push(String::from_str("email"));
        scopes.push(String::from_str("offline_access"));
        assert(texts_view(scopes@) =~= login_scopes());
        match authorize_url(self.app_id.as_str(), auth.as_str(), redirect, &scopes, state) {
            Ok(url) => Ok(url),
            Err(e) => Err(AppError::ParseError(url_error_message(&e))),
        }
    }

    /// The decoded payload of an id token: the second `.`-separated part,
    /// base64 decoded. The claims are read from it as JSON.
    pub fn id_token_payload(&self, id_token: &str) -> (res: AppResult<Vec<u8>>)
        ensures
            match second_segment(id_token@) {
                None => res matches Err(e) && e@ == (ErrorKind::Authentication, "Invalid JWT token."@),
                Some(part) => match base64_no_pad_decoded(part) {
                    Some(bytes) => res matches Ok(b) && b@ == bytes,
                    None => res matches Err(e) && e@.0 == ErrorKind::Parse,
                },
            },
    {
        let n = id_token.unicode_len();
        let first = match find_char_from(id_token, '.', 0) {
            Some(i) => i,
            None => return Err(AppError::AuthenticationError(String::from_str("Invalid JWT token."))),
        };
        let end = match find_char_from(id_token, '.', first + 1) {
            Some(k) => k,
            None => n,
        };
        let part = id_token.substring_char(first + 1, end);
        match decode_base64_no_pad(part) {
            Ok(bytes) => Ok(bytes),
            Err(e) => Err(AppError::ParseError(decode_error_message(&e))),
        }
    }
}

} // verus!
