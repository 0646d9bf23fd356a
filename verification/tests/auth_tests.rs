use rookrant_serv::authentication::{allowed_no_auth, authentication_action, AuthAction};
use rookrant_serv::errors::AppError;
use rookrant_serv::ms_oauth::{user_for_login, MSOAuthService, TokenClaims};
use rookrant_serv::text::{find_char_from, starts_with, text_eq};
use rookrant_serv::url_constants::AUTH_LOGIN;
use rookrant_serv::user::User;

fn user(id: &str) -> User {
    User { id: id.to_string(), name: "Rook".to_string(), email: None, created: 0 }
}

#[test]
fn open_paths() {
    assert!(allowed_no_auth("/auth/login"));
    assert!(allowed_no_auth("/auth"));
    assert!(allowed_no_auth("/css/rant.css"));
    assert!(allowed_no_auth("/script/app.js"));
    assert!(allowed_no_auth("/images/logo.png"));
    assert!(allowed_no_auth("/welcome"));
    assert!(allowed_no_auth("/authors"));
    assert!(!allowed_no_auth("/"));
    assert!(!allowed_no_auth("/rant_add"));
    assert!(!allowed_no_auth("auth/login"));
    assert!(!allowed_no_auth("/Auth"));
    assert!(!allowed_no_auth(""));
}

#[test]
fn signed_in_user_proceeds_everywhere() {
    match authentication_action(Ok(Some(user("u1"))), "/rant_add") {
        AuthAction::Proceed(Some(u)) => assert_eq!(u.id, "u1"),
        _ => panic!("expected to proceed with the user"),
    }
}

#[test]
fn anonymous_visitor_is_redirected_from_closed_paths() {
    match authentication_action(Ok(None), "/rant_add") {
        AuthAction::Redirect(to) => assert_eq!(to, AUTH_LOGIN),
        _ => panic!("expected a redirect"),
    }
    assert!(matches!(authentication_action(Ok(None), "/welcome"), AuthAction::Proceed(None)));
}

#[test]
fn cookie_errors_count_as_anonymous() {
    let err = || Err(AppError::ParseError("bad token".to_string()));
    assert!(matches!(authentication_action(err(), "/"), AuthAction::Redirect("/auth/login")));
    assert!(matches!(authentication_action(err(), "/auth/login"), AuthAction::Proceed(None)));
}

#[test]
fn existing_user_is_kept_at_login() {
    let claims = TokenClaims {
        name: "New Name".to_string(),
        preferred_username: "p".to_string(),
        oid: "u1".to_string(),
        email: Some("a@b.c".to_string()),
    };
    let (u, store) = user_for_login(Some(user("u1")), &claims).unwrap();
    assert!(!store);
    assert_eq!(u.name, "Rook");
    let (u, store) = user_for_login(None, &claims).unwrap();
    assert!(store);
    assert_eq!(u.id, "u1");
    assert_eq!(u.name, "New Name");
    assert_eq!(u.email, Some("a@b.c".to_string()));
    assert!(u.created > 0);
}

#[test]
fn claims_become_a_user() {
    let claims = TokenClaims {
        name: "N".to_string(),
        preferred_username: "pn".to_string(),
        oid: "oid-1".to_string(),
        email: None,
    };
    let u = claims.to_user().unwrap();
    assert_eq!(u.id, "oid-1");
    assert_eq!(u.name, "N");
    assert_eq!(u.email, None);
}

#[test]
fn text_helpers() {
    assert!(text_eq("abc", "abc"));
    assert!(!text_eq("abc", "abd"));
    assert!(starts_with("hello", "he"));
    assert!(starts_with("hello", ""));
    assert!(!starts_with("he", "hello"));
    assert_eq!(find_char_from("a.b.c", '.', 0), Some(1));
    assert_eq!(find_char_from("a.b.c", '.', 2), Some(3));
    assert_eq!(find_char_from("a.b.c", '.', 4), None);
    assert_eq!(find_char_from("é.x", '.', 0), Some(1));
}

fn oauth() -> MSOAuthService {
    MSOAuthService::new("app".to_string(), "secret".to_string(), "tenant".to_string(), "/auth/login_complete".to_string())
}

#[test]
fn endpoints_of_tenant() {
    let (auth, token) = oauth().client_endpoints().unwrap();
    assert_eq!(auth, "https://login.microsoftonline.com/tenant/oauth2/v2.0//authorize");
    assert_eq!(token, "https://login.microsoftonline.com/tenant/oauth2/v2.0//token");
}

#[test]
fn redirect_url_needs_scheme_and_authority() {
    let s = oauth();
    let e = s.get_redirect_url(None, Some("example.com"), "/x").unwrap_err();
    assert!(matches!(e, AppError::HttpError(ref m) if m == "Missing scheme"));
    let e = s.get_redirect_url(Some("https"), None, "/x").unwrap_err();
    assert!(matches!(e, AppError::HttpError(ref m) if m == "Missing authority"));
    assert_eq!(
        s.get_redirect_url(Some("https"), Some("example.com:3000"), "/auth/login").unwrap(),
        "https://example.com:3000/auth/login"
    );
    assert_eq!(
        s.login_redirect_url(Some("https"), Some("example.com")).unwrap(),
        "https://example.com/auth/login_complete"
    );
    let e = s.get_redirect_url(Some("https"), Some("bad host"), "/x").unwrap_err();
    assert!(matches!(e, AppError::HttpError(_)));
}

#[test]
fn logout_url_returns_to_the_host() {
    let url = oauth().logout(Some("https"), Some("example.com"), "/auth/login").unwrap();
    assert_eq!(
        url,
        "https://login.microsoftonline.com/common/oauth2/v2.0/logout?post_logout_redirect_uri=https%3A%2F%2Fexample.com%2Fauth%2Flogin"
    );
    let e = oauth().logout(None, Some("example.com"), "/auth/login").unwrap_err();
    assert!(matches!(e, AppError::HttpError(_)));
}

#[test]
fn id_token_payload_is_second_part_decoded() {
    let s = oauth();
    assert_eq!(s.id_token_payload("hdr.eyJhIjoxfQ.sig").unwrap(), b"{\"a\":1}".to_vec());
    assert_eq!(s.id_token_payload("hdr.eyJhIjoxfQ").unwrap(), b"{\"a\":1}".to_vec());
    assert_eq!(s.id_token_payload("hdr..sig").unwrap(), Vec::<u8>::new());
    let e = s.id_token_payload("no-dots").unwrap_err();
    assert!(matches!(e, AppError::AuthenticationError(ref m) if m == "Invalid JWT token."));
    let e = s.id_token_payload("a.!!!.c").unwrap_err();
    assert!(matches!(e, AppError::ParseError(_)));
    let e = s.id_token_payload("a.eyJhIjoxfQ==.c").unwrap_err();
    assert!(matches!(e, AppError::ParseError(_)));
}

#[test]
fn login_start_builds_the_authorization_url() {
    let (url, state) = oauth().login_start(Some("https"), Some("example.com")).unwrap();
    assert_eq!(state.len(), 22);
    assert!(state.chars().all(|c| c.is_ascii_alphanumeric() || c == '-' || c == '_'));
    let expected = format!(
        "https://login.microsoftonline.com/tenant/oauth2/v2.0//authorize?response_type=code&client_id=app&state={}&redirect_uri=https%3A%2F%2Fexample.com%2Fauth%2Flogin_complete&scope=openid+profile+email+offline_access",
        state
    );
    assert_eq!(url, expected);
    let (_, other_state) = oauth().login_start(Some("https"), Some("example.com")).unwrap();
    assert_ne!(state, other_state);
}

#[test]
fn login_start_reports_redirect_errors() {
    let e = oauth().login_start(None, Some("example.com")).unwrap_err();
    assert!(matches!(e, AppError::HttpError(ref m) if m == "Missing scheme"));
    let e = oauth().login_start(Some("https"), None).unwrap_err();
    assert!(matches!(e, AppError::HttpError(ref m) if m == "Missing authority"));
}

#[test]
fn user_at_takes_the_given_time() {
    let claims = TokenClaims {
        name: "N".to_string(),
        preferred_username: "pn".to_string(),
        oid: "oid-1".to_string(),
        email: Some("n@x.y".to_string()),
    };
    let u = claims.user_at(1_700_000_000_123);
    assert_eq!(u.id, "oid-1");
    assert_eq!(u.name, "N");
    assert_eq!(u.email, Some("n@x.y".to_string()));
    assert_eq!(u.created, 1_700_000_000_123);
}

#[test]
fn authorization_url_for_state() {
    let url = oauth().authorization_url("https://example.com/auth/login_complete", "abc").unwrap();
    assert_eq!(
        url,
        "https://login.microsoftonline.com/tenant/oauth2/v2.0//authorize?response_type=code&client_id=app&state=abc&redirect_uri=https%3A%2F%2Fexample.com%2Fauth%2Flogin_complete&scope=openid+profile+email+offline_access"
    );
    let e = oauth().authorization_url("not a url", "abc").unwrap_err();
    assert!(matches!(e, AppError::ParseError(_)));
}
