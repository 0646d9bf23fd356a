use vstd::prelude::*;

use crate::errors::AppResult;
use crate::text::{has_prefix, starts_with};
use crate::url_constants::AUTH_LOGIN;
use crate::user::User;

verus! {

/// Whether a request path may be served to a visitor who is not signed in:
/// paths under `/auth`, `/script`, `/css`, `/images` and `/welcome`. A path
/// qualifies where it begins with one of these texts.
pub open spec fn open_path(path: Seq<char>) -> bool {
    ||| has_prefix(path, "/auth"@)
    ||| has_prefix(path, "/script"@)
    ||| has_prefix(path, "/css"@)
    ||| has_prefix(path, "/images"@)
    ||| has_prefix(path, "/welcome"@)
}

/// Whether a request path may be served to a visitor who is not signed in.
pub fn allowed_no_auth(path: &str) -> (b: bool)
    ensures
        b == open_path(path@),
{
    starts_with(path, "/auth")
        || starts_with(path, "/script")
        || starts_with(path, "/css")
        || starts_with(path, "/images")
        || starts_with(path, "/welcome")
}

/// What the authentication layer does with a request.
pub enum AuthAction {
    /// Serve the request, with the signed-in user if there is one.
    Proceed(Option<User>),
    /// Send the visitor to the given location.
    Redirect(&'static str),
}

/// What the authentication layer does with a request to `path`, given the user
/// read from the request's cookie: a signed-in user is served; without one
/// (no cookie, or a cookie that fails to give a user) only the open paths are
/// served, and every other request is sent to the sign-in page.
pub open spec fn auth_outcome(found: AppResult<Option<User>>, path: Seq<char>) -> AuthAction {
    match found {
        Ok(Some(u)) => AuthAction::Proceed(Some(u)),
        _ => if open_path(path) {
            AuthAction::Proceed(None)
        } else {
            AuthAction::Redirect(AUTH_LOGIN)
        },
    }
}

/// What the authentication layer does with a request to `path`; see [`auth_outcome`].
pub fn authentication_action(found: AppResult<Option<User>>, path: &str) -> (a: AuthAction)
    ensures
        a == auth_outcome(found, path@),
        found matches Ok(Some(u)) ==> a == AuthAction::Proceed(Some(u)),
        !(found matches Ok(Some(_))) && open_path(path@) ==> a == AuthAction::Proceed(None),
        !(found matches Ok(Some(_))) && !open_path(path@) ==> a == AuthAction::Redirect(AUTH_LOGIN),
{
    match found {
        Ok(Some(user)) => AuthAction::Proceed(Some(user)),
        _ => {
            if allowed_no_auth(path) {
                AuthAction::Proceed(None)
            } else {
                AuthAction::Redirect(AUTH_LOGIN)
            }
        },
    }
}

/// A signed-in visitor is never sent away; a visitor without a user is sent
/// away exactly from the paths that are not open, and always to the sign-in page.
pub proof fn lemma_redirect_only_without_user(found: AppResult<Option<User>>, path: Seq<char>)
    ensures
        (auth_outcome(found, path) is Redirect) <==> (!(found matches Ok(Some(_))) && !open_path(path)),
        auth_outcome(found, path) matches AuthAction::Redirect(to) ==> to@ == AUTH_LOGIN@,
{
}

/// The signed-in user read from the cookie is handed on to the request's
/// handler, whatever the path, open or not.
pub proof fn lemma_signed_in_user_handed_on(u: User, path: Seq<char>)
    ensures
        auth_outcome(Ok(Some(u)), path) == AuthAction::Proceed(Some(u)),
{
}

/// Without a signed-in user nobody is handed on: open paths are served
/// anonymously, every other path is sent to the sign-in page.
pub proof fn lemma_no_user_is_anonymous(found: AppResult<Option<User>>, path: Seq<char>)
    requires
        !(found matches Ok(Some(_))),
    ensures
        open_path(path) ==> auth_outcome(found, path) == AuthAction::Proceed(None),
        !open_path(path) ==> auth_outcome(found, path) == AuthAction::Redirect(AUTH_LOGIN),
{
}

/// Every path that extends an open path is open.
pub proof fn lemma_open_path_extends(path: Seq<char>, more: Seq<char>)
    requires
        open_path(path),
    ensures
        open_path(path + more),
{
    let p = path + more;
    assert forall|prefix: Seq<char>| has_prefix(path, prefix) implies has_prefix(p, prefix) by {
        assert(p.take(prefix.len() as int) =~= path.take(prefix.len() as int));
    }
}

} // verus!
