use vstd::prelude::*;

verus! {

/// The sign-in page.
pub const AUTH_LOGIN: &'static str = "/auth/login";

/// Starts sign-in with the identity provider.
pub const AUTH_LOGIN_START: &'static str = "/auth/login_start";

/// Where the identity provider returns after sign-in.
pub const AUTH_LOGIN_COMPLETE: &'static str = "/auth/login_complete";

/// Signs out of the service.
pub const AUTH_LOGOUT: &'static str = "/auth/logout";

/// Signs out of the identity provider.
pub const AUTH_LOGOUT_PROVIDER: &'static str = "/auth/logout_provider";

} // verus!
