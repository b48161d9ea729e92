//! What the API's authentication decides.
//!
//! Reading the request and checking a token against the identity provider is
//! done by the server. Between those two steps stand the decisions of this
//! module: which requests pass unchecked, and how a request without a valid
//! token is turned away.

use vstd::prelude::*;

verus! {

/// Where a browser is sent to log in.
pub const AUTH_LOCATION: &'static str = "/auth/";

/// The status of an API request without a valid token.
pub const STATUS_UNAUTHORIZED: u16 = 401;

/// The status that sends a browser to [`AUTH_LOCATION`].
pub const STATUS_TEMPORARY_REDIRECT: u16 = 307;

/// How a request without a valid token is turned away.
#[derive(Debug, Clone, Copy, PartialEq, Eq, Structural)]
pub enum Rejection {
    /// Answer with [`STATUS_UNAUTHORIZED`].
    Unauthorized,
    /// Answer with [`STATUS_TEMPORARY_REDIRECT`] to [`AUTH_LOCATION`].
    Redirect,
}

/// What to do with a request.
#[derive(Debug, Clone, Copy, PartialEq, Eq, Structural)]
pub enum AuthStep {
    /// Hand the request on.
    Forward,
    /// Check the token, then decide with [`after_check`].
    Check,
    /// Turn the request away.
    Reject(Rejection),
}

/// An API request is told that it is unauthorized; any other is sent to the
/// login page.
pub open spec fn rejection(is_api: bool) -> Rejection {
    if is_api {
        Rejection::Unauthorized
    } else {
        Rejection::Redirect
    }
}

/// How a request without a valid token is turned away.
pub fn reject(is_api: bool) -> (how: Rejection)
    ensures
        how == rejection(is_api),
{
    if is_api {
        Rejection::Unauthorized
    } else {
        Rejection::Redirect
    }
}

/// The decision before the token is checked: the assets of the login page
/// pass unchecked, a request without a token is turned away, and every other
/// token is checked.
pub fn auth_oauth(is_login_asset: bool, is_api: bool, token: &str) -> (step: AuthStep)
    ensures
        step == (if is_login_asset {
            AuthStep::Forward
        } else if token@.len() == 0 {
            AuthStep::Reject(rejection(is_api))
        } else {
            AuthStep::Check
        }),
{
    if is_login_asset {
        AuthStep::Forward
    } else if token.is_empty() {
        AuthStep::Reject(reject(is_api))
    } else {
        AuthStep::Check
    }
}

/// The decision once the token has been checked.
pub fn after_check(valid: bool, is_api: bool) -> (step: AuthStep)
    ensures
        step == (if valid {
            AuthStep::Forward
        } else {
            AuthStep::Reject(rejection(is_api))
        }),
        !(step is Check),
{
    if valid {
        AuthStep::Forward
    } else {
        AuthStep::Reject(reject(is_api))
    }
}

/// The status that turns a request away.
pub fn rejection_status(how: Rejection) -> (status: u16)
    ensures
        status == (match how {
            Rejection::Unauthorized => STATUS_UNAUTHORIZED,
            Rejection::Redirect => STATUS_TEMPORARY_REDIRECT,
        }),
{
    match how {
        Rejection::Unauthorized => STATUS_UNAUTHORIZED,
        Rejection::Redirect => STATUS_TEMPORARY_REDIRECT,
    }
}

} // verus!
