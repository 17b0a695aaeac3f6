//! Decides whether the onboarding and login screens are shown at startup.

use vstd::prelude::*;

verus! {

/// Authentication method a user can be logged in with.
#[derive(Clone, Copy, Debug, PartialEq, Eq, Structural)]
pub enum AuthMode {
    ApiKey,
    ChatGPT,
}

/// Login state at startup: either not authenticated, or authenticated with
/// a particular method.
#[derive(Clone, Copy, Debug, PartialEq, Eq, Structural)]
pub enum LoginStatus {
    NotAuthenticated,
    AuthMode(AuthMode),
}

/// The login screen is shown when the user is not authenticated, or when the
/// method they are authenticated with differs from the configured preference.
pub open spec fn spec_should_show_login_screen(
    login_status: LoginStatus,
    preferred_auth_method: AuthMode,
) -> bool {
    match login_status {
        LoginStatus::NotAuthenticated => true,
        LoginStatus::AuthMode(method) => method != preferred_auth_method,
    }
}

pub fn should_show_login_screen(login_status: LoginStatus, preferred_auth_method: AuthMode) -> (r:
    bool)
    ensures
        r == spec_should_show_login_screen(login_status, preferred_auth_method),
{
    match login_status {
        LoginStatus::NotAuthenticated => true,
        LoginStatus::AuthMode(method) => method != preferred_auth_method,
    }
}

/// Onboarding is shown when the trust screen is requested explicitly, and
/// otherwise exactly when the login screen would be shown.
pub fn should_show_onboarding(
    login_status: LoginStatus,
    preferred_auth_method: AuthMode,
    show_trust_screen: bool,
) -> (r: bool)
    ensures
        r == (show_trust_screen || spec_should_show_login_screen(
            login_status,
            preferred_auth_method,
        )),
{
    if show_trust_screen {
        return true;
    }
    should_show_login_screen(login_status, preferred_auth_method)
}

} // verus!
