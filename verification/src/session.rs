//! Login and session decisions.  Reading the admin password from the
//! environment, looking users up, hashing passwords and touching the session
//! store are the caller's business; the routing decisions are taken here.

use vstd::prelude::*;
use crate::dto::AccountTypeDto;
use crate::models::user::AccountType;
use crate::text::str_eq;

verus! {

/// What a login attempt leads to.
#[derive(Clone, Copy, Debug, PartialEq, Eq, Structural)]
pub enum LoginDecision {
    /// The special `admin` user presented the configured admin password.
    AdminGranted,
    /// The special `admin` user presented a wrong password.
    AdminDenied,
    /// The special `admin` user cannot log in: no admin password configured.
    AdminNotConfigured,
    /// An ordinary username: look it up and verify its password hash.
    CheckDatabase,
}

/// Route a login attempt: the special `admin` username is authenticated
/// against the externally configured admin password, every other username
/// against the user store.
pub fn login_decision(username: &str, password: &str, admin_password: Option<&String>) -> (r:
    LoginDecision)
    ensures
        r == (if username@ == "admin"@ {
            match admin_password {
                None => LoginDecision::AdminNotConfigured,
                Some(p) => if p@ == password@ {
                    LoginDecision::AdminGranted
                } else {
                    LoginDecision::AdminDenied
                },
            }
        } else {
            LoginDecision::CheckDatabase
        }),
{
    if !str_eq(username, "admin") {
        return LoginDecision::CheckDatabase;
    }
    match admin_password {
        None => LoginDecision::AdminNotConfigured,
        Some(p) => {
            if str_eq(p.as_str(), password) {
                LoginDecision::AdminGranted
            } else {
                LoginDecision::AdminDenied
            }
        },
    }
}

/// The marker stored in the session for an account type.
pub fn account_type_value(account_type: AccountType) -> (r: &'static str)
    ensures
        r@ == (match account_type {
            AccountType::Admin => "admin"@,
            AccountType::User => "user"@,
        }),
{
    match account_type {
        AccountType::Admin => "admin",
        AccountType::User => "user",
    }
}

/// The account type a session's marker stands for: only the exact `admin`
/// marker makes an admin.
pub fn account_type_from_session(marker: Option<&String>) -> (r: AccountTypeDto)
    ensures
        r == (match marker {
            Some(m) => if m@ == "admin"@ {
                AccountTypeDto::Admin
            } else {
                AccountTypeDto::User
            },
            None => AccountTypeDto::User,
        }),
{
    match marker {
        Some(m) => {
            if str_eq(m.as_str(), "admin") {
                AccountTypeDto::Admin
            } else {
                AccountTypeDto::User
            }
        },
        None => AccountTypeDto::User,
    }
}

/// Whether a session's marker grants admin access.
pub fn is_admin_session(marker: Option<&String>) -> (r: bool)
    ensures
        r == (marker matches Some(m) && m@ == "admin"@),
{
    match marker {
        Some(m) => str_eq(m.as_str(), "admin"),
        None => false,
    }
}

} // verus!
