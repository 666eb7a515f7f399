//! User accounts and the validation rules on usernames.

use vstd::prelude::*;
use vstd::string::StrSliceExecFns;
use vstd::utf8::encode_utf8;
use crate::error::Error;
use crate::text::{is_alphanumeric_char, trimmed_of};

verus! {

/// What an account may do.
#[derive(Clone, Copy, Debug, PartialEq, Eq, Structural)]
pub enum AccountType {
    /// Admin account: can only manage other accounts.
    Admin,
    /// Regular user account: sees the dashboard with their own data.
    User,
}

impl Default for AccountType {
    fn default() -> (r: AccountType)
        ensures
            r == AccountType::User,
    {
        AccountType::User
    }
}

/// A login account.
#[derive(Clone, Debug)]
pub struct User {
    pub id: String,
    pub username: String,
    /// Empty until a password hash is set; never a plain password.
    pub password_hash: String,
    pub account_type: AccountType,
    /// Creation time as a Unix timestamp in seconds.
    pub created_at: i64,
    /// Last-update time as a Unix timestamp in seconds.
    pub updated_at: i64,
}

/// The first validation failure a username runs into, if any: it must not be
/// blank, must be 3 to 50 bytes long, and may hold only alphanumeric
/// characters, underscores and hyphens.
pub open spec fn username_error(u: Seq<char>) -> Option<Seq<char>> {
    if trimmed_of(u).len() == 0 {
        Some("Username cannot be empty"@)
    } else if encode_utf8(u).len() < 3 {
        Some("Username must be at least 3 characters"@)
    } else if encode_utf8(u).len() > 50 {
        Some("Username cannot exceed 50 characters"@)
    } else if exists|i: int|
        0 <= i < u.len() && !(is_alphanumeric_char(#[trigger] u[i]) || u[i] == '_' || u[i] == '-') {
        Some("Username can only contain letters, numbers, underscores, and hyphens"@)
    } else {
        None
    }
}

impl User {
    /// Create a new regular user.  The password hash must be set separately
    /// before the account is stored.
    pub fn new(username: String, now: i64) -> (r: Result<User, Error>)
        ensures
            match r {
                Ok(u) => username_error(username@) is None && u.username@ == username@
                    && u.password_hash@.len() == 0 && u.account_type == AccountType::User
                    && u.created_at == now && u.updated_at == now && u.id@.len() == 36,
                Err(e) => e matches Error::Validation(m) && username_error(username@) == Some(m@),
            },
    {
        User::new_with_type(username, AccountType::User, now)
    }

    /// Create a new user with a specific account type.
    pub fn new_with_type(username: String, account_type: AccountType, now: i64) -> (r: Result<
        User,
        Error,
    >)
        ensures
            match r {
                Ok(u) => username_error(username@) is None && u.username@ == username@
                    && u.password_hash@.len() == 0 && u.account_type == account_type
                    && u.created_at == now && u.updated_at == now && u.id@.len() == 36,
                Err(e) => e matches Error::Validation(m) && username_error(username@) == Some(m@),
            },
    {
        let user = User {
            id: crate::fresh_uuid(),
            username,
            password_hash: String::new(),
            account_type,
            created_at: now,
            updated_at: now,
        };
        match user.validate() {
            Ok(()) => Ok(user),
            Err(e) => Err(e),
        }
    }

    /// Whether this is an admin account.
    pub fn is_admin(&self) -> (r: bool)
        ensures
            r == (self.account_type == AccountType::Admin),
    {
        self.account_type == AccountType::Admin
    }

    /// Check the username against its rules; see [`username_error`].
    pub fn validate(&self) -> (r: Result<(), Error>)
        ensures
            match r {
                Ok(()) => username_error(self.username@) is None,
                Err(e) => e matches Error::Validation(m) && username_error(self.username@) == Some(
                    m@,
                ),
            },
    {
        if self.username.as_str().trim().is_empty() {
            return Err(Error::Validation("Username cannot be empty".to_owned()));
        }
        if self.username.as_str().as_bytes().len() < 3 {
            return Err(Error::Validation("Username must be at least 3 characters".to_owned()));
        }
        if self.username.as_str().as_bytes().len() > 50 {
            return Err(Error::Validation("Username cannot exceed 50 characters".to_owned()));
        }
        let n = self.username.as_str().unicode_len();
        let mut i: usize = 0;
        while i < n
            invariant
                0 <= i <= n,
                n == self.username@.len(),
                trimmed_of(self.username@).len() != 0,
                3 <= encode_utf8(self.username@).len() <= 50,
                forall|k: int|
                    0 <= k < i ==> is_alphanumeric_char(#[trigger] self.username@[k])
                        || self.username@[k] == '_' || self.username@[k] == '-',
            decreases n - i,
        {
            let c = self.username.as_str().get_char(i);
            if !(c.is_alphanumeric() || c == '_' || c == '-') {
                proof {
                    assert(!(is_alphanumeric_char(self.username@[i as int]) || self.username@[i as int]
                        == '_' || self.username@[i as int] == '-'));
                }
                return Err(
                    Error::Validation(
                        "Username can only contain letters, numbers, underscores, and hyphens".to_owned(),
                    ),
                );
            }
            i = i + 1;
        }
        Ok(())
    }
}

} // verus!
