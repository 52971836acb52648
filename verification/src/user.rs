//! Principals, registration payloads, and the per-request session.

use vstd::prelude::*;
use vstd::string::*;

use crate::error::Error;
use crate::password::{hash_password, password_verifies, verify_password};
use crate::text::str_eq;
use crate::validate::{valid_password, valid_username, validate_password, validate_username};

verus! {

/// A registered principal as the store keeps it: the unique id and the
/// self-describing password hash, never the raw secret.
#[derive(Debug, Clone, PartialEq, Eq)]
pub struct User {
    pub user_id: String,
    pub pw_hash: String,
}

/// The untrusted registration payload.
#[derive(Debug, Clone, PartialEq, Eq)]
pub struct NewUser {
    pub username: String,
    pub password: String,
}

/// The response body for a successful registration.
#[derive(Debug, Clone, PartialEq, Eq)]
pub struct NewUserCreated {
    pub username: String,
    pub uri: String,
}

/// The per-request context: the resolved principal, or `None` for an
/// anonymous request. Built once per request and read-only afterward.
#[derive(Debug, Clone, PartialEq, Eq)]
pub struct Session {
    pub username: Option<String>,
}

impl Session {
    /// The ownership authorization guard. Decides, from the resolved context
    /// and the owner declared by the payload, whether an owner-scoped write
    /// may proceed: an anonymous context is `Unauthenticated`, a principal
    /// other than the declared owner is `Unauthorized`, and only the declared
    /// owner itself gets `None` (allow).
    pub fn get_error_if_user_not_match(&self, pretend_user: &str, message: &str) -> (r: Option<
        Error,
    >)
        ensures
            match self.username {
                Some(principal) => if principal@ == pretend_user@ {
                    r is None
                } else {
                    r matches Some(e) && e matches Error::Unauthorized(m) && m@ == message@
                },
                None => r matches Some(e) && e matches Error::Unauthenticated(m) && m@
                    == message@,
            },
    {
        match &self.username {
            Some(principal) => if str_eq(principal.as_str(), pretend_user) {
                None
            } else {
                Some(Error::Unauthorized(String::from_str(message)))
            },
            None => Some(Error::Unauthenticated(String::from_str(message))),
        }
    }
}

/// The compute part of registration: validates the payload (username first,
/// then password, first failure wins) and hashes the secret. `Ok` carries
/// the record the store is to persist; the raw secret is not in it.
pub fn register_user(new_user: &NewUser) -> (r: Result<User, Error>)
    requires
        new_user.password@.len() <= 0x3FFF_FFFF,
    ensures
        ({
            let name_ok = valid_username(new_user.username@);
            let pw_ok = valid_password(new_user.password@);
            match r {
                Ok(u) => name_ok && pw_ok && u.user_id@ == new_user.username@
                    && password_verifies(u.pw_hash@, new_user.password@),
                Err(e) => if !name_ok {
                    e matches Error::InvalidInput(f, m) && f@ == "username"@ && m@
                        == "must start with a letter and be 2 to 30 letters or digits"@
                } else if !pw_ok {
                    e matches Error::InvalidInput(f, m) && f@ == "password"@ && m@
                        == "must be at least 8 characters"@
                } else {
                    false
                },
            }
        }),
{
    if !validate_username(new_user.username.as_str()) {
        return Err(
            Error::InvalidInput(
                String::from_str("username"),
                String::from_str("must start with a letter and be 2 to 30 letters or digits"),
            ),
        );
    }
    if !validate_password(new_user.password.as_str()) {
        return Err(
            Error::InvalidInput(
                String::from_str("password"),
                String::from_str("must be at least 8 characters"),
            ),
        );
    }
    let pw_hash = hash_password(new_user.password.as_str());
    Ok(User { user_id: new_user.username.clone(), pw_hash })
}

/// The response body for a persisted registration: the principal id and its
/// resource URI.
pub fn user_created_response(user: &User) -> (r: NewUserCreated)
    ensures
        r.username@ == user.user_id@,
        r.uri@ == "/users/"@ + user.user_id@,
{
    NewUserCreated {
        username: user.user_id.clone(),
        uri: String::from_str("/users/").concat(user.user_id.as_str()),
    }
}

/// The principal resolver's decision once the store lookup for the
/// extracted credentials has come back. "Unknown principal", "wrong secret"
/// and "unparsable stored hash" all collapse into the anonymous outcome, so
/// a caller gets no signal for username enumeration; an infrastructure
/// failure of the lookup itself is propagated as the error the store
/// reported, not masked as an authentication failure.
pub fn resolve_principal(user_id: &str, secret: &str, lookup: Result<Option<User>, Error>) -> (r:
    Result<Session, Error>)
    ensures
        match lookup {
            Err(e) => r == Err::<Session, Error>(e),
            Ok(record) => r matches Ok(s) && match record {
                None => s.username is None,
                Some(u) => if password_verifies(u.pw_hash@, secret@) {
                    s.username matches Some(n) && n@ == user_id@
                } else {
                    s.username is None
                },
            },
        },
{
    let record = match lookup {
        Err(e) => {
            return Err(e);
        },
        Ok(rec) => rec,
    };
    match record {
        None => Ok(Session { username: None }),
        Some(u) => match verify_password(u.pw_hash.as_str(), secret) {
            Ok(verified) => if verified {
                Ok(Session { username: Some(String::from_str(user_id)) })
            } else {
                Ok(Session { username: None })
            },
            Err(_) => Ok(Session { username: None }),
        },
    }
}

} // verus!
