//! Who may delete an article: moderators and administrators any, everyone
//! else only what the request says is their own.

use crate::article::ArticleError;
use vstd::prelude::*;

verus! {

/// The role that a caller is known to have.
#[derive(Clone, Copy, Debug, PartialEq, Eq, Structural)]
pub enum Permission {
    /// No elevated role is known.
    Unprivileged,
    /// Level 1.
    Moderator,
    /// Level 0.
    Admin,
}

impl Permission {
    /// The role that a permission level stands for: 0 the administrator, 1
    /// the moderator, no level or any other none.
    pub open spec fn of(level: Option<i16>) -> Permission {
        match level {
            Some(0i16) => Permission::Admin,
            Some(1i16) => Permission::Moderator,
            _ => Permission::Unprivileged,
        }
    }

    /// Whether the role may delete whatever the request's user is.
    pub open spec fn elevated(self) -> bool {
        self != Permission::Unprivileged
    }

    /// The role of a permission level.
    pub fn from_level(level: &Option<i16>) -> (role: Permission)
        ensures
            role == Permission::of(*level),
    {
        match level {
            Some(0i16) => Permission::Admin,
            Some(1i16) => Permission::Moderator,
            _ => Permission::Unprivileged,
        }
    }

    /// Whether the role may delete whatever the request's user is.
    pub fn overrides(&self) -> (yes: bool)
        ensures
            yes == self.elevated(),
    {
        match self {
            Permission::Unprivileged => false,
            Permission::Moderator => true,
            Permission::Admin => true,
        }
    }
}

/// What is decided of a request to delete on behalf of `user_id`: `Ok(true)`
/// to delete, `Ok(false)` to refuse, `AuthResolution` where the decision
/// needs the caller's identity and the session gave none. The identity is
/// not looked at where the level is elevated.
pub open spec fn verdict(user_id: u128, identity: Option<u128>, level: Option<i16>) -> Result<
    bool,
    ArticleError,
> {
    if Permission::of(level).elevated() {
        Ok(true)
    } else {
        match identity {
            Some(caller) => Ok(caller == user_id),
            None => Err(ArticleError::AuthResolution),
        }
    }
}

} // verus!
