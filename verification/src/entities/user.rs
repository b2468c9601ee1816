//! Accounts.

use vstd::prelude::*;
use crate::clock::{system_time, Timestamp};
use crate::ident::{is_random_v4, random_id, EntityId};
use crate::value_objects::email::Email;
use crate::value_objects::enums::UserRole;

verus! {

/// An account: who somebody is, and the credential to prove it.
#[derive(Clone, Debug)]
pub struct User {
    pub id: EntityId,
    pub email: Email,
    pub password_hash: String,
    pub name: String,
    pub role: UserRole,
    pub avatar_url: Option<String>,
    pub created_at: Timestamp,
    pub updated_at: Timestamp,
}

impl User {
    /// A new account under a fresh identifier, created and updated at the
    /// present moment, without an avatar. The role is `Member` unless one
    /// is given.
    pub fn new(email: Email, password_hash: String, name: String, role: Option<UserRole>) -> (user:
        User)
        ensures
            is_random_v4(user.id.0),
            user.email == email,
            user.password_hash == password_hash,
            user.name == name,
            user.role == match role {
                Some(r) => r,
                None => UserRole::Member,
            },
            user.avatar_url is None,
            user.created_at == user.updated_at,
            user.created_at.is_clock_reading(),
    {
        let now = system_time();
        User {
            id: random_id(),
            email,
            password_hash,
            name,
            role: match role {
                Some(r) => r,
                None => UserRole::Member,
            },
            avatar_url: None,
            created_at: now,
            updated_at: now,
        }
    }

    /// Whether the account has the role `Admin`.
    pub fn is_admin(&self) -> (r: bool)
        ensures
            r == (self.role == UserRole::Admin),
    {
        matches!(self.role, UserRole::Admin)
    }

    /// Whether the account may do what a manager may do: its role is
    /// `Manager` or `Admin`.
    pub fn is_manager(&self) -> (r: bool)
        ensures
            r == self.role.spec_has_capability(UserRole::Manager),
            r == (self.role == UserRole::Manager || self.role == UserRole::Admin),
    {
        self.role.has_capability(UserRole::Manager)
    }
}

} // verus!
