//! The user endpoints take the same payloads and answer the same bodies as the account
//! endpoints.

use vstd::prelude::*;

pub use crate::account::request::{ChangePassword, Create, Login, Update};

verus! {

/// The caller's profile: the same fields as an account.
pub type Profile = crate::account::response::Account;

/// Registration payload.
pub type CreateUser = crate::account::request::Create;

/// Login payload.
pub type LoginUser = crate::account::request::Login;

/// The caller's profile.
pub type UserProfile = crate::account::response::Account;

/// A freshly issued session token.
pub type CreateUserResponse = crate::account::response::Create;

} // verus!
