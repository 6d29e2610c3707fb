//! Account response bodies.

use vstd::prelude::*;

verus! {

/// A freshly issued session token.
#[derive(Clone, Debug, PartialEq, Eq)]
pub struct Create {
    pub token: String,
}

/// The caller's own account.
#[derive(Clone, Debug, PartialEq, Eq)]
pub struct Account {
    pub login: String,
    pub full_name: String,
    pub email: String,
}

} // verus!
