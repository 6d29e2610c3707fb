//! Module response bodies.

use vstd::prelude::*;

verus! {

/// A created module with its generated name.
#[derive(Clone, Debug, PartialEq, Eq)]
pub struct Create {
    pub id: i64,
    pub name: String,
    pub visibility: i16,
}

/// A module; `updated_at` is in seconds since the Unix epoch.
#[derive(Clone, Debug, PartialEq, Eq)]
pub struct Module {
    pub id: i64,
    pub project_id: i64,
    pub module_id: Option<i64>,
    pub name: String,
    pub visibility: i16,
    pub updated_at: i64,
}

} // verus!
