//! Project response bodies.

use vstd::prelude::*;

verus! {

/// The id of a created project.
#[derive(Clone, Copy, Debug, PartialEq, Eq, Structural)]
pub struct Create {
    pub id: i64,
}

/// A project as its owner sees it; times are seconds since the Unix epoch.
#[derive(Clone, Debug, PartialEq, Eq)]
pub struct Project {
    pub id: i64,
    pub name: String,
    pub target: i16,
    pub description: String,
    pub created_at: i64,
    pub updated_at: i64,
}

} // verus!
