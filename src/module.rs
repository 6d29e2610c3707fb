//! Modules: created under a project, named by `crate::sequence` when no name is given, and
//! reached only by the owner of their project (`crate::ownership::module_scope`); a parent
//! module must lie in the same project (`crate::ownership::parent_scope`).

use vstd::prelude::*;

pub mod request;
pub mod response;

verus! {

/// Visibility of a newly created module.
pub const DEFAULT_VISIBILITY: i16 = 0;

} // verus!
