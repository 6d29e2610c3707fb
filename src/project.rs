//! Projects: every read and change is scoped to the caller by `crate::ownership`.

pub mod request;
pub mod response;
