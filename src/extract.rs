//! Typed request contexts that a handler receives only once the request passed its checks.

use vstd::prelude::*;
use crate::error::Error;
use crate::validation::{failing, Validate};

pub use crate::auth::AuthUser;

verus! {

/// A payload that satisfied every rule of its fields.
#[derive(Clone, Copy, Debug, Default)]
pub struct ValidPayload<T>(pub T);

impl<T: Validate> ValidPayload<T> {
    /// Admits a parsed payload if every field satisfies its rule; otherwise answers a
    /// `ValidationError` that lists every violated field.
    pub fn from_request(value: T) -> (r: Result<ValidPayload<T>, Error>)
        ensures
            r is Ok <==> failing(value.field_checks()).len() == 0,
            r matches Ok(p) ==> p.0 == value,
            r matches Err(e) ==> (e matches Error::ValidationError(v) && v@ == failing(value.field_checks())),
    {
        match value.validate() {
            Ok(()) => Ok(ValidPayload(value)),
            Err(v) => Err(Error::ValidationError(v)),
        }
    }
}

} // verus!
