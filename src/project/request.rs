//! Project request payloads and their rules.

use vstd::prelude::*;
use crate::validation::{validate_fields, checks_of, FieldCheck, Rule, Validate, ValidationErrors};

verus! {

/// A new project: its name must be non-empty.
#[derive(Clone, Debug, PartialEq, Eq)]
pub struct Create {
    pub name: String,
    /// Classification: template or target.
    pub target: i16,
    pub description: String,
}

impl Validate for Create {
    open spec fn field_checks(&self) -> Seq<FieldCheck> {
        seq![("name"@, self.name@, Rule::NonEmpty)]
    }

    fn validate(&self) -> (r: Result<(), ValidationErrors>) {
        let fields = vec!["name"];
        let values = vec![self.name.as_str()];
        let rules = vec![Rule::NonEmpty];
        let r = validate_fields(&fields, &values, &rules);
        proof {
            assert(checks_of(fields@, values@, rules@) =~= self.field_checks());
        }
        r
    }
}

/// A change of name and description: the name must be non-empty.
#[derive(Clone, Debug, PartialEq, Eq)]
pub struct Update {
    pub name: String,
    pub description: String,
}

impl Validate for Update {
    open spec fn field_checks(&self) -> Seq<FieldCheck> {
        seq![("name"@, self.name@, Rule::NonEmpty)]
    }

    fn validate(&self) -> (r: Result<(), ValidationErrors>) {
        let fields = vec!["name"];
        let values = vec![self.name.as_str()];
        let rules = vec![Rule::NonEmpty];
        let r = validate_fields(&fields, &values, &rules);
        proof {
            assert(checks_of(fields@, values@, rules@) =~= self.field_checks());
        }
        r
    }
}

} // verus!
