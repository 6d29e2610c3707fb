//! Module request payloads and their rules.

use vstd::prelude::*;
use crate::validation::{validate_fields, checks_of, FieldCheck, Rule, Validate, ValidationErrors};

verus! {

/// A new module under an optional parent module; it is named by the sequencer.
#[derive(Clone, Copy, Debug, PartialEq, Eq, Structural)]
pub struct Create {
    pub module_id: Option<i64>,
}

impl Validate for Create {
    open spec fn field_checks(&self) -> Seq<FieldCheck> {
        Seq::empty()
    }

    fn validate(&self) -> (r: Result<(), ValidationErrors>) {
        let fields: Vec<&str> = Vec::new();
        let values: Vec<&str> = Vec::new();
        let rules: Vec<Rule> = Vec::new();
        let r = validate_fields(&fields, &values, &rules);
        proof {
            assert(checks_of(fields@, values@, rules@) =~= self.field_checks());
        }
        r
    }
}

/// A change of parent, name and visibility: the name must be non-empty.
#[derive(Clone, Debug, PartialEq, Eq)]
pub struct Update {
    pub module_id: Option<i64>,
    pub name: String,
    pub visibility: i16,
}

impl Validate for Update {
    open spec fn field_checks(&self) -> Seq<FieldCheck> {
        seq![("name"@, self.name@, Rule::NonEmpty)]
    }

    fn validate(&self) -> (r: Result<(), ValidationErrors>) {
        let fields = vec!["name"];
        let values = vec![self.name.as_str()];
        let rules = vec![Rule::NonEmpty];
        let r = validate_fields(&fields, &values, &rules);
        proof {
            assert(checks_of(fields@, values@, rules@) =~= self.field_checks());
        }
        r
    }
}

} // verus!
