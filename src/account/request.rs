//! Account request payloads and their rules.

use vstd::prelude::*;
use crate::validation::{validate_fields, checks_of, FieldCheck, Rule, Validate, ValidationErrors};

verus! {

/// Registration: login, full name and password non-empty, email well-formed.
#[derive(Clone, Debug, PartialEq, Eq)]
pub struct Create {
    pub login: String,
    pub full_name: String,
    pub email: String,
    pub password: String,
}

impl Validate for Create {
    open spec fn field_checks(&self) -> Seq<FieldCheck> {
        seq![
            ("login"@, self.login@, Rule::NonEmpty),
            ("full_name"@, self.full_name@, Rule::NonEmpty),
            ("email"@, self.email@, Rule::Email),
            ("password"@, self.password@, Rule::NonEmpty),
        ]
    }

    fn validate(&self) -> (r: Result<(), ValidationErrors>) {
        let fields = vec!["login", "full_name", "email", "password"];
        let values = vec![self.login.as_str(), self.full_name.as_str(), self.email.as_str(), self.password.as_str()];
        let rules = vec![Rule::NonEmpty, Rule::NonEmpty, Rule::Email, Rule::NonEmpty];
        let r = validate_fields(&fields, &values, &rules);
        proof {
            assert(checks_of(fields@, values@, rules@) =~= self.field_checks());
        }
        r
    }
}

/// Profile change: full name non-empty.
#[derive(Clone, Debug, PartialEq, Eq)]
pub struct Update {
    pub full_name: String,
}

impl Validate for Update {
    open spec fn field_checks(&self) -> Seq<FieldCheck> {
        seq![("full_name"@, self.full_name@, Rule::NonEmpty)]
    }

    fn validate(&self) -> (r: Result<(), ValidationErrors>) {
        let fields = vec!["full_name"];
        let values = vec![self.full_name.as_str()];
        let rules = vec![Rule::NonEmpty];
        let r = validate_fields(&fields, &values, &rules);
        proof {
            assert(checks_of(fields@, values@, rules@) =~= self.field_checks());
        }
        r
    }
}

/// Password change: both passwords non-empty.
#[derive(Clone, Debug, PartialEq, Eq)]
pub struct ChangePassword {
    pub old_password: String,
    pub new_password: String,
}

impl Validate for ChangePassword {
    open spec fn field_checks(&self) -> Seq<FieldCheck> {
        seq![
            ("old_password"@, self.old_password@, Rule::NonEmpty),
            ("new_password"@, self.new_password@, Rule::NonEmpty),
        ]
    }

    fn validate(&self) -> (r: Result<(), ValidationErrors>) {
        let fields = vec!["old_password", "new_password"];
        let values = vec![self.old_password.as_str(), self.new_password.as_str()];
        let rules = vec![Rule::NonEmpty, Rule::NonEmpty];
        let r = validate_fields(&fields, &values, &rules);
        proof {
            assert(checks_of(fields@, values@, rules@) =~= self.field_checks());
        }
        r
    }
}

/// Login: email well-formed, password non-empty.
#[derive(Clone, Debug, PartialEq, Eq)]
pub struct Login {
    pub email: String,
    pub password: String,
}

impl Validate for Login {
    open spec fn field_checks(&self) -> Seq<FieldCheck> {
        seq![("email"@, self.email@, Rule::Email), ("password"@, self.password@, Rule::NonEmpty)]
    }

    fn validate(&self) -> (r: Result<(), ValidationErrors>) {
        let fields = vec!["email", "password"];
        let values = vec![self.email.as_str(), self.password.as_str()];
        let rules = vec![Rule::Email, Rule::NonEmpty];
        let r = validate_fields(&fields, &values, &rules);
        proof {
            assert(checks_of(fields@, values@, rules@) =~= self.field_checks());
        }
        r
    }
}

} // verus!
