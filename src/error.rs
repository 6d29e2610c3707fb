//! Errors answered to a caller, and the failures of the store that lead to them.

use vstd::prelude::*;
use crate::validation::{violations_view, Rule, ValidationErrors, Violation};

verus! {

/// An error answered to a caller, with its HTTP status and a message.
#[derive(Clone, Debug, PartialEq, Eq)]
pub enum Error {
    ValidationError(ValidationErrors),
    JsonRejection(String),
    Unauthorized(String),
    NotFound(String),
    Conflict,
    BadRequest(String),
    /// A failure of the store or the codec; the text is detail for the log and is never
    /// answered to the caller.
    InternalServerError(String),
}

/// How a call to the store failed.
#[derive(Clone, Debug, PartialEq, Eq)]
pub enum StoreError {
    /// A query for one row found none.
    RowNotFound,
    /// An insert or update broke a uniqueness constraint.
    UniqueViolation,
    /// Any other failure, with its description.
    Other(String),
}

pub open spec fn status_of(e: Error) -> u16 {
    match e {
        Error::ValidationError(_) => 400,
        Error::JsonRejection(_) => 400,
        Error::Unauthorized(_) => 401,
        Error::NotFound(_) => 404,
        Error::Conflict => 409,
        Error::BadRequest(_) => 400,
        Error::InternalServerError(_) => 500,
    }
}

impl Error {
    /// The HTTP status answered for this error.
    pub fn status(&self) -> (r: u16)
        ensures
            r == status_of(*self),
    {
        match self {
            Error::ValidationError(_) => 400,
            Error::JsonRejection(_) => 400,
            Error::Unauthorized(_) => 401,
            Error::NotFound(_) => 404,
            Error::Conflict => 409,
            Error::BadRequest(_) => 400,
            Error::InternalServerError(_) => 500,
        }
    }
}

/// The name under which a rule is reported.
pub open spec fn rule_name(rule: Rule) -> Seq<char> {
    match rule {
        Rule::NonEmpty => "length"@,
        Rule::Email => "email"@,
    }
}

/// `field: rule` for each violation, separated by `, `.
pub open spec fn violations_text(v: Seq<(Seq<char>, Rule)>) -> Seq<char>
    decreases v.len(),
{
    if v.len() == 0 {
        Seq::empty()
    } else if v.len() == 1 {
        v[0].0 + ": "@ + rule_name(v[0].1)
    } else {
        violations_text(v.drop_last()) + ", "@ + v.last().0 + ": "@ + rule_name(v.last().1)
    }
}

/// The message answered for an error. An internal error is answered with a generic text
/// that carries none of its detail.
pub open spec fn message_of(e: Error) -> Seq<char> {
    match e {
        Error::ValidationError(v) => "Input validation error: ["@ + violations_text(v@) + "]"@,
        Error::JsonRejection(m) => m@,
        Error::Unauthorized(m) => m@,
        Error::NotFound(m) => m@,
        Error::Conflict => "Resource already exists"@,
        Error::BadRequest(m) => m@,
        Error::InternalServerError(_) => "internal server error"@,
    }
}

fn rule_text(rule: Rule) -> (r: &'static str)
    ensures
        r@ == rule_name(rule),
{
    match rule {
        Rule::NonEmpty => "length",
        Rule::Email => "email",
    }
}

fn violations_string(v: &Vec<Violation>) -> (r: String)
    ensures
        r@ == violations_text(violations_view(v@)),
{
    let mut text = String::new();
    let mut i: usize = 0;
    while i < v.len()
        invariant
            i <= v@.len(),
            text@ == violations_text(violations_view(v@).subrange(0, i as int)),
        decreases v@.len() - i,
    {
        proof {
            let all = violations_view(v@);
            assert(all.subrange(0, i + 1).drop_last() =~= all.subrange(0, i as int));
        }
        if i > 0 {
            text.append(", ");
        }
        text.append(v[i].field.as_str());
        text.append(": ");
        text.append(rule_text(v[i].rule));
        proof {
            let all = violations_view(v@);
            let pre = all.subrange(0, i as int);
            let next = all.subrange(0, i + 1);
            if i == 0 {
                assert(text@ =~= violations_text(next));
            } else {
                assert(text@ =~= violations_text(pre) + ", "@ + next.last().0 + ": "@ + rule_name(next.last().1));
            }
        }
        i = i + 1;
    }
    proof {
        assert(violations_view(v@).subrange(0, i as int) =~= violations_view(v@));
    }
    text
}

impl Error {
    /// The message answered for this error.
    pub fn message(&self) -> (r: String)
        ensures
            r@ == message_of(*self),
    {
        match self {
            Error::ValidationError(v) => {
                let mut text = String::from_str("Input validation error: [");
                let listed = violations_string(&v.violations);
                text.append(listed.as_str());
                text.append("]");
                text
            },
            Error::JsonRejection(m) => m.clone(),
            Error::Unauthorized(m) => m.clone(),
            Error::NotFound(m) => m.clone(),
            Error::Conflict => String::from_str("Resource already exists"),
            Error::BadRequest(m) => m.clone(),
            Error::InternalServerError(_) => String::from_str("internal server error"),
        }
    }
}

} // verus!
