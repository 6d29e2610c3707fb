//! Per-field validation of request payloads. Every violated field is reported, not only the
//! first one.

use vstd::prelude::*;
use validator::ValidateEmail;

verus! {

/// A rule that a payload field must satisfy.
#[derive(Clone, Copy, Debug, PartialEq, Eq, Structural)]
pub enum Rule {
    /// At least one character.
    NonEmpty,
    /// A well-formed email address.
    Email,
}

/// A field that broke a rule.
#[derive(Clone, Debug, PartialEq, Eq)]
pub struct Violation {
    pub field: String,
    pub rule: Rule,
}

/// All the violations of one payload, in the order of its fields.
#[derive(Clone, Debug, PartialEq, Eq)]
pub struct ValidationErrors {
    pub violations: Vec<Violation>,
}

/// A field to check: its name, its value and its rule.
pub type FieldCheck = (Seq<char>, Seq<char>, Rule);

impl View for ValidationErrors {
    type V = Seq<(Seq<char>, Rule)>;

    open spec fn view(&self) -> Seq<(Seq<char>, Rule)> {
        violations_view(self.violations@)
    }
}

pub open spec fn violations_view(v: Seq<Violation>) -> Seq<(Seq<char>, Rule)> {
    v.map_values(|x: Violation| (x.field@, x.rule))
}

/// Whether validator accepts the text as an email address.
pub uninterp spec fn email_valid_of(s: Seq<char>) -> bool;

/// Relies on validator's `ValidateEmail::validate_email` for `&str`: the verdict depends on
/// the text alone; empty text and text without `@` are refused.
#[verifier::external_body]
fn is_valid_email(s: &str) -> (r: bool)
    ensures
        r == email_valid_of(s@),
        s@.len() == 0 ==> !r,
        !s@.contains('@') ==> !r,
{
    s.validate_email()
}

pub open spec fn passes(rule: Rule, value: Seq<char>) -> bool {
    match rule {
        Rule::NonEmpty => value.len() >= 1,
        Rule::Email => email_valid_of(value),
    }
}

/// The violations among `checks`, in order.
pub open spec fn failing(checks: Seq<FieldCheck>) -> Seq<(Seq<char>, Rule)>
    decreases checks.len(),
{
    if checks.len() == 0 {
        Seq::empty()
    } else {
        let rest = failing(checks.drop_last());
        let c = checks.last();
        if passes(c.2, c.1) {
            rest
        } else {
            rest.push((c.0, c.2))
        }
    }
}

/// The field `field` of `checks` is reported by `failing(checks)`.
pub open spec fn reported(checks: Seq<FieldCheck>, field: Seq<char>) -> bool {
    exists|i: int| 0 <= i < failing(checks).len() && #[trigger] failing(checks)[i].0 == field
}

/// The outcome of validating `checks`: success iff nothing fails, otherwise every failure.
pub open spec fn validation_outcome(checks: Seq<FieldCheck>, r: Result<(), ValidationErrors>) -> bool {
    &&& (r is Ok <==> failing(checks).len() == 0)
    &&& (r matches Err(e) ==> e@ == failing(checks))
}

/// Validation reports each field that breaks its rule, all of them together, and no other:
/// the violations are exactly the failing checks, in order.
pub proof fn lemma_every_violation_reported(checks: Seq<FieldCheck>)
    ensures
        forall|i: int|
            0 <= i < checks.len() && !passes(checks[i].2, checks[i].1) ==> exists|j: int|
                0 <= j < failing(checks).len() && #[trigger] failing(checks)[j] == (checks[i].0, checks[i].2),
        forall|j: int|
            #![trigger failing(checks)[j]]
            0 <= j < failing(checks).len() ==> exists|i: int|
                #![trigger checks[i]]
                0 <= i < checks.len() && !passes(checks[i].2, checks[i].1) && failing(checks)[j] == (checks[i].0, checks[i].2),
        failing(checks).len() == 0 <==> forall|i: int| 0 <= i < checks.len() ==> passes(#[trigger] checks[i].2, checks[i].1),
    decreases checks.len(),
{
    if checks.len() > 0 {
        let init = checks.drop_last();
        lemma_every_violation_reported(init);
        let n = checks.len() - 1;
        assert forall|i: int|
            0 <= i < checks.len() && !passes(checks[i].2, checks[i].1) implies exists|j: int|
                0 <= j < failing(checks).len() && #[trigger] failing(checks)[j] == (checks[i].0, checks[i].2) by {
            if i < n {
                assert(init[i] == checks[i]);
                let j = choose|j: int| 0 <= j < failing(init).len() && #[trigger] failing(init)[j] == (init[i].0, init[i].2);
                assert(failing(checks)[j] == failing(init)[j]);
            } else {
                assert(failing(checks)[failing(init).len() as int] == (checks[i].0, checks[i].2));
            }
        }
        assert forall|j: int|
            #![trigger failing(checks)[j]]
            0 <= j < failing(checks).len() implies exists|i: int|
                #![trigger checks[i]]
                0 <= i < checks.len() && !passes(checks[i].2, checks[i].1) && failing(checks)[j] == (checks[i].0, checks[i].2) by {
            if j < failing(init).len() {
                assert(failing(checks)[j] == failing(init)[j]);
                let i = choose|i: int|
                    #![trigger init[i]]
                    0 <= i < init.len() && !passes(init[i].2, init[i].1) && failing(init)[j] == (init[i].0, init[i].2);
                assert(checks[i] == init[i]);
            } else {
                assert(!passes(checks[n].2, checks[n].1));
                assert(failing(checks)[j] == (checks[n].0, checks[n].2));
            }
        }
        if failing(checks).len() == 0 {
            assert forall|i: int| 0 <= i < checks.len() implies passes(#[trigger] checks[i].2, checks[i].1) by {
                if i < n {
                    assert(init[i] == checks[i]);
                }
            }
        }
        if forall|i: int| 0 <= i < checks.len() ==> passes(#[trigger] checks[i].2, checks[i].1) {
            assert forall|i: int| 0 <= i < init.len() implies passes(#[trigger] init[i].2, init[i].1) by {
                assert(init[i] == checks[i]);
            }
            assert(passes(checks[n].2, checks[n].1));
        }
    }
}

/// Whether `value` satisfies `rule`.
pub fn check_rule(rule: Rule, value: &str) -> (r: bool)
    ensures
        r == passes(rule, value@),
{
    match rule {
        Rule::NonEmpty => !value.is_empty(),
        Rule::Email => is_valid_email(value),
    }
}

/// Appends a violation to `errors` if `value` breaks `rule`.
pub fn check_field(errors: &mut Vec<Violation>, field: &str, value: &str, rule: Rule)
    ensures
        violations_view(final(errors)@) == (if passes(rule, value@) {
            violations_view(old(errors)@)
        } else {
            violations_view(old(errors)@).push((field@, rule))
        }),
{
    if !check_rule(rule, value) {
        errors.push(Violation { field: String::from_str(field), rule });
        assert(violations_view(errors@) =~= violations_view(old(errors)@).push((field@, rule)));
    }
}

/// Runs every check of a payload, given as parallel lists of field names, values and rules.
pub fn validate_fields(fields: &Vec<&str>, values: &Vec<&str>, rules: &Vec<Rule>) -> (r: Result<(), ValidationErrors>)
    requires
        fields@.len() == values@.len() == rules@.len(),
    ensures
        validation_outcome(checks_of(fields@, values@, rules@), r),
{
    let mut errors: Vec<Violation> = Vec::new();
    let mut i: usize = 0;
    while i < fields.len()
        invariant
            fields@.len() == values@.len() == rules@.len(),
            i <= fields@.len(),
            violations_view(errors@) == failing(checks_of(fields@, values@, rules@).subrange(0, i as int)),
        decreases fields@.len() - i,
    {
        check_field(&mut errors, fields[i], values[i], rules[i]);
        proof {
            let all = checks_of(fields@, values@, rules@);
            assert(all.subrange(0, i + 1).drop_last() =~= all.subrange(0, i as int));
        }
        i = i + 1;
    }
    proof {
        let all = checks_of(fields@, values@, rules@);
        assert(all.subrange(0, i as int) =~= all);
    }
    if errors.len() == 0 {
        Ok(())
    } else {
        Err(ValidationErrors { violations: errors })
    }
}

pub open spec fn checks_of(fields: Seq<&str>, values: Seq<&str>, rules: Seq<Rule>) -> Seq<FieldCheck> {
    Seq::new(fields.len(), |i: int| (fields[i]@, values[i]@, rules[i]))
}

/// A payload whose fields carry rules.
pub trait Validate {
    /// The payload's fields with their rules, in declaration order.
    spec fn field_checks(&self) -> Seq<FieldCheck>;

    /// Checks every field; on failure, reports every violated field.
    fn validate(&self) -> (r: Result<(), ValidationErrors>)
        ensures
            validation_outcome(self.field_checks(), r),
    ;
}

} // verus!
