use nrs::account::request::{ChangePassword, Create, Login, Update};
use nrs::error::Error;
use nrs::extract::ValidPayload;
use nrs::validation::{check_rule, validate_fields, Rule, Validate, Violation};

fn create(login: &str, full_name: &str, email: &str, password: &str) -> Create {
    Create { login: login.to_string(), full_name: full_name.to_string(), email: email.to_string(), password: password.to_string() }
}

fn violation(field: &str, rule: Rule) -> Violation {
    Violation { field: field.to_string(), rule }
}

#[test]
fn valid_registration_passes() {
    assert!(create("ann", "Ann Lee", "ann@example.com", "pw").validate().is_ok());
}

#[test]
fn every_violation_is_reported_at_once() {
    let e = create("", "", "not-an-email", "").validate().unwrap_err();
    assert_eq!(
        e.violations,
        vec![
            violation("login", Rule::NonEmpty),
            violation("full_name", Rule::NonEmpty),
            violation("email", Rule::Email),
            violation("password", Rule::NonEmpty),
        ]
    );
}

#[test]
fn only_broken_fields_are_reported() {
    let e = create("ann", "", "ann@example.com", "").validate().unwrap_err();
    assert_eq!(e.violations, vec![violation("full_name", Rule::NonEmpty), violation("password", Rule::NonEmpty)]);
    let e = create("ann", "Ann", "ann.example.com", "pw").validate().unwrap_err();
    assert_eq!(e.violations, vec![violation("email", Rule::Email)]);
}

#[test]
fn other_payloads() {
    assert!(Update { full_name: String::new() }.validate().is_err());
    assert!(Update { full_name: "x".to_string() }.validate().is_ok());
    let e = ChangePassword { old_password: String::new(), new_password: String::new() }.validate().unwrap_err();
    assert_eq!(e.violations.len(), 2);
    let e = Login { email: String::new(), password: "p".to_string() }.validate().unwrap_err();
    assert_eq!(e.violations, vec![violation("email", Rule::Email)]);
}

#[test]
fn email_rule() {
    assert!(check_rule(Rule::Email, "ann@example.com"));
    assert!(check_rule(Rule::Email, "email@[127.0.0.1]"));
    assert!(!check_rule(Rule::Email, ""));
    assert!(!check_rule(Rule::Email, "ann"));
    assert!(!check_rule(Rule::Email, "@example.com"));
    assert!(!check_rule(Rule::Email, "ann@"));
}

#[test]
fn non_empty_rule() {
    assert!(check_rule(Rule::NonEmpty, "a"));
    assert!(check_rule(Rule::NonEmpty, " "));
    assert!(!check_rule(Rule::NonEmpty, ""));
}

#[test]
fn fields_in_parallel_lists() {
    let r = validate_fields(&vec!["a", "b"], &vec!["", "x"], &vec![Rule::NonEmpty, Rule::Email]);
    assert_eq!(r.unwrap_err().violations, vec![violation("a", Rule::NonEmpty), violation("b", Rule::Email)]);
    assert!(validate_fields(&vec![], &vec![], &vec![]).is_ok());
}

#[test]
fn valid_payload_extractor() {
    let p = ValidPayload::from_request(create("ann", "Ann", "ann@example.com", "pw")).unwrap();
    assert_eq!(p.0.login, "ann");
    match ValidPayload::from_request(create("", "Ann", "ann@example.com", "pw")) {
        Err(Error::ValidationError(v)) => assert_eq!(v.violations, vec![violation("login", Rule::NonEmpty)]),
        _ => panic!("expected a validation error"),
    }
}
