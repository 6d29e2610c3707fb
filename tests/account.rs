use nrs::account::request::{ChangePassword, Create, Login};
use nrs::account::{change_password, create, login, StoredUser};
use nrs::error::{Error, StoreError};
use nrs::jwt::{user_id, TOKEN_LIFETIME};

const SECRET: &str = "SECRET-REDACTED";
const NOW: u64 = 1_700_000_000;

fn registration() -> Create {
    Create { login: "ann".to_string(), full_name: "Ann".to_string(), email: "ann@example.com".to_string(), password: "pw".to_string() }
}

fn login_payload(password: &str) -> Login {
    Login { email: "ann@example.com".to_string(), password: password.to_string() }
}

fn internal() -> Error {
    Error::InternalServerError("internal server error".to_string())
}

#[test]
fn registration_answers_token_for_new_user() {
    let r = create(Ok(17), &registration(), SECRET, NOW).unwrap();
    assert_eq!(user_id(&r.token, SECRET, NOW), Ok(17));
}

#[test]
fn registration_token_is_refused_only_when_expiry_overflows() {
    assert!(create(Ok(17), &registration(), SECRET, u64::MAX - TOKEN_LIFETIME).is_ok());
    assert_eq!(create(Ok(17), &registration(), SECRET, u64::MAX), Err(internal()));
    let user = StoredUser { id: 8, password: "pw".to_string() };
    assert_eq!(login(Ok(user), &login_payload("pw"), SECRET, u64::MAX), Err(internal()));
}

#[test]
fn taken_login_is_conflict() {
    assert_eq!(create(Err(StoreError::UniqueViolation), &registration(), SECRET, NOW), Err(Error::Conflict));
}

#[test]
fn store_failure_on_registration_is_internal() {
    assert_eq!(create(Err(StoreError::Other("boom".to_string())), &registration(), SECRET, NOW), Err(internal()));
}

#[test]
fn login_with_right_password_answers_token() {
    let user = StoredUser { id: 8, password: "pw".to_string() };
    let r = login(Ok(user), &login_payload("pw"), SECRET, NOW).unwrap();
    assert_eq!(user_id(&r.token, SECRET, NOW), Ok(8));
}

#[test]
fn login_with_wrong_password_is_unauthorized() {
    let user = StoredUser { id: 8, password: "pw".to_string() };
    assert_eq!(login(Ok(user), &login_payload("nope"), SECRET, NOW), Err(Error::Unauthorized("wrong password".to_string())));
}

#[test]
fn login_with_unknown_email_is_not_found() {
    assert_eq!(
        login(Err(StoreError::RowNotFound), &login_payload("pw"), SECRET, NOW),
        Err(Error::NotFound("email `ann@example.com` not found".to_string()))
    );
    assert_eq!(login(Err(StoreError::Other("x".to_string())), &login_payload("pw"), SECRET, NOW), Err(internal()));
}

#[test]
fn password_change_checks_old_password() {
    let p = ChangePassword { old_password: "old".to_string(), new_password: "new".to_string() };
    assert_eq!(change_password(Ok("old".to_string()), &p), Ok(()));
    assert_eq!(change_password(Ok("other".to_string()), &p), Err(Error::BadRequest("invalid password".to_string())));
    assert_eq!(change_password(Err(StoreError::RowNotFound), &p), Err(Error::NotFound("not found".to_string())));
    assert_eq!(change_password(Err(StoreError::UniqueViolation), &p), Err(internal()));
}
