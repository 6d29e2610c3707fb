use nrs::application::{Application, Config};
use nrs::error::Error;
use nrs::validation::{Rule, ValidationErrors, Violation};

#[test]
fn statuses() {
    let v = Error::ValidationError(ValidationErrors { violations: Vec::new() });
    assert_eq!(v.status(), 400);
    assert_eq!(Error::JsonRejection("x".to_string()).status(), 400);
    assert_eq!(Error::Unauthorized("x".to_string()).status(), 401);
    assert_eq!(Error::NotFound("x".to_string()).status(), 404);
    assert_eq!(Error::Conflict.status(), 409);
    assert_eq!(Error::BadRequest("x".to_string()).status(), 400);
    assert_eq!(Error::InternalServerError("x".to_string()).status(), 500);
}

#[test]
fn messages() {
    let v = Error::ValidationError(ValidationErrors {
        violations: vec![
            Violation { field: "login".to_string(), rule: Rule::NonEmpty },
            Violation { field: "email".to_string(), rule: Rule::Email },
        ],
    });
    assert_eq!(v.message(), "Input validation error: [login: length, email: email]");
    assert_eq!(Error::Conflict.message(), "Resource already exists");
    assert_eq!(Error::NotFound("gone".to_string()).message(), "gone");
    let empty = Error::ValidationError(ValidationErrors { violations: Vec::new() });
    assert_eq!(empty.message(), "Input validation error: []");
}

#[test]
fn internal_error_message_hides_detail() {
    let e = Error::InternalServerError("cannot create token: key rejected".to_string());
    assert_eq!(e.message(), "internal server error");
    assert_eq!(e.status(), 500);
}

#[test]
fn application_keeps_its_config() {
    let config = Config { port: 8080, database_url: "postgres://db".to_string(), rust_log: "info".to_string(), jwt_secret: "SECRET-REDACTED".to_string() };
    let app = Application::new(config.clone());
    assert_eq!(app.config(), &config);
    assert_eq!(app.jwt_ext().secret, "SECRET-REDACTED");
}
