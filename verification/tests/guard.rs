use auth_guard::config::auth_middleware::{
    failure_class, failure_status, Admission, Auth, AuthMiddleware, FailureClass,
};
use auth_guard::dto::auth_dto::RoleRelPathDto;
use auth_guard::model::state::PermissionTable;
use auth_guard::service::auth_service::{
    verify_token_and_authority, verify_token_and_authority_at, AuthError,
};
use auth_guard::util::header_util::HeaderLookup;
use auth_guard::util::token_util::generate_jwt_token;

const SECRET: &str = "a secret that only the tests know";

fn table() -> PermissionTable {
    PermissionTable::from_entries(vec![
        RoleRelPathDto {
            role_name: "admin".to_string(),
            resource_value: "^/admin/.*$".to_string(),
        },
        RoleRelPathDto { role_name: "bad".to_string(), resource_value: "(unterminated".to_string() },
    ])
}

fn token(roles: &[&str], exp: usize) -> String {
    let roles: Vec<String> = roles.iter().map(|r| r.to_string()).collect();
    generate_jwt_token(5, "erin", exp, &roles, SECRET).unwrap()
}

fn guard() -> AuthMiddleware<()> {
    Auth.new_transform(())
}

fn text(value: &str) -> HeaderLookup {
    HeaderLookup::Text(value.to_string())
}

#[test]
fn missing_header_is_missing_credential() {
    let decision = guard().call_at(&HeaderLookup::Missing, "/admin/users", &table(), SECRET, 10);
    assert_eq!(decision, Admission::Reject(AuthError::MissingCredential));
    assert_ne!(decision, Admission::Forward);
    let decision = guard().call(&HeaderLookup::Missing, "/admin/users", &table(), SECRET);
    assert_eq!(decision, Admission::Reject(AuthError::MissingCredential));
}

#[test]
fn empty_header_is_missing_credential() {
    let decision = guard().call_at(&text(""), "/admin/users", &table(), SECRET, 10);
    assert_eq!(decision, Admission::Reject(AuthError::MissingCredential));
}

#[test]
fn header_that_is_no_text_is_invalid_format() {
    let decision = guard().call_at(&HeaderLookup::Unreadable, "/admin/users", &table(), SECRET, 10);
    assert_eq!(decision, Admission::Reject(AuthError::InvalidFormat));
}

#[test]
fn malformed_or_forged_credential_is_refused_as_such() {
    let decision = guard().call_at(&text("garbage"), "/admin/users", &table(), SECRET, 10);
    assert_eq!(decision, Admission::Reject(AuthError::InvalidFormat));
    let mut forged = token(&["admin"], 1_000);
    forged.push('x');
    let decision = guard().call_at(&text(&forged), "/admin/users", &table(), SECRET, 10);
    assert_eq!(decision, Admission::Reject(AuthError::InvalidSignature));
    // Forged and out of date: still refused for its signature.
    let decision = guard().call_at(&text(&forged), "/admin/users", &table(), SECRET, 2_000);
    assert_eq!(decision, Admission::Reject(AuthError::InvalidSignature));
}

#[test]
fn expired_credential_is_expired_even_for_a_granted_path() {
    let decision =
        guard().call_at(&text(&token(&["admin"], 1_000)), "/admin/users", &table(), SECRET, 1_001);
    assert_eq!(decision, Admission::Reject(AuthError::Expired));
}

#[test]
fn valid_credential_without_grant_is_unauthorized() {
    let decision =
        guard().call_at(&text(&token(&["admin"], 1_000)), "/public/home", &table(), SECRET, 10);
    assert_eq!(decision, Admission::Reject(AuthError::Unauthorized));
    let decision =
        guard().call_at(&text(&token(&[], 1_000)), "/admin/users", &table(), SECRET, 10);
    assert_eq!(decision, Admission::Reject(AuthError::Unauthorized));
}

#[test]
fn valid_credential_with_grant_is_forwarded() {
    let decision =
        guard().call_at(&text(&token(&["admin"], 1_000)), "/admin/users", &table(), SECRET, 1_000);
    assert_eq!(decision, Admission::Forward);
    let decision =
        guard().call(&text(&token(&["admin"], usize::MAX)), "/admin/users", &table(), SECRET);
    assert_eq!(decision, Admission::Forward);
}

#[test]
fn broken_stored_pattern_is_surfaced() {
    let decision =
        guard().call_at(&text(&token(&["bad"], 1_000)), "/admin/users", &table(), SECRET, 10);
    assert_eq!(
        decision,
        Admission::Reject(AuthError::InvalidPatternConfig {
            role: "bad".to_string(),
            pattern: "(unterminated".to_string(),
        })
    );
}

#[test]
fn check_answers_true_or_an_error() {
    let good = token(&["admin"], 1_000);
    assert_eq!(verify_token_and_authority_at(&good, "/admin/users", &table(), SECRET, 10), Ok(true));
    assert_eq!(
        verify_token_and_authority_at(&good, "/public/home", &table(), SECRET, 10),
        Err(AuthError::Unauthorized)
    );
    assert_eq!(
        verify_token_and_authority_at(&good, "/admin/users", &table(), SECRET, 1_001),
        Err(AuthError::Expired)
    );
    assert_eq!(
        verify_token_and_authority_at(&good, "/admin/users", &table(), "other", 10),
        Err(AuthError::InvalidSignature)
    );
    assert_eq!(
        verify_token_and_authority_at("a.b.c", "/admin/users", &table(), SECRET, 10),
        Err(AuthError::InvalidFormat)
    );
    // Read from the clock: a token from the year 2001 is long expired.
    assert_eq!(
        verify_token_and_authority(&token(&["admin"], 1_000_000_000), "/admin/users", &table(), SECRET),
        Err(AuthError::Expired)
    );
    assert_eq!(
        verify_token_and_authority(&token(&["admin"], usize::MAX), "/admin/users", &table(), SECRET),
        Ok(true)
    );
}

#[test]
fn failures_are_classified() {
    let cases = [
        (AuthError::MissingCredential, FailureClass::Authentication, 401),
        (AuthError::Expired, FailureClass::Authentication, 401),
        (AuthError::InvalidFormat, FailureClass::MalformedCredential, 400),
        (AuthError::InvalidSignature, FailureClass::MalformedCredential, 400),
        (AuthError::Unauthorized, FailureClass::Authorization, 403),
        (
            AuthError::InvalidPatternConfig { role: "r".to_string(), pattern: "(".to_string() },
            FailureClass::Configuration,
            500,
        ),
    ];
    for (error, class, status) in cases {
        assert_eq!(failure_class(&error), class);
        assert_eq!(failure_status(class), status);
    }
}
