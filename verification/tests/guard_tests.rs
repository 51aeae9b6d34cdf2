use rustlang_rocket_mongodb::error::Status;
use rustlang_rocket_mongodb::guard::GuardError;
use rustlang_rocket_mongodb::token::{AuthObject, TokenService, VALIDITY_SECONDS};

fn service() -> TokenService {
    TokenService::new(b"secret".to_vec())
}

#[test]
fn request_without_header_is_a_bad_request() {
    let r = AuthObject::from_request_at(&service(), None, 0);
    assert_eq!(r, Err(GuardError::MissingCredential));
    assert_eq!(GuardError::MissingCredential.status(), Status::BadRequest);
    assert_eq!(GuardError::MissingCredential.status().code(), 400);
    assert_eq!(GuardError::MissingCredential.message(), "Authorization header not found");
    assert_eq!(AuthObject::from_request(&service(), None), Err(GuardError::MissingCredential));
}

#[test]
fn request_with_a_bad_token_is_unauthorized() {
    let r = AuthObject::from_request_at(&service(), Some("Bearer nonsense"), 0);
    assert_eq!(r, Err(GuardError::Unauthorized));
    assert_eq!(GuardError::Unauthorized.status(), Status::Unauthorized);
    assert_eq!(GuardError::Unauthorized.status().code(), 401);
    assert_eq!(GuardError::Unauthorized.message(), "User is not authorized");
    assert_eq!(AuthObject::from_request(&service(), Some("")), Err(GuardError::Unauthorized));
}

#[test]
fn request_with_a_valid_token_passes_with_the_subject() {
    let s = service();
    let token = s.issue_at("alice@example.com", 100).unwrap();
    let expected = AuthObject { authorized: true, user: "alice@example.com".to_string() };
    assert_eq!(AuthObject::from_request_at(&s, Some(&token), 100), Ok(expected));
    let value = format!("Bearer {}", token);
    let expected = AuthObject { authorized: true, user: "alice@example.com".to_string() };
    assert_eq!(AuthObject::from_request_at(&s, Some(&value), 100), Ok(expected));
}

#[test]
fn request_with_an_expired_token_is_unauthorized() {
    let s = service();
    let token = s.issue_at("alice@example.com", 100).unwrap();
    let r = AuthObject::from_request_at(&s, Some(&token), 100 + VALIDITY_SECONDS + 1);
    assert_eq!(r, Err(GuardError::Unauthorized));
}

#[test]
fn request_with_a_token_of_another_secret_is_unauthorized() {
    let token = TokenService::new(b"another".to_vec()).issue_at("alice@example.com", 100).unwrap();
    let r = AuthObject::from_request_at(&service(), Some(&token), 100);
    assert_eq!(r, Err(GuardError::Unauthorized));
}

#[test]
fn guard_by_the_clock_lets_a_fresh_token_pass() {
    let s = service();
    let token = s.issue("alice@example.com").unwrap();
    let expected = AuthObject { authorized: true, user: "alice@example.com".to_string() };
    assert_eq!(AuthObject::from_request(&s, Some(&token)), Ok(expected));
}
