use taskbane::errors::ApiError;
use taskbane::errors::CeremonyError;
use taskbane::errors::DirectoryError;
use taskbane::errors::ErrorMessage;
use taskbane::errors::StoreError;
use taskbane::errors::WebauthnError;

#[test]
fn api_error_status_codes() {
    assert_eq!(ApiError::InternalServerError.status_code(), 500);
    assert_eq!(ApiError::BadRequest { message: "x".to_string() }.status_code(), 400);
    assert_eq!(ApiError::Unauthorized.status_code(), 401);
    assert_eq!(ApiError::Forbidden.status_code(), 403);
    assert_eq!(ApiError::NotFound.status_code(), 404);
}

#[test]
fn api_error_messages() {
    assert_eq!(ApiError::InternalServerError.message(), "Internal server error");
    assert_eq!(ApiError::BadRequest { message: "x".to_string() }.message(), "Bad request");
    assert_eq!(ApiError::Unauthorized.message(), "Unauthorized");
    assert_eq!(ApiError::Forbidden.message(), "Forbidden");
    assert_eq!(ApiError::NotFound.message(), "Not found");
}

#[test]
fn bad_request_body_carries_its_own_message() {
    let (status, body) = ApiError::BadRequest { message: "detail".to_string() }.into_parts();
    assert_eq!(status, 400);
    assert_eq!(body.message, "detail");
    let (status, body) = ApiError::Unauthorized.into_parts();
    assert_eq!(status, 401);
    assert_eq!(body.message, "Unauthorized");
}

#[test]
fn error_message_wraps_text() {
    assert_eq!(ErrorMessage::new("oops").message, "oops");
    assert_eq!(ErrorMessage::from(ApiError::NotFound).message, "Not found");
}

#[test]
fn directory_error_messages() {
    assert_eq!(DirectoryError::UsernameTaken.message(), "Username already exists");
    assert_eq!(
        DirectoryError::IdentityExists.message(),
        "User with username already exists"
    );
    assert_eq!(DirectoryError::NotFound.message(), "No user found for username");
}

#[test]
fn webauthn_error_bodies() {
    assert_eq!(WebauthnError::Unknown.body(), "Unknown Error");
    assert_eq!(WebauthnError::UserNotFound.body(), "User Not Found");
    assert_eq!(WebauthnError::UserHasNoCredentials.body(), "User Has No Credentials");
    assert_eq!(WebauthnError::Unknown.status_code(), 500);
}

#[test]
fn error_kinds_are_distinct() {
    assert_ne!(StoreError::NotFound, StoreError::AlreadyExists);
    assert_ne!(CeremonyError::NotFound, CeremonyError::Conflict);
    assert_ne!(CeremonyError::Conflict, CeremonyError::VerificationFailed);
}
