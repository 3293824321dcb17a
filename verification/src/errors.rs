//! Error taxonomy of the authentication core.
//!
//! Storage adapters signal `StoreError` and `DirectoryError`; the ceremony
//! orchestrator folds every failure into a `CeremonyError`; the HTTP-facing
//! layer speaks `ApiError` and serializes an `ErrorMessage` body. I/O-level
//! storage failures are retried or surfaced by the storage adapters outside
//! this core and never reach the orchestrator.
use vstd::prelude::*;

verus! {

/// Failure of an auth-record store operation: the identity has no record,
/// or a record already exists where none may be overwritten.
#[derive(Clone, Copy, PartialEq, Eq, Structural, Debug)]
pub enum StoreError {
    NotFound,
    AlreadyExists,
}

/// Failure of a user-directory operation.
#[derive(Clone, Copy, PartialEq, Eq, Structural, Debug)]
pub enum DirectoryError {
    /// The requested username is already bound to a user.
    UsernameTaken,
    /// The drawn identity is already bound to a user.
    IdentityExists,
    /// No user matches the given name or identity.
    NotFound,
}

impl DirectoryError {
    /// The user-facing text for this failure.
    pub fn message(&self) -> (r: &'static str)
        ensures
            *self == DirectoryError::UsernameTaken ==> r@ == "Username already exists"@,
            *self == DirectoryError::IdentityExists ==> r@ == "User with username already exists"@,
            *self == DirectoryError::NotFound ==> r@ == "No user found for username"@,
    {
        match self {
            DirectoryError::UsernameTaken => "Username already exists",
            DirectoryError::IdentityExists => "User with username already exists",
            DirectoryError::NotFound => "No user found for username",
        }
    }
}

/// How a ceremony step failed, after every storage or verifier detail has
/// been folded away: no record or pending state (`NotFound`), a record
/// already present where a fresh one was required (`Conflict`), or the
/// verifier rejecting the cryptographic proof (`VerificationFailed`).
#[derive(Clone, Copy, PartialEq, Eq, Structural, Debug)]
pub enum CeremonyError {
    NotFound,
    Conflict,
    VerificationFailed,
}

/// Failure reported by a credential verifier; the reason stays with the
/// verifier and is never echoed to a client.
#[derive(Clone, Copy, PartialEq, Eq, Structural, Debug)]
pub enum VerifierError {
    Rejected,
}

/// The error surface of the HTTP handlers.
#[derive(PartialEq, Eq, Debug)]
pub enum ApiError {
    InternalServerError,
    BadRequest { message: String },
    Unauthorized,
    Forbidden,
    NotFound,
}

impl ApiError {
    /// The HTTP status code this error is answered with.
    pub fn status_code(&self) -> (r: u16)
        ensures
            r == (match *self {
                ApiError::InternalServerError => 500u16,
                ApiError::BadRequest { .. } => 400u16,
                ApiError::Unauthorized => 401u16,
                ApiError::Forbidden => 403u16,
                ApiError::NotFound => 404u16,
            }),
    {
        match self {
            ApiError::InternalServerError => 500,
            ApiError::BadRequest { .. } => 400,
            ApiError::Unauthorized => 401,
            ApiError::Forbidden => 403,
            ApiError::NotFound => 404,
        }
    }

    /// The generic description of this error, one fixed text per kind.
    pub fn message(&self) -> (r: &'static str)
        ensures
            r@ == Self::message_spec(*self),
    {
        match self {
            ApiError::InternalServerError => "Internal server error",
            ApiError::BadRequest { .. } => "Bad request",
            ApiError::Unauthorized => "Unauthorized",
            ApiError::Forbidden => "Forbidden",
            ApiError::NotFound => "Not found",
        }
    }

    /// The fixed description text of each error kind.
    pub open spec fn message_spec(e: ApiError) -> Seq<char> {
        match e {
            ApiError::InternalServerError => "Internal server error"@,
            ApiError::BadRequest { .. } => "Bad request"@,
            ApiError::Unauthorized => "Unauthorized"@,
            ApiError::Forbidden => "Forbidden"@,
            ApiError::NotFound => "Not found"@,
        }
    }

    /// The body text sent to the client: a `BadRequest` carries its own
    /// message, every other kind only its generic description.
    pub open spec fn body_spec(e: ApiError) -> Seq<char> {
        match e {
            ApiError::BadRequest { message } => message@,
            _ => Self::message_spec(e),
        }
    }

    /// The response body for this error: its status code and message.
    pub fn into_parts(self) -> (r: (u16, ErrorMessage))
        ensures
            r.0 == (match self {
                ApiError::InternalServerError => 500u16,
                ApiError::BadRequest { .. } => 400u16,
                ApiError::Unauthorized => 401u16,
                ApiError::Forbidden => 403u16,
                ApiError::NotFound => 404u16,
            }),
            r.1.message@ == Self::body_spec(self),
    {
        let status = self.status_code();
        let body = match self {
            ApiError::BadRequest { message } => ErrorMessage { message },
            other => ErrorMessage::from(other),
        };
        (status, body)
    }
}

/// Failure surfaced by the WebAuthn engine's HTTP-facing layer.
#[derive(Clone, Copy, PartialEq, Eq, Structural, Debug)]
pub enum WebauthnError {
    Unknown,
    UserNotFound,
    UserHasNoCredentials,
}

impl WebauthnError {
    /// The response body text for this failure.
    pub fn body(&self) -> (r: &'static str)
        ensures
            *self == WebauthnError::Unknown ==> r@ == "Unknown Error"@,
            *self == WebauthnError::UserNotFound ==> r@ == "User Not Found"@,
            *self == WebauthnError::UserHasNoCredentials ==> r@ == "User Has No Credentials"@,
    {
        match self {
            WebauthnError::UserNotFound => "User Not Found",
            WebauthnError::Unknown => "Unknown Error",
            WebauthnError::UserHasNoCredentials => "User Has No Credentials",
        }
    }

    /// The HTTP status code this failure is answered with.
    pub fn status_code(&self) -> (r: u16)
        ensures
            r == 500,
    {
        500
    }
}

/// A serializable error body: the one field the client sees.
#[derive(Debug)]
pub struct ErrorMessage {
    pub message: String,
}

impl ErrorMessage {
    /// Wraps a text as an error body.
    pub fn new(message: &str) -> (r: Self)
        ensures
            r.message@ == message@,
    {
        ErrorMessage { message: message.to_owned() }
    }

    /// The error body for an `ApiError`, carrying its generic description.
    pub fn from(err: ApiError) -> (r: Self)
        ensures
            r.message@ == ApiError::message_spec(err),
    {
        ErrorMessage { message: err.message().to_owned() }
    }
}

} // verus!
