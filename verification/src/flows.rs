//! The compute parts of the four ceremony endpoints: each resolves the
//! user, drives the orchestrator one step, derives the session token the
//! HTTP layer must persist, and maps every failure to the one `ApiError`
//! the client may see. Reading the request and writing the response stay
//! with the HTTP layer.
use vstd::prelude::*;

use crate::auth_repo::AuthRepository;
use crate::auth_repo::append_credential_model;
use crate::auth_repo::has_pending_authentication;
use crate::auth_repo::has_pending_registration;
use crate::auth_repo::has_record;
use crate::auth_repo::set_pending_authentication_model;
use crate::auth_repo::take_pending_authentication_model;
use crate::auth_repo::update_counters_model;
use crate::auth_service::AuthService;
use crate::ceremony::CredentialVerifier;
use crate::errors::ApiError;
use crate::models::AuthRecordModel;
use crate::models::CredentialModel;
use crate::models::OutcomeModel;
use crate::session::SessionAuthState;
use crate::session::SessionModel;
use crate::session::promote_model;
use crate::user_repo::UserRepository;
use crate::user_repo::username_taken;
use crate::user_service::UserService;

verus! {

/// Starts a registration ceremony for a username: registers the user,
/// asks the orchestrator for a challenge, and opens the unauthenticated
/// session that ties the later finish call to this identity. A username
/// that cannot be registered is a `BadRequest`; a failed ceremony start
/// is an `InternalServerError`, after which the user stays registered.
pub fn start_registration_flow<U: UserRepository, R: AuthRepository, V: CredentialVerifier>(
    users: &mut UserService<U>,
    auth: &mut AuthService<R, V>,
    username: String,
) -> (r: Result<(Vec<u8>, SessionAuthState), ApiError>)
    ensures
        (match r {
            Ok((challenge, session)) => !username_taken(old(users).users(), username@) && (exists|
                id: u128,
                state: Seq<u8>,
            |
                {
                    &&& final(users).users() == old(users).users().insert(id, username@)
                    &&& !has_record(old(auth).records(), id)
                    &&& final(auth).records() == old(auth).records().insert(
                        id,
                        AuthRecordModel {
                            credentials: Seq::<CredentialModel>::empty(),
                            pending_registration: Some(state),
                            pending_authentication: None,
                        },
                    )
                    &&& session@ == (SessionModel {
                        user_id: id,
                        username: username@,
                        is_authed: false,
                    })
                }),
            Err(e) => (match e {
                ApiError::BadRequest { message } => message@ == "No user found for username"@
                    && final(users).users() == old(users).users() && final(auth).records() == old(
                    auth,
                ).records(),
                ApiError::InternalServerError => final(auth).records() == old(auth).records() && (
                exists|id: u128| final(users).users() == old(users).users().insert(id, username@)),
                _ => false,
            }),
        }),
        username_taken(old(users).users(), username@) ==> (r matches Err(e) && e matches
            ApiError::BadRequest { .. }),
{
    let user = match users.register_user(username.clone()) {
        Err(_) => {
            return Err(ApiError::BadRequest { message: "No user found for username".to_owned() });
        },
        Ok(u) => u,
    };
    let challenge = match auth.create_registration(&user) {
        Err(_) => {
            return Err(ApiError::InternalServerError);
        },
        Ok(c) => c,
    };
    let session = SessionAuthState::new(&user.id, user.username);
    Ok((challenge, session))
}

/// Finishes a registration ceremony for the identity the session was
/// opened for: validates the client's response and, on success, points
/// the client at the login page. Any failure — no pending ceremony, or a
/// verifier rejection — surfaces as one generic `BadRequest`.
pub fn finish_registration_flow<R: AuthRepository, V: CredentialVerifier>(
    auth: &mut AuthService<R, V>,
    session: &SessionAuthState,
    response: &Vec<u8>,
) -> (r: Result<String, ApiError>)
    ensures
        (match r {
            Ok(target) => target@ == "/login"@ && has_pending_registration(
                old(auth).records(),
                session@.user_id,
            ) && (exists|c: CredentialModel|
                final(auth).records() == append_credential_model(
                    old(auth).records(),
                    session@.user_id,
                    c,
                )),
            Err(e) => e matches ApiError::BadRequest { message } && message@
                == "Failed to validate credentioals"@ && final(auth).records() == old(
                auth,
            ).records(),
        }),
        !has_pending_registration(old(auth).records(), session@.user_id) ==> r is Err,
{
    let user_id = session.user_id();
    match auth.validate_registration(&user_id, response) {
        Err(_) => Err(
            ApiError::BadRequest { message: "Failed to validate credentioals".to_owned() },
        ),
        Ok(()) => Ok("/login".to_owned()),
    }
}

/// Starts a login ceremony for a username: resolves the user, asks the
/// orchestrator for an authentication challenge over the enrolled
/// credentials, and opens the unauthenticated session for the finish
/// call. An unknown username and a failed ceremony start each surface as
/// a `BadRequest`, with the store unchanged.
pub fn start_login_flow<U: UserRepository, R: AuthRepository, V: CredentialVerifier>(
    users: &UserService<U>,
    auth: &mut AuthService<R, V>,
    username: String,
) -> (r: Result<(Vec<u8>, SessionAuthState), ApiError>)
    ensures
        (match r {
            Ok((challenge, session)) => (exists|id: u128, state: Seq<u8>|
                {
                    &&& users.users().dom().contains(id)
                    &&& users.users()[id] == username@
                    &&& has_record(old(auth).records(), id)
                    &&& final(auth).records() == set_pending_authentication_model(
                        old(auth).records(),
                        id,
                        state,
                    )
                    &&& session@ == (SessionModel {
                        user_id: id,
                        username: username@,
                        is_authed: false,
                    })
                }),
            Err(e) => e matches ApiError::BadRequest { message } && final(auth).records() == old(
                auth,
            ).records() && (!username_taken(users.users(), username@) ==> message@
                == "No user found for username"@),
        }),
        !username_taken(users.users(), username@) ==> r is Err,
{
    let user = match users.get_login(username.clone()) {
        Err(_) => {
            return Err(ApiError::BadRequest { message: "No user found for username".to_owned() });
        },
        Ok(u) => u,
    };
    let challenge = match auth.login(&user.id) {
        Err(_) => {
            return Err(ApiError::BadRequest { message: "Failed to login user".to_owned() });
        },
        Ok(c) => c,
    };
    let session = SessionAuthState::new(&user.id, user.username);
    Ok((challenge, session))
}

/// Finishes a login ceremony for the identity the session was opened
/// for: consumes the pending challenge, validates the client's response,
/// and on success promotes the session and points the client at the task
/// page. Any failure surfaces as one generic `BadRequest`; whenever a
/// challenge was pending it is consumed, succeed or fail, so a retried
/// submission fails.
pub fn finish_login_flow<R: AuthRepository, V: CredentialVerifier>(
    auth: &mut AuthService<R, V>,
    session: &SessionAuthState,
    response: &Vec<u8>,
) -> (r: Result<(SessionAuthState, String), ApiError>)
    ensures
        (match r {
            Ok((promoted, target)) => promoted@ == promote_model(session@) && target@ == "/task"@
                && has_pending_authentication(old(auth).records(), session@.user_id) && (exists|
                o: OutcomeModel,
            |
                final(auth).records() == update_counters_model(
                    take_pending_authentication_model(old(auth).records(), session@.user_id),
                    session@.user_id,
                    o,
                )),
            Err(e) => e matches ApiError::BadRequest { message } && message@
                == "Failed to validate login"@ && (final(auth).records() == old(auth).records()
                || final(auth).records() == take_pending_authentication_model(
                old(auth).records(),
                session@.user_id,
            )),
        }),
        !has_pending_authentication(old(auth).records(), session@.user_id) ==> r is Err,
{
    let user_id = session.user_id();
    match auth.validate_login(&user_id, response) {
        Err(_) => Err(ApiError::BadRequest { message: "Failed to validate login".to_owned() }),
        Ok(()) => {
            let promoted = session.update_is_authed(true);
            Ok((promoted, "/task".to_owned()))
        },
    }
}

} // verus!
