use taskbane::auth_repo::AuthMemRepo;
use taskbane::auth_repo::AuthRepository;
use taskbane::auth_repo::create_auth_repo;
use taskbane::auth_service::AuthService;
use taskbane::ceremony::CredentialVerifier;
use taskbane::ceremony::StubVerifier;
use taskbane::errors::ApiError;
use taskbane::errors::CeremonyError;
use taskbane::errors::VerifierError;
use taskbane::flows::finish_login_flow;
use taskbane::flows::finish_registration_flow;
use taskbane::flows::start_login_flow;
use taskbane::flows::start_registration_flow;
use taskbane::models::UserIdentity;
use taskbane::session::GateDecision;
use taskbane::session::SessionAuthState;
use taskbane::session::authentication_gate;
use taskbane::user_repo::UserMemRepo;
use taskbane::user_repo::create_user_repo;
use taskbane::user_service::UserService;

type Directory = UserService<UserMemRepo>;
type Orchestrator = AuthService<AuthMemRepo, StubVerifier>;

fn fresh() -> (Directory, Orchestrator) {
    (
        UserService::new(create_user_repo()),
        AuthService::new(create_auth_repo(), StubVerifier::new()),
    )
}

fn enroll(users: &mut Directory, auth: &mut Orchestrator, name: &str) -> SessionAuthState {
    let (challenge, session) =
        start_registration_flow(users, auth, name.to_string()).unwrap();
    let target = finish_registration_flow(auth, &session, &challenge).unwrap();
    assert_eq!(target, "/login");
    session
}

#[test]
fn registration_end_to_end_enrolls_one_credential() {
    let (mut users, mut auth) = fresh();
    let session = enroll(&mut users, &mut auth, "bob");
    assert!(!session.is_authed());
    assert_eq!(session.username(), "bob");
    let creds = auth.repo().get_credentials(&session.user_id()).unwrap();
    assert_eq!(creds.len(), 1);
}

#[test]
fn login_end_to_end_promotes_the_session() {
    let (mut users, mut auth) = fresh();
    enroll(&mut users, &mut auth, "bob");
    let (challenge, session) = start_login_flow(&users, &mut auth, "bob".to_string()).unwrap();
    assert!(!session.is_authed());
    let (promoted, target) = finish_login_flow(&mut auth, &session, &challenge).unwrap();
    assert_eq!(target, "/task");
    assert!(promoted.is_authed());
    assert_eq!(promoted.username(), "bob");
    assert_eq!(promoted.user_id(), session.user_id());
    match authentication_gate(Some(&promoted), true) {
        GateDecision::Proceed => {},
        other => panic!("an authenticated session must pass the access check, got {:?}", other),
    }
}

#[test]
fn login_challenge_is_single_use() {
    let (mut users, mut auth) = fresh();
    enroll(&mut users, &mut auth, "bob");
    let (challenge, session) = start_login_flow(&users, &mut auth, "bob".to_string()).unwrap();
    assert!(finish_login_flow(&mut auth, &session, &challenge).is_ok());
    let replay = finish_login_flow(&mut auth, &session, &challenge);
    match replay {
        Err(e) => assert_eq!(
            e,
            ApiError::BadRequest { message: "Failed to validate login".to_string() }
        ),
        Ok(_) => panic!("a replayed login submission must fail"),
    }
}

#[test]
fn second_login_start_overwrites_the_first_ceremony() {
    let (mut users, mut auth) = fresh();
    let session = enroll(&mut users, &mut auth, "bob");
    let id = session.user_id();
    auth.login(&id).unwrap();
    let second_challenge = auth.login(&id).unwrap();
    let pending = auth.repo().get_pending_registration(&id);
    assert!(pending.is_err());
    assert_eq!(auth.validate_login(&id, &second_challenge), Ok(()));
    assert_eq!(auth.validate_login(&id, &second_challenge), Err(CeremonyError::NotFound));
}

#[test]
fn registration_conflict_when_record_exists() {
    let (mut users, mut auth) = fresh();
    let session = enroll(&mut users, &mut auth, "bob");
    let bob = users.get_login("bob".to_string()).unwrap();
    assert_eq!(auth.create_registration(&bob), Err(CeremonyError::Conflict));
    let fresh_user = taskbane::models::User::new(UserIdentity::new(777), "carl".to_string());
    assert!(auth.create_registration(&fresh_user).is_ok());
    drop(session);
}

#[test]
fn start_registration_flow_rejects_taken_username() {
    let (mut users, mut auth) = fresh();
    enroll(&mut users, &mut auth, "bob");
    let again = start_registration_flow(&mut users, &mut auth, "bob".to_string());
    match again {
        Err(e) => assert_eq!(
            e,
            ApiError::BadRequest { message: "No user found for username".to_string() }
        ),
        Ok(_) => panic!("a taken username must not register again"),
    }
}

#[test]
fn start_login_flow_rejects_unknown_username() {
    let (users, mut auth) = fresh();
    let outcome = start_login_flow(&users, &mut auth, "ghost".to_string());
    match outcome {
        Err(e) => assert_eq!(
            e,
            ApiError::BadRequest { message: "No user found for username".to_string() }
        ),
        Ok(_) => panic!("an unknown username must not start a login"),
    }
}

#[test]
fn validate_registration_without_ceremony_is_not_found() {
    let (_, mut auth) = fresh();
    let id = UserIdentity::new(123);
    assert_eq!(auth.validate_registration(&id, &vec![1, 2]), Err(CeremonyError::NotFound));
}

#[test]
fn validate_registration_rejects_wrong_response() {
    let (mut users, mut auth) = fresh();
    let (challenge, session) =
        start_registration_flow(&mut users, &mut auth, "bob".to_string()).unwrap();
    let mut wrong = challenge.clone();
    wrong.push(0);
    let id = session.user_id();
    assert_eq!(auth.validate_registration(&id, &wrong), Err(CeremonyError::VerificationFailed));
    // the pending ceremony survives a rejection, so a retry can succeed
    assert_eq!(auth.validate_registration(&id, &challenge), Ok(()));
}

#[test]
fn login_without_record_is_not_found() {
    let (_, mut auth) = fresh();
    assert_eq!(auth.login(&UserIdentity::new(9)), Err(CeremonyError::NotFound));
}

#[test]
fn login_without_credentials_fails_verification() {
    let (mut users, mut auth) = fresh();
    let (_challenge, session) =
        start_registration_flow(&mut users, &mut auth, "bob".to_string()).unwrap();
    // registration never finished: the record exists but holds no credentials
    let outcome = auth.login(&session.user_id());
    assert_eq!(outcome, Err(CeremonyError::VerificationFailed));
}

#[test]
fn stub_verifier_accepts_only_the_echoed_state() {
    let stub = StubVerifier::new();
    let ceremony = stub
        .begin_registration(&UserIdentity::new(1), &"ann".to_string())
        .unwrap();
    assert_eq!(ceremony.challenge, ceremony.state);
    assert_eq!(ceremony.state, b"ann".to_vec());
    let cred = stub.finish_registration(&ceremony.challenge, &ceremony.state).unwrap();
    assert_eq!(cred.cred_id, b"ann".to_vec());
    assert_eq!(cred.counter, 0);
    let rejected = stub.finish_registration(&b"other".to_vec(), &ceremony.state);
    assert_eq!(rejected.err(), Some(VerifierError::Rejected));
}
