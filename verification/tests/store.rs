use taskbane::auth_repo::AuthMemRepo;
use taskbane::auth_repo::AuthRepository;
use taskbane::auth_repo::create_auth_repo;
use taskbane::errors::StoreError;
use taskbane::models::Credential;
use taskbane::models::UserAuth;
use taskbane::models::UserIdentity;
use taskbane::models::VerifiedOutcome;
use taskbane::models::apply_counter_update;

fn id(n: u128) -> UserIdentity {
    UserIdentity::new(n)
}

fn seeded_store(n: u128) -> AuthMemRepo {
    let mut repo = create_auth_repo();
    repo.create(UserAuth::new(id(n), vec![1, 2, 3])).unwrap();
    repo
}

#[test]
fn create_is_first_call_only() {
    let mut repo = create_auth_repo();
    assert!(repo.create(UserAuth::new(id(7), vec![1])).is_ok());
    let second = repo.create(UserAuth::new(id(7), vec![2]));
    assert_eq!(second, Err(StoreError::AlreadyExists));
    let third = repo.create(UserAuth::new(id(8), vec![3]));
    assert!(third.is_ok());
}

#[test]
fn get_pending_registration_roundtrip() {
    let repo = seeded_store(1);
    assert_eq!(repo.get_pending_registration(&id(1)), Ok(vec![1, 2, 3]));
    assert_eq!(repo.get_pending_registration(&id(2)), Err(StoreError::NotFound));
}

#[test]
fn set_pending_authentication_clears_registration() {
    let mut repo = seeded_store(1);
    repo.set_pending_authentication(&id(1), vec![9, 9]).unwrap();
    assert_eq!(repo.get_pending_registration(&id(1)), Err(StoreError::NotFound));
    assert_eq!(
        repo.set_pending_authentication(&id(2), vec![0]),
        Err(StoreError::NotFound)
    );
}

#[test]
fn take_pending_authentication_is_single_use() {
    let mut repo = seeded_store(1);
    repo.set_pending_authentication(&id(1), vec![4, 5]).unwrap();
    assert_eq!(repo.take_pending_authentication(&id(1)), Ok(vec![4, 5]));
    assert_eq!(repo.take_pending_authentication(&id(1)), Err(StoreError::NotFound));
}

#[test]
fn take_pending_authentication_without_ceremony_fails() {
    let mut repo = seeded_store(1);
    assert_eq!(repo.take_pending_authentication(&id(1)), Err(StoreError::NotFound));
    assert_eq!(repo.take_pending_authentication(&id(3)), Err(StoreError::NotFound));
}

#[test]
fn second_pending_authentication_overwrites_first() {
    let mut repo = seeded_store(1);
    repo.set_pending_authentication(&id(1), vec![10]).unwrap();
    repo.set_pending_authentication(&id(1), vec![20]).unwrap();
    assert_eq!(repo.take_pending_authentication(&id(1)), Ok(vec![20]));
    assert_eq!(repo.take_pending_authentication(&id(1)), Err(StoreError::NotFound));
}

#[test]
fn append_credential_grows_by_one_and_keeps_order() {
    let mut repo = seeded_store(1);
    repo.append_credential(&id(1), Credential::new(vec![0xa], vec![1], 0)).unwrap();
    repo.append_credential(&id(1), Credential::new(vec![0xb], vec![2], 0)).unwrap();
    let creds = repo.get_credentials(&id(1)).unwrap();
    assert_eq!(creds.len(), 2);
    assert_eq!(creds[0].cred_id, vec![0xa]);
    assert_eq!(creds[0].material, vec![1]);
    assert_eq!(creds[1].cred_id, vec![0xb]);
    assert_eq!(repo.append_credential(&id(9), Credential::new(vec![0xc], vec![], 0)), Err(StoreError::NotFound));
}

#[test]
fn append_credential_consumes_pending_registration() {
    let mut repo = seeded_store(1);
    assert!(repo.get_pending_registration(&id(1)).is_ok());
    repo.append_credential(&id(1), Credential::new(vec![0xa], vec![1], 0)).unwrap();
    assert_eq!(repo.get_pending_registration(&id(1)), Err(StoreError::NotFound));
}

#[test]
fn counter_update_targets_only_the_matching_credential() {
    let mut repo = seeded_store(1);
    repo.append_credential(&id(1), Credential::new(vec![0xa], vec![1, 1], 5)).unwrap();
    repo.append_credential(&id(1), Credential::new(vec![0xb], vec![2, 2], 5)).unwrap();
    let outcome = VerifiedOutcome::new(vec![0xb], 6);
    repo.update_credential_counters(&id(1), &outcome).unwrap();
    let creds = repo.get_credentials(&id(1)).unwrap();
    assert_eq!(creds[0].cred_id, vec![0xa]);
    assert_eq!(creds[0].material, vec![1, 1]);
    assert_eq!(creds[0].counter, 5);
    assert_eq!(creds[1].cred_id, vec![0xb]);
    assert_eq!(creds[1].material, vec![2, 2]);
    assert_eq!(creds[1].counter, 6);
}

#[test]
fn counter_update_never_regresses() {
    let cred = Credential::new(vec![0xa], vec![1], 9);
    let updated = apply_counter_update(&cred, &VerifiedOutcome::new(vec![0xa], 3));
    assert_eq!(updated.counter, 9);
    let advanced = apply_counter_update(&cred, &VerifiedOutcome::new(vec![0xa], 10));
    assert_eq!(advanced.counter, 10);
    let other = apply_counter_update(&cred, &VerifiedOutcome::new(vec![0xf], 99));
    assert_eq!(other.counter, 9);
}

#[test]
fn update_credential_counters_unknown_identity_fails() {
    let mut repo = create_auth_repo();
    let outcome = VerifiedOutcome::new(vec![0xa], 1);
    assert_eq!(repo.update_credential_counters(&id(1), &outcome), Err(StoreError::NotFound));
}

#[test]
fn record_getters_reflect_pending_state() {
    let auth = UserAuth::new(id(4), vec![7, 8]);
    assert_eq!(auth.user_id(), id(4));
    assert_eq!(auth.registration(), Some(vec![7, 8]));
    assert_eq!(auth.authentication(), None);
    assert!(auth.passkey().is_empty());
}
