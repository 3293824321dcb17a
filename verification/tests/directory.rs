use taskbane::errors::DirectoryError;
use taskbane::models::UserIdentity;
use taskbane::user_repo::UserRepository;
use taskbane::user_repo::create_user_repo;
use taskbane::user_service::UserService;

#[test]
fn register_then_duplicate_username_is_taken() {
    let mut users = UserService::new(create_user_repo());
    let first = users.register_user("alice".to_string()).unwrap();
    assert_eq!(first.username(), "alice");
    let second = users.register_user("alice".to_string());
    assert_eq!(second, Err(DirectoryError::UsernameTaken));
}

#[test]
fn availability_flips_after_registration() {
    let mut users = UserService::new(create_user_repo());
    assert!(users.is_username_available("alice".to_string()));
    users.register_user("alice".to_string()).unwrap();
    assert!(!users.is_username_available("alice".to_string()));
    assert!(users.is_username_available("bob".to_string()));
}

#[test]
fn get_login_resolves_registered_user_only() {
    let mut users = UserService::new(create_user_repo());
    let bob = users.register_user("bob".to_string()).unwrap();
    let found = users.get_login("bob".to_string()).unwrap();
    assert_eq!(found.id(), bob.id());
    assert_eq!(found.username(), "bob");
    assert_eq!(users.get_login("carol".to_string()), Err(DirectoryError::NotFound));
}

#[test]
fn usernames_are_case_sensitive() {
    let mut users = UserService::new(create_user_repo());
    users.register_user("Alice".to_string()).unwrap();
    assert!(users.is_username_available("alice".to_string()));
    assert_eq!(users.get_login("alice".to_string()), Err(DirectoryError::NotFound));
}

#[test]
fn repository_rejects_identity_reuse() {
    let mut repo = create_user_repo();
    let id = UserIdentity::new(42);
    repo.add(id, "alice".to_string()).unwrap();
    let second = repo.add(id, "bob".to_string());
    assert_eq!(second, Err(DirectoryError::IdentityExists));
}

#[test]
fn repository_get_update_delete() {
    let mut repo = create_user_repo();
    let id = UserIdentity::new(5);
    repo.add(id, "dora".to_string()).unwrap();
    assert_eq!(repo.get(id).unwrap().username(), "dora");
    repo.update(id, "dina".to_string()).unwrap();
    assert_eq!(repo.get(id).unwrap().username(), "dina");
    assert_eq!(repo.get_by_username("dina".to_string()).unwrap().id(), id);
    assert!(repo.get_by_username("dora".to_string()).is_none());
    repo.delete(id).unwrap();
    assert_eq!(repo.get(id), Err(DirectoryError::NotFound));
    assert_eq!(repo.delete(id), Err(DirectoryError::NotFound));
    assert_eq!(repo.update(id, "x".to_string()), Err(DirectoryError::NotFound));
}

#[test]
fn two_users_same_identity_compare_equal() {
    let a = taskbane::models::User::new(UserIdentity::new(1), "a".to_string());
    let mut b = taskbane::models::User::new(UserIdentity::new(1), "b".to_string());
    let c = taskbane::models::User::new(UserIdentity::new(2), "a".to_string());
    assert!(a == b);
    assert!(a != c);
    b.with_username("bb".to_string());
    assert_eq!(b.username(), "bb");
    assert!(a == b);
}
