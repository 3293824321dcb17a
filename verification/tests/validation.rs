use taskbane::user_service::UserService;
use taskbane::user_repo::create_user_repo;
use taskbane::validation::UsernameIssue;
use taskbane::validation::username_validation;
use taskbane::validation::validate_username;

#[test]
fn empty_username_is_rejected() {
    assert_eq!(validate_username(""), Some(UsernameIssue::Empty));
    assert_eq!(
        UsernameIssue::Empty.message(),
        "Username cannot be empty"
    );
}

#[test]
fn short_and_long_usernames_are_rejected() {
    assert_eq!(validate_username("ab"), Some(UsernameIssue::TooShort));
    assert_eq!(validate_username("abc"), None);
    assert_eq!(validate_username("abcdefghijklmnopqrst"), None);
    assert_eq!(validate_username("abcdefghijklmnopqrstu"), Some(UsernameIssue::TooLong));
    assert_eq!(
        UsernameIssue::TooShort.message(),
        "Username must be at least 3 characters long</p>"
    );
    assert_eq!(
        UsernameIssue::TooLong.message(),
        "Username must be at most 20 characters long</p>"
    );
}

#[test]
fn only_alphanumerics_and_underscores_are_allowed() {
    assert_eq!(validate_username("ab_c9"), None);
    assert_eq!(validate_username("ab-c"), Some(UsernameIssue::InvalidCharacter));
    assert_eq!(validate_username("ab c"), Some(UsernameIssue::InvalidCharacter));
    assert_eq!(validate_username("ab!"), Some(UsernameIssue::InvalidCharacter));
    assert_eq!(
        UsernameIssue::InvalidCharacter.message(),
        "Username can only contain alphanumeric characters and underscores</p>"
    );
}

#[test]
fn unicode_letters_count_as_alphanumeric() {
    assert_eq!(validate_username("h\u{e9}llo"), None);
    assert_eq!(validate_username("h\u{2764}rt"), Some(UsernameIssue::InvalidCharacter));
}

#[test]
fn length_is_counted_in_bytes() {
    // two three-byte characters pass the length window and fail the character check
    assert_eq!(validate_username("\u{2603}\u{2603}"), Some(UsernameIssue::InvalidCharacter));
    // seven of them exceed the 20-byte cap before the character check runs
    assert_eq!(
        validate_username("\u{2603}\u{2603}\u{2603}\u{2603}\u{2603}\u{2603}\u{2603}"),
        Some(UsernameIssue::TooLong)
    );
}

#[test]
fn full_validation_reports_taken_usernames() {
    let mut users = UserService::new(create_user_repo());
    users.register_user("alice".to_string()).unwrap();
    assert_eq!(
        username_validation(&users, "alice"),
        Some("Username is already taken".to_string())
    );
    assert_eq!(username_validation(&users, "bob"), None);
    assert_eq!(
        username_validation(&users, "a"),
        Some("Username must be at least 3 characters long</p>".to_string())
    );
    assert_eq!(
        username_validation(&users, ""),
        Some("Username cannot be empty".to_string())
    );
}
