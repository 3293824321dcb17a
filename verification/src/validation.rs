//! Username validation for the registration form: shape checks on the
//! requested name, then an availability check against the directory.
use vstd::prelude::*;
use vstd::string::StringSliceAdditionalSpecFns;

use crate::user_repo::UserRepository;
use crate::user_repo::username_taken;
use crate::user_service::UserService;

verus! {

/// Why a requested username is unusable.
#[derive(Clone, Copy, PartialEq, Eq, Structural, Debug)]
pub enum UsernameIssue {
    Empty,
    TooShort,
    TooLong,
    InvalidCharacter,
}

impl UsernameIssue {
    /// The form-error text for this issue.
    pub fn message(&self) -> (r: &'static str)
        ensures
            r@ == Self::message_spec(*self),
    {
        match self {
            UsernameIssue::Empty => "Username cannot be empty",
            UsernameIssue::TooShort => "Username must be at least 3 characters long</p>",
            UsernameIssue::TooLong => "Username must be at most 20 characters long</p>",
            UsernameIssue::InvalidCharacter => "Username can only contain alphanumeric characters and underscores</p>",
        }
    }

    /// The fixed form-error text of each issue.
    pub open spec fn message_spec(i: UsernameIssue) -> Seq<char> {
        match i {
            UsernameIssue::Empty => "Username cannot be empty"@,
            UsernameIssue::TooShort => "Username must be at least 3 characters long</p>"@,
            UsernameIssue::TooLong => "Username must be at most 20 characters long</p>"@,
            UsernameIssue::InvalidCharacter => "Username can only contain alphanumeric characters and underscores</p>"@,
        }
    }
}

/// Whether the character counts as alphanumeric under Unicode.
pub uninterp spec fn is_unicode_alphanumeric(c: char) -> bool;

/// Relies on char::is_alphanumeric: whether the character is in one of
/// the Unicode letter or number categories; a function of the character
/// alone.
#[verifier::external_body]
fn alphanumeric(c: char) -> (r: bool)
    ensures
        r == is_unicode_alphanumeric(c),
{
    c.is_alphanumeric()
}

/// Relies on str::chars: yields the characters of the text, in order.
#[verifier::external_body]
fn chars_of(s: &str) -> (r: Vec<char>)
    ensures
        r@ == s@,
{
    s.chars().collect()
}

/// Whether a character may appear in a username.
pub open spec fn username_char_ok(c: char) -> bool {
    is_unicode_alphanumeric(c) || c == '_'
}

/// The shape issue of a requested username, if it has one: it must not
/// be empty, must be 3 to 20 bytes long, and may hold only alphanumeric
/// characters and underscores.
pub open spec fn username_issue_spec(s: &str) -> Option<UsernameIssue> {
    if s@.len() == 0 {
        Some(UsernameIssue::Empty)
    } else if s.spec_bytes().len() < 3 {
        Some(UsernameIssue::TooShort)
    } else if s.spec_bytes().len() > 20 {
        Some(UsernameIssue::TooLong)
    } else if exists|i: int| 0 <= i < s@.len() && !username_char_ok(s@[i]) {
        Some(UsernameIssue::InvalidCharacter)
    } else {
        None
    }
}

/// Checks the shape of a requested username.
pub fn validate_username(username: &str) -> (r: Option<UsernameIssue>)
    ensures
        r == username_issue_spec(username),
{
    if username.is_empty() {
        return Some(UsernameIssue::Empty);
    }
    let bytes = username.as_bytes();
    proof {
        vstd::slice::axiom_spec_len(bytes);
    }
    let byte_len = bytes.len();
    if byte_len < 3 {
        return Some(UsernameIssue::TooShort);
    }
    if byte_len > 20 {
        return Some(UsernameIssue::TooLong);
    }
    let cs = chars_of(username);
    let mut i: usize = 0;
    while i < cs.len()
        invariant
            i <= cs@.len(),
            cs@ == username@,
            username@.len() != 0,
            3 <= username.spec_bytes().len() <= 20,
            forall|j: int| 0 <= j < i ==> username_char_ok(cs@[j]),
        decreases cs@.len() - i,
    {
        if !alphanumeric(cs[i]) && cs[i] != '_' {
            proof {
                assert(!username_char_ok(username@[i as int]));
            }
            return Some(UsernameIssue::InvalidCharacter);
        }
        i = i + 1;
    }
    proof {
        assert(forall|j: int| 0 <= j < username@.len() ==> username_char_ok(username@[j]));
    }
    None
}

/// The full validation behind the registration form's username field:
/// first the shape checks, then availability in the directory. Yields the
/// form-error text, or nothing when the name is usable.
pub fn username_validation<R: UserRepository>(directory: &UserService<R>, username: &str) -> (r:
    Option<String>)
    ensures
        (match r {
            Some(m) => (match username_issue_spec(username) {
                Some(issue) => m@ == UsernameIssue::message_spec(issue),
                None => username_taken(directory.users(), username@) && m@
                    == "Username is already taken"@,
            }),
            None => username_issue_spec(username) is None && !username_taken(
                directory.users(),
                username@,
            ),
        }),
{
    if let Some(issue) = validate_username(username) {
        return Some(issue.message().to_owned());
    }
    if !directory.is_username_available(username.to_owned()) {
        return Some("Username is already taken".to_owned());
    }
    None
}

} // verus!
