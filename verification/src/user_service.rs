//! The user directory: maps human-chosen usernames to stable identities
//! and enforces username uniqueness.
//!
//! `register_user` performs its availability check and its insert on one
//! exclusively borrowed directory, so two registrations of the same name
//! cannot interleave: exactly one succeeds and the other answers
//! `UsernameTaken`.
use vstd::prelude::*;

use crate::errors::DirectoryError;
use crate::models::User;
use crate::models::UserIdentity;
use crate::user_repo::UserRepository;
use crate::user_repo::username_taken;

verus! {

/// Relies on uuid::Uuid::new_v4 and uuid::Uuid::as_u128: draws a fresh
/// version-4 identifier as 128 random bits. The value depends on the
/// process's randomness source, so nothing is promised of it; the caller
/// handles a collision with an existing identity.
#[verifier::external_body]
fn fresh_identity() -> (r: UserIdentity) {
    UserIdentity { value: uuid::Uuid::new_v4().as_u128() }
}

/// The user directory, over any store satisfying `UserRepository`.
pub struct UserService<R: UserRepository> {
    repo: R,
}

impl<R: UserRepository> UserService<R> {
    /// The users of the directory, as a map from identity to username.
    pub closed spec fn users(&self) -> Map<u128, Seq<char>> {
        self.repo.users()
    }

    /// Wraps a user store as a directory.
    pub fn new(repo: R) -> (r: Self)
        ensures
            r.users() == repo.users(),
    {
        Self { repo }
    }

    /// Whether no user bears the username yet. A pure query: `register_user`
    /// re-checks availability itself, under the same exclusive borrow as
    /// its insert.
    pub fn is_username_available(&self, username: String) -> (r: bool)
        ensures
            r <==> !username_taken(self.users(), username@),
    {
        match self.repo.get_by_username(username) {
            Some(u) => {
                proof {
                    assert(self.users().dom().contains(u.id.value));
                }
                false
            },
            None => true,
        }
    }

    /// Registers a new user: draws a fresh identity, checks that the
    /// username is free, and inserts. Fails with `UsernameTaken` exactly
    /// when the username is already bound; fails with `IdentityExists`
    /// when the drawn identity collides with an existing one. On any
    /// failure the directory is unchanged.
    pub fn register_user(&mut self, username: String) -> (r: Result<User, DirectoryError>)
        ensures
            (match r {
                Ok(u) => !username_taken(old(self).users(), username@) && !old(self).users().dom().contains(u.id.value) && u.username@ == username@ && final(self).users() == old(self).users().insert(u.id.value, username@),
                Err(e) => final(self).users() == old(self).users() && (e
                    == DirectoryError::UsernameTaken || e == DirectoryError::IdentityExists) && (e
                    == DirectoryError::UsernameTaken <==> username_taken(
                    old(self).users(),
                    username@,
                )),
            }),
    {
        let id = fresh_identity();
        if !self.is_username_available(username.clone()) {
            return Err(DirectoryError::UsernameTaken);
        }
        self.repo.add(id, username)
    }

    /// Resolves a username for a login attempt. Fails with `NotFound`
    /// exactly when no user bears the username.
    pub fn get_login(&self, username: String) -> (r: Result<User, DirectoryError>)
        ensures
            (match r {
                Ok(u) => self.users().dom().contains(u.id.value) && self.users()[u.id.value]
                    == username@ && u.username@ == username@,
                Err(e) => e == DirectoryError::NotFound && !username_taken(
                    self.users(),
                    username@,
                ),
            }),
    {
        match self.repo.get_by_username(username) {
            Some(u) => Ok(u),
            None => Err(DirectoryError::NotFound),
        }
    }
}

/// Usernames stay unique: once a registration for a name has succeeded,
/// the name is taken in the directory, so by the contract of
/// `register_user` a second registration of the same name must answer
/// `UsernameTaken`; of two such calls at most one can succeed.
pub proof fn lemma_username_uniqueness(m: Map<u128, Seq<char>>, id: u128, name: Seq<char>)
    ensures
        username_taken(m.insert(id, name), name),
{
    assert(m.insert(id, name).dom().contains(id));
}

} // verus!
