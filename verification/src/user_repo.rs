//! The user directory's storage: users keyed by identity.
//!
//! `UserRepository` is the access contract, phrased over a map from
//! identity to username; `UserMemRepo` is the verified in-memory variant.
use vstd::prelude::*;
use vstd::pervasive::VecAdditionalExecFns;

use crate::errors::DirectoryError;
use crate::models::User;
use crate::models::UserIdentity;

verus! {

/// Whether some user in the directory bears the username.
pub open spec fn username_taken(m: Map<u128, Seq<char>>, name: Seq<char>) -> bool {
    exists|k: u128| #[trigger] m.dom().contains(k) && m[k] == name
}

/// The access contract of a user store: a map from identity to username.
pub trait UserRepository: Sized {
    /// The users the store holds, as a map from identity to username.
    spec fn users(&self) -> Map<u128, Seq<char>>;

    /// Adds a user under a fresh identity. Succeeds exactly when the
    /// identity is not bound yet; a second add for the same identity fails
    /// and changes nothing.
    fn add(&mut self, id: UserIdentity, username: String) -> (r: Result<User, DirectoryError>)
        ensures
            (match r {
                Ok(u) => !old(self).users().dom().contains(id.value) && u.id == id && u.username@
                    == username@ && final(self).users() == old(self).users().insert(
                    id.value,
                    username@,
                ),
                Err(e) => e == DirectoryError::IdentityExists && old(self).users().dom().contains(
                    id.value,
                ) && final(self).users() == old(self).users(),
            }),
    ;

    /// The user bound to the identity.
    fn get(&self, id: UserIdentity) -> (r: Result<User, DirectoryError>)
        ensures
            (match r {
                Ok(u) => self.users().dom().contains(id.value) && u.id == id && u.username@
                    == self.users()[id.value],
                Err(e) => e == DirectoryError::NotFound && !self.users().dom().contains(id.value),
            }),
    ;

    /// Some user bearing the username, if any does; case-sensitive.
    fn get_by_username(&self, username: String) -> (r: Option<User>)
        ensures
            (match r {
                Some(u) => self.users().dom().contains(u.id.value) && self.users()[u.id.value]
                    == username@ && u.username@ == username@,
                None => !username_taken(self.users(), username@),
            }),
    ;

    /// Rebinds the identity's username.
    fn update(&mut self, id: UserIdentity, username: String) -> (r: Result<(), DirectoryError>)
        ensures
            (match r {
                Ok(()) => old(self).users().dom().contains(id.value) && final(self).users() == old(
                    self,
                ).users().insert(id.value, username@),
                Err(e) => e == DirectoryError::NotFound && !old(self).users().dom().contains(
                    id.value,
                ) && final(self).users() == old(self).users(),
            }),
    ;

    /// Removes the identity's user.
    fn delete(&mut self, id: UserIdentity) -> (r: Result<(), DirectoryError>)
        ensures
            (match r {
                Ok(()) => old(self).users().dom().contains(id.value) && final(self).users() == old(
                    self,
                ).users().remove(id.value),
                Err(e) => e == DirectoryError::NotFound && !old(self).users().dom().contains(
                    id.value,
                ) && final(self).users() == old(self).users(),
            }),
    ;
}

/// The rows of the in-memory user store.
pub struct UserStore {
    pub users: Vec<User>,
}

/// The verified in-memory user store: a list of users with pairwise
/// distinct identities.
pub struct UserMemRepo {
    store: UserStore,
}

impl UserMemRepo {
    /// No two rows belong to the same identity.
    #[verifier::type_invariant]
    spec fn wf(&self) -> bool {
        forall|i: int, j: int|
            0 <= i < j < self.store.users@.len() ==> self.store.users@[i].id.value
                != self.store.users@[j].id.value
    }

    /// The map a row list denotes.
    spec fn row_map(s: Seq<User>) -> Map<u128, Seq<char>>
        decreases s.len(),
    {
        if s.len() == 0 {
            Map::empty()
        } else {
            Self::row_map(s.drop_last()).insert(s.last().id.value, s.last().username@)
        }
    }

    /// An empty store.
    pub fn new() -> (r: Self)
        ensures
            r.users() == Map::<u128, Seq<char>>::empty(),
    {
        UserMemRepo { store: UserStore { users: Vec::new() } }
    }

    proof fn lemma_row_map_dom(s: Seq<User>)
        ensures
            forall|k: u128|
                #[trigger] Self::row_map(s).dom().contains(k) <==> (exists|i: int|
                    0 <= i < s.len() && s[i].id.value == k),
        decreases s.len(),
    {
        if s.len() > 0 {
            Self::lemma_row_map_dom(s.drop_last());
            assert forall|k: u128| #[trigger]
                Self::row_map(s).dom().contains(k) implies (exists|i: int|
                0 <= i < s.len() && s[i].id.value == k) by {
                if k == s.last().id.value {
                    assert(s[s.len() - 1].id.value == k);
                } else {
                    assert(Self::row_map(s.drop_last()).dom().contains(k));
                    let i = choose|i: int|
                        0 <= i < s.drop_last().len() && s.drop_last()[i].id.value == k;
                    assert(s.drop_last()[i] == s[i]);
                    assert(s[i].id.value == k);
                }
            }
            assert forall|k: u128| (exists|i: int|
                0 <= i < s.len() && s[i].id.value == k) implies #[trigger] Self::row_map(
                s,
            ).dom().contains(k) by {
                let i = choose|i: int| 0 <= i < s.len() && s[i].id.value == k;
                if i < s.len() - 1 {
                    assert(s.drop_last()[i].id.value == k);
                    assert(Self::row_map(s.drop_last()).dom().contains(k));
                } else {
                    assert(k == s.last().id.value);
                }
            }
        }
    }

    proof fn lemma_row_map_get(s: Seq<User>, i: int)
        requires
            0 <= i < s.len(),
            forall|a: int, b: int| 0 <= a < b < s.len() ==> s[a].id.value != s[b].id.value,
        ensures
            Self::row_map(s).dom().contains(s[i].id.value),
            Self::row_map(s)[s[i].id.value] == s[i].username@,
        decreases s.len(),
    {
        if i == s.len() - 1 {
        } else {
            Self::lemma_row_map_get(s.drop_last(), i);
            assert(s.drop_last()[i] == s[i]);
            assert(s[i].id.value != s.last().id.value);
        }
    }

    proof fn lemma_row_map_update(s: Seq<User>, i: int, r: User)
        requires
            0 <= i < s.len(),
            forall|a: int, b: int| 0 <= a < b < s.len() ==> s[a].id.value != s[b].id.value,
            r.id == s[i].id,
        ensures
            Self::row_map(s.update(i, r)) =~= Self::row_map(s).insert(r.id.value, r.username@),
        decreases s.len(),
    {
        let t = s.update(i, r);
        if i == s.len() - 1 {
            assert(t.drop_last() =~= s.drop_last());
            assert(t.last() == r);
        } else {
            assert(t.drop_last() =~= s.drop_last().update(i, r));
            Self::lemma_row_map_update(s.drop_last(), i, r);
            assert(t.last() == s.last());
            assert(s[i].id.value != s.last().id.value);
        }
    }

    proof fn lemma_row_map_remove_last(s: Seq<User>)
        requires
            s.len() > 0,
            forall|a: int, b: int| 0 <= a < b < s.len() ==> s[a].id.value != s[b].id.value,
        ensures
            Self::row_map(s.drop_last()) =~= Self::row_map(s).remove(s.last().id.value),
    {
        Self::lemma_row_map_dom(s.drop_last());
        assert forall|k: u128| Self::row_map(s.drop_last()).dom().contains(k) implies k
            != s.last().id.value by {
            let i = choose|i: int|
                0 <= i < s.drop_last().len() && s.drop_last()[i].id.value == k;
            assert(s[i].id.value == k);
        }
        assert forall|k: u128|
            Self::row_map(s.drop_last()).dom().contains(k) implies #[trigger] Self::row_map(
            s,
        ).remove(s.last().id.value).dom().contains(k) by {}
        assert forall|k: u128| #[trigger]
            Self::row_map(s).remove(s.last().id.value).dom().contains(k) implies Self::row_map(
            s.drop_last(),
        ).dom().contains(k) by {}
        assert forall|k: u128|
            Self::row_map(s.drop_last()).dom().contains(k) implies Self::row_map(s.drop_last())[k]
            == Self::row_map(s).remove(s.last().id.value)[k] by {}
    }

    /// The index of the identity's row, if one exists.
    fn find_row(&self, id: &UserIdentity) -> (r: Option<usize>)
        ensures
            (match r {
                Some(i) => i < self.store.users@.len() && self.store.users@[i as int].id == *id
                    && self.users().dom().contains(id.value) && self.users()[id.value]
                    == self.store.users@[i as int].username@,
                None => !self.users().dom().contains(id.value),
            }),
    {
        proof {
            use_type_invariant(&*self);
            Self::lemma_row_map_dom(self.store.users@);
        }
        let mut i: usize = 0;
        while i < self.store.users.len()
            invariant
                i <= self.store.users@.len(),
                forall|j: int| 0 <= j < i ==> self.store.users@[j].id.value != id.value,
            decreases self.store.users@.len() - i,
        {
            if self.store.users[i].id.value == id.value {
                proof {
                    use_type_invariant(&*self);
                    Self::lemma_row_map_get(self.store.users@, i as int);
                }
                return Some(i);
            }
            i = i + 1;
        }
        None
    }
}

impl UserRepository for UserMemRepo {
    closed spec fn users(&self) -> Map<u128, Seq<char>> {
        Self::row_map(self.store.users@)
    }

    fn add(&mut self, id: UserIdentity, username: String) -> (r: Result<User, DirectoryError>) {
        proof {
            use_type_invariant(&*self);
        }
        match self.find_row(&id) {
            Some(_) => Err(DirectoryError::IdentityExists),
            None => {
                proof {
                    Self::lemma_row_map_dom(self.store.users@);
                }
                let ghost s0 = self.store.users@;
                let user = User::new(id, username);
                let out = user.clone();
                let mut rows: Vec<User> = Vec::new();
                core::mem::swap(&mut rows, &mut self.store.users);
                rows.push(user);
                core::mem::swap(&mut rows, &mut self.store.users);
                proof {
                    assert(self.store.users@.drop_last() =~= s0);
                }
                Ok(out)
            },
        }
    }

    fn get(&self, id: UserIdentity) -> (r: Result<User, DirectoryError>) {
        match self.find_row(&id) {
            None => Err(DirectoryError::NotFound),
            Some(i) => Ok(self.store.users[i].clone()),
        }
    }

    fn get_by_username(&self, username: String) -> (r: Option<User>) {
        proof {
            use_type_invariant(&*self);
        }
        let ghost s = self.store.users@;
        let mut i: usize = 0;
        while i < self.store.users.len()
            invariant
                i <= s.len(),
                s == self.store.users@,
                forall|j: int| 0 <= j < i ==> s[j].username@ != username@,
            decreases s.len() - i,
        {
            if self.store.users[i].username == username {
                proof {
                    use_type_invariant(&*self);
                    Self::lemma_row_map_get(s, i as int);
                }
                return Some(self.store.users[i].clone());
            }
            i = i + 1;
        }
        proof {
            use_type_invariant(&*self);
            Self::lemma_row_map_dom(s);
            assert forall|k: u128| #[trigger]
                self.users().dom().contains(k) implies self.users()[k] != username@ by {
                let j = choose|j: int| 0 <= j < s.len() && s[j].id.value == k;
                Self::lemma_row_map_get(s, j);
            }
        }
        None
    }

    fn update(&mut self, id: UserIdentity, username: String) -> (r: Result<(), DirectoryError>) {
        proof {
            use_type_invariant(&*self);
        }
        match self.find_row(&id) {
            None => Err(DirectoryError::NotFound),
            Some(i) => {
                let ghost s0 = self.store.users@;
                let newrow = User::new(id, username);
                let mut rows: Vec<User> = Vec::new();
                core::mem::swap(&mut rows, &mut self.store.users);
                rows.set(i, newrow);
                core::mem::swap(&mut rows, &mut self.store.users);
                proof {
                    Self::lemma_row_map_update(s0, i as int, newrow);
                }
                Ok(())
            },
        }
    }

    fn delete(&mut self, id: UserIdentity) -> (r: Result<(), DirectoryError>) {
        proof {
            use_type_invariant(&*self);
        }
        match self.find_row(&id) {
            None => Err(DirectoryError::NotFound),
            Some(i) => {
                let ghost s0 = self.store.users@;
                let mut rows: Vec<User> = Vec::new();
                core::mem::swap(&mut rows, &mut self.store.users);
                let _removed = rows.swap_remove(i);
                core::mem::swap(&mut rows, &mut self.store.users);
                proof {
                    use_type_invariant(&*self);
                    Self::lemma_swap_remove_map(s0, i as int);
                }
                Ok(())
            },
        }
    }
}

impl UserMemRepo {
    proof fn lemma_swap_remove_map(s: Seq<User>, i: int)
        requires
            0 <= i < s.len(),
            forall|a: int, b: int| 0 <= a < b < s.len() ==> s[a].id.value != s[b].id.value,
        ensures
            Self::row_map(s.update(i, s.last()).drop_last()) =~= Self::row_map(s).remove(
                s[i].id.value,
            ),
    {
        if i == s.len() - 1 {
            assert(s.update(i, s.last()) =~= s);
            Self::lemma_row_map_remove_last(s);
        } else {
            let u = s.update(i, s.last()).drop_last();
            assert(u.len() == s.len() - 1);
            assert(forall|j: int| 0 <= j < u.len() && j != i ==> u[j] == s[j]);
            assert(u[i] == s.last());
            assert forall|a: int, b: int|
                0 <= a < b < u.len() implies u[a].id.value != u[b].id.value by {
                if a == i {
                    assert(u[a] == s[s.len() - 1]);
                    assert(u[b] == s[b]);
                } else if b == i {
                    assert(u[b] == s[s.len() - 1]);
                    assert(u[a] == s[a]);
                }
            }
            Self::lemma_row_map_dom(u);
            Self::lemma_row_map_dom(s);
            let m = Self::row_map(s).remove(s[i].id.value);
            assert forall|k: u128| #[trigger]
                Self::row_map(u).dom().contains(k) implies m.dom().contains(k) && Self::row_map(u)[k]
                == m[k] by {
                let j = choose|j: int| 0 <= j < u.len() && u[j].id.value == k;
                Self::lemma_row_map_get(u, j);
                let j2: int = if j == i { s.len() - 1 } else { j };
                assert(s[j2] == u[j]);
                Self::lemma_row_map_get(s, j2);
                assert(s[j2].id.value != s[i].id.value);
            }
            assert forall|k: u128| #[trigger] m.dom().contains(k) implies Self::row_map(
                u,
            ).dom().contains(k) by {
                let j = choose|j: int| 0 <= j < s.len() && s[j].id.value == k;
                assert(j != i);
                let j2: int = if j == s.len() - 1 { i } else { j };
                assert(u[j2] == s[j]);
                assert(u[j2].id.value == k);
            }
        }
    }
}

/// Builds the in-memory user store.
pub fn create_user_repo() -> (r: UserMemRepo)
    ensures
        r.users() == Map::<u128, Seq<char>>::empty(),
{
    UserMemRepo::new()
}

} // verus!
