//! The auth record store: one record per user identity, holding the
//! enrolled credentials and at most one in-flight ceremony state.
//!
//! `AuthRepository` is the access contract every store variant must
//! satisfy, phrased over a map from identity to record model; `AuthMemRepo`
//! is the verified in-memory variant. Each mutating operation is a single
//! call on an exclusively borrowed store, so the check-then-act pairs
//! inside it (existence check then insert) cannot interleave with another
//! caller.
use vstd::prelude::*;
use vstd::pervasive::VecAdditionalExecFns;

use crate::errors::StoreError;
use crate::models::AuthRecordModel;
use crate::models::Credential;
use crate::models::CredentialModel;
use crate::models::Pending;
use crate::models::UserAuth;
use crate::models::UserIdentity;
use crate::models::VerifiedOutcome;
use crate::models::clone_bytes;
use crate::models::clone_credentials;
use crate::models::apply_counter_update_all;
use crate::models::counter_update_all_model;

verus! {

/// Whether the store holds a record for the identity.
pub open spec fn has_record(m: Map<u128, AuthRecordModel>, id: u128) -> bool {
    m.dom().contains(id)
}

/// Whether the store holds a record with a pending registration ceremony.
pub open spec fn has_pending_registration(m: Map<u128, AuthRecordModel>, id: u128) -> bool {
    m.dom().contains(id) && m[id].pending_registration is Some
}

/// Whether the store holds a record with a pending authentication ceremony.
pub open spec fn has_pending_authentication(m: Map<u128, AuthRecordModel>, id: u128) -> bool {
    m.dom().contains(id) && m[id].pending_authentication is Some
}

/// The store after a credential was appended for `id`: the credential list
/// grows by exactly that entry, a pending registration is consumed, and a
/// pending authentication is left alone.
pub open spec fn append_credential_model(
    m: Map<u128, AuthRecordModel>,
    id: u128,
    c: CredentialModel,
) -> Map<u128, AuthRecordModel> {
    m.insert(
        id,
        AuthRecordModel {
            credentials: m[id].credentials.push(c),
            pending_registration: None,
            pending_authentication: m[id].pending_authentication,
        },
    )
}

/// The store after an authentication ceremony was made pending for `id`:
/// any earlier pending state of either kind is replaced by the new one.
pub open spec fn set_pending_authentication_model(
    m: Map<u128, AuthRecordModel>,
    id: u128,
    state: Seq<u8>,
) -> Map<u128, AuthRecordModel> {
    m.insert(
        id,
        AuthRecordModel {
            credentials: m[id].credentials,
            pending_registration: None,
            pending_authentication: Some(state),
        },
    )
}

/// The store after the pending authentication of `id` was consumed.
pub open spec fn take_pending_authentication_model(
    m: Map<u128, AuthRecordModel>,
    id: u128,
) -> Map<u128, AuthRecordModel> {
    m.insert(
        id,
        AuthRecordModel {
            credentials: m[id].credentials,
            pending_registration: m[id].pending_registration,
            pending_authentication: None,
        },
    )
}

/// The store after a verified outcome's counter update ran over the whole
/// credential list of `id`.
pub open spec fn update_counters_model(
    m: Map<u128, AuthRecordModel>,
    id: u128,
    o: crate::models::OutcomeModel,
) -> Map<u128, AuthRecordModel> {
    m.insert(
        id,
        AuthRecordModel {
            credentials: counter_update_all_model(m[id].credentials, o),
            pending_registration: m[id].pending_registration,
            pending_authentication: m[id].pending_authentication,
        },
    )
}

/// The access contract of an auth record store. Every operation is keyed
/// by the user identity; absence of the record (or of the asked-for
/// ceremony state) is always `NotFound`, and only `create` on an existing
/// record is `AlreadyExists`.
pub trait AuthRepository: Sized {
    /// The records the store holds, as a map from identity to record.
    spec fn records(&self) -> Map<u128, AuthRecordModel>;

    /// Opens the record for a new identity. Succeeds exactly when the
    /// identity has no record yet; a second create for the same identity
    /// fails with `AlreadyExists` and changes nothing.
    fn create(&mut self, auth: UserAuth) -> (r: Result<(), StoreError>)
        ensures
            (match r {
                Ok(()) => !has_record(old(self).records(), auth.user_id.value) && final(self).records() == old(self).records().insert(auth.user_id.value, auth@),
                Err(e) => e == StoreError::AlreadyExists && has_record(
                    old(self).records(),
                    auth.user_id.value,
                ) && final(self).records() == old(self).records(),
            }),
    ;

    /// The pending registration ceremony state of the identity, if its
    /// record exists and a registration is in flight.
    fn get_pending_registration(&self, user_id: &UserIdentity) -> (r: Result<Vec<u8>, StoreError>)
        ensures
            (match r {
                Ok(s) => has_pending_registration(self.records(), user_id.value) && self.records()[
                    user_id.value
                ].pending_registration == Some(s@),
                Err(e) => e == StoreError::NotFound && !has_pending_registration(
                    self.records(),
                    user_id.value,
                ),
            }),
    ;

    /// Appends a credential to the identity's record and consumes any
    /// pending registration ceremony. Earlier credentials keep their place
    /// and their bytes.
    fn append_credential(&mut self, user_id: &UserIdentity, credential: Credential) -> (r: Result<
        (),
        StoreError,
    >)
        ensures
            (match r {
                Ok(()) => has_record(old(self).records(), user_id.value) && final(self).records()
                    == append_credential_model(
                    old(self).records(),
                    user_id.value,
                    credential@,
                ),
                Err(e) => e == StoreError::NotFound && !has_record(
                    old(self).records(),
                    user_id.value,
                ) && final(self).records() == old(self).records(),
            }),
    ;

    /// The enrolled credentials of the identity, in enrollment order.
    fn get_credentials(&self, user_id: &UserIdentity) -> (r: Result<Vec<Credential>, StoreError>)
        ensures
            (match r {
                Ok(v) => has_record(self.records(), user_id.value) && v@.map_values(
                    |c: Credential| c@,
                ) == self.records()[user_id.value].credentials,
                Err(e) => e == StoreError::NotFound && !has_record(self.records(), user_id.value),
            }),
    ;

    /// Makes an authentication ceremony pending for the identity,
    /// replacing any pending state of either kind: starting a login
    /// invalidates a stale registration attempt.
    fn set_pending_authentication(&mut self, user_id: &UserIdentity, state: Vec<u8>) -> (r: Result<
        (),
        StoreError,
    >)
        ensures
            (match r {
                Ok(()) => has_record(old(self).records(), user_id.value) && final(self).records()
                    == set_pending_authentication_model(
                    old(self).records(),
                    user_id.value,
                    state@,
                ),
                Err(e) => e == StoreError::NotFound && !has_record(
                    old(self).records(),
                    user_id.value,
                ) && final(self).records() == old(self).records(),
            }),
    ;

    /// Consumes the pending authentication ceremony of the identity. The
    /// state is handed out exactly once: a second take without a new
    /// `set_pending_authentication` fails with `NotFound`.
    fn take_pending_authentication(&mut self, user_id: &UserIdentity) -> (r: Result<
        Vec<u8>,
        StoreError,
    >)
        ensures
            (match r {
                Ok(s) => has_pending_authentication(old(self).records(), user_id.value) && old(self).records()[user_id.value].pending_authentication == Some(s@) && final(self).records() == take_pending_authentication_model(
                    old(self).records(),
                    user_id.value,
                ),
                Err(e) => e == StoreError::NotFound && !has_pending_authentication(
                    old(self).records(),
                    user_id.value,
                ) && final(self).records() == old(self).records(),
            }),
    ;

    /// Runs a verified outcome's counter update over the identity's whole
    /// credential list; credentials the outcome does not name are left
    /// byte-for-byte unchanged.
    fn update_credential_counters(&mut self, user_id: &UserIdentity, outcome: &VerifiedOutcome) -> (
    r: Result<(), StoreError>)
        ensures
            (match r {
                Ok(()) => has_record(old(self).records(), user_id.value) && final(self).records()
                    == update_counters_model(old(self).records(), user_id.value, outcome@),
                Err(e) => e == StoreError::NotFound && !has_record(
                    old(self).records(),
                    user_id.value,
                ) && final(self).records() == old(self).records(),
            }),
    ;
}

/// Starting a login invalidates a stale registration: after an
/// authentication ceremony is made pending, the identity's record reports
/// no pending registration, so `get_pending_registration` must answer
/// `NotFound`.
pub proof fn lemma_single_pending_ceremony(m: Map<u128, AuthRecordModel>, id: u128, state: Seq<u8>)
    requires
        has_record(m, id),
    ensures
        !has_pending_registration(set_pending_authentication_model(m, id, state), id),
        has_pending_authentication(set_pending_authentication_model(m, id, state), id),
{
}

/// A challenge is single-use: after the pending authentication of an
/// identity is consumed, the record reports no pending authentication, so
/// a second `take_pending_authentication` must answer `NotFound`.
pub proof fn lemma_challenge_single_use(m: Map<u128, AuthRecordModel>, id: u128)
    requires
        has_record(m, id),
    ensures
        !has_pending_authentication(take_pending_authentication_model(m, id), id),
{
}

/// Identities are never enrolled twice: after a record is created for an
/// identity, the store holds a record for it, so a second `create` for the
/// same identity must answer `AlreadyExists`.
pub proof fn lemma_no_duplicate_identities(
    m: Map<u128, AuthRecordModel>,
    id: u128,
    rec: AuthRecordModel,
)
    ensures
        has_record(m.insert(id, rec), id),
{
}

/// Appending a credential is monotonic: the list grows by exactly one, the
/// new entry is the appended credential, and every prior entry keeps its
/// place and its bytes.
pub proof fn lemma_credential_append_monotonic(
    m: Map<u128, AuthRecordModel>,
    id: u128,
    c: CredentialModel,
)
    requires
        has_record(m, id),
    ensures
        append_credential_model(m, id, c)[id].credentials.len() == m[id].credentials.len() + 1,
        append_credential_model(m, id, c)[id].credentials.last() == c,
        forall|i: int|
            0 <= i < m[id].credentials.len() ==> append_credential_model(m, id, c)[id].credentials[i]
                == m[id].credentials[i],
{
}

/// The verified in-memory auth record store: a list of records with
/// pairwise distinct identities.
pub struct AuthMemRepo {
    rows: Vec<UserAuth>,
}

impl AuthMemRepo {
    /// No two rows belong to the same identity.
    #[verifier::type_invariant]
    spec fn wf(&self) -> bool {
        forall|i: int, j: int|
            0 <= i < j < self.rows@.len() ==> self.rows@[i].user_id.value
                != self.rows@[j].user_id.value
    }

    /// The map a row list denotes: later rows shadow earlier ones, which
    /// distinctness rules out.
    spec fn row_map(s: Seq<UserAuth>) -> Map<u128, AuthRecordModel>
        decreases s.len(),
    {
        if s.len() == 0 {
            Map::empty()
        } else {
            Self::row_map(s.drop_last()).insert(s.last().user_id.value, s.last()@)
        }
    }

    /// An empty store.
    pub fn new() -> (r: Self)
        ensures
            r.records() == Map::<u128, AuthRecordModel>::empty(),
    {
        AuthMemRepo { rows: Vec::new() }
    }

    proof fn lemma_row_map_dom(s: Seq<UserAuth>)
        ensures
            forall|k: u128|
                #[trigger] Self::row_map(s).dom().contains(k) <==> (exists|i: int|
                    0 <= i < s.len() && s[i].user_id.value == k),
        decreases s.len(),
    {
        if s.len() > 0 {
            Self::lemma_row_map_dom(s.drop_last());
            assert forall|k: u128| #[trigger]
                Self::row_map(s).dom().contains(k) implies (exists|i: int|
                0 <= i < s.len() && s[i].user_id.value == k) by {
                if k == s.last().user_id.value {
                    assert(s[s.len() - 1].user_id.value == k);
                } else {
                    assert(Self::row_map(s.drop_last()).dom().contains(k));
                    let i = choose|i: int|
                        0 <= i < s.drop_last().len() && s.drop_last()[i].user_id.value == k;
                    assert(s.drop_last()[i] == s[i]);
                    assert(s[i].user_id.value == k);
                }
            }
            assert forall|k: u128| (exists|i: int|
                0 <= i < s.len() && s[i].user_id.value == k) implies #[trigger] Self::row_map(
                s,
            ).dom().contains(k) by {
                let i = choose|i: int| 0 <= i < s.len() && s[i].user_id.value == k;
                if i < s.len() - 1 {
                    assert(s.drop_last()[i].user_id.value == k);
                    assert(Self::row_map(s.drop_last()).dom().contains(k));
                } else {
                    assert(k == s.last().user_id.value);
                }
            }
        }
    }

    proof fn lemma_row_map_get(s: Seq<UserAuth>, i: int)
        requires
            0 <= i < s.len(),
            forall|a: int, b: int|
                0 <= a < b < s.len() ==> s[a].user_id.value != s[b].user_id.value,
        ensures
            Self::row_map(s).dom().contains(s[i].user_id.value),
            Self::row_map(s)[s[i].user_id.value] == s[i]@,
        decreases s.len(),
    {
        if i == s.len() - 1 {
        } else {
            Self::lemma_row_map_get(s.drop_last(), i);
            assert(s.drop_last()[i] == s[i]);
            assert(s[i].user_id.value != s.last().user_id.value);
        }
    }

    proof fn lemma_row_map_update(s: Seq<UserAuth>, i: int, r: UserAuth)
        requires
            0 <= i < s.len(),
            forall|a: int, b: int|
                0 <= a < b < s.len() ==> s[a].user_id.value != s[b].user_id.value,
            r.user_id == s[i].user_id,
        ensures
            Self::row_map(s.update(i, r)) =~= Self::row_map(s).insert(r.user_id.value, r@),
        decreases s.len(),
    {
        let t = s.update(i, r);
        if i == s.len() - 1 {
            assert(t.drop_last() =~= s.drop_last());
            assert(t.last() == r);
        } else {
            assert(t.drop_last() =~= s.drop_last().update(i, r));
            Self::lemma_row_map_update(s.drop_last(), i, r);
            assert(t.last() == s.last());
            assert(s[i].user_id.value != s.last().user_id.value);
        }
    }

    /// The index of the identity's row, if one exists.
    fn find_row(&self, user_id: &UserIdentity) -> (r: Option<usize>)
        ensures
            (match r {
                Some(i) => i < self.rows@.len() && self.rows@[i as int].user_id == *user_id
                    && has_record(self.records(), user_id.value) && self.records()[user_id.value]
                    == self.rows@[i as int]@,
                None => !has_record(self.records(), user_id.value),
            }),
    {
        proof {
            use_type_invariant(&*self);
            Self::lemma_row_map_dom(self.rows@);
        }
        let mut i: usize = 0;
        while i < self.rows.len()
            invariant
                i <= self.rows@.len(),
                forall|j: int| 0 <= j < i ==> self.rows@[j].user_id.value != user_id.value,
            decreases self.rows@.len() - i,
        {
            if self.rows[i].user_id.value == user_id.value {
                proof {
                    use_type_invariant(&*self);
                    Self::lemma_row_map_get(self.rows@, i as int);
                }
                return Some(i);
            }
            i = i + 1;
        }
        None
    }
}

impl AuthRepository for AuthMemRepo {
    closed spec fn records(&self) -> Map<u128, AuthRecordModel> {
        Self::row_map(self.rows@)
    }

    fn create(&mut self, auth: UserAuth) -> (r: Result<(), StoreError>) {
        proof {
            use_type_invariant(&*self);
        }
        match self.find_row(&auth.user_id) {
            Some(_) => Err(StoreError::AlreadyExists),
            None => {
                proof {
                    Self::lemma_row_map_dom(self.rows@);
                }
                let ghost s0 = self.rows@;
                let mut rows: Vec<UserAuth> = Vec::new();
                core::mem::swap(&mut rows, &mut self.rows);
                rows.push(auth);
                core::mem::swap(&mut rows, &mut self.rows);
                proof {
                    assert(self.rows@.drop_last() =~= s0);
                }
                Ok(())
            },
        }
    }

    fn get_pending_registration(&self, user_id: &UserIdentity) -> (r: Result<Vec<u8>, StoreError>) {
        match self.find_row(user_id) {
            None => Err(StoreError::NotFound),
            Some(i) => match &self.rows[i].pending {
                Pending::Registration(s) => Ok(clone_bytes(s)),
                _ => Err(StoreError::NotFound),
            },
        }
    }

    fn append_credential(&mut self, user_id: &UserIdentity, credential: Credential) -> (r: Result<
        (),
        StoreError,
    >) {
        proof {
            use_type_invariant(&*self);
        }
        match self.find_row(user_id) {
            None => Err(StoreError::NotFound),
            Some(i) => {
                let ghost s0 = self.rows@;
                let row = self.rows[i].clone();
                let UserAuth { user_id: rid, mut passkeys, pending } = row;
                passkeys.push(credential);
                let pending = match pending {
                    Pending::Registration(_) => Pending::Empty,
                    other => other,
                };
                let newrow = UserAuth { user_id: rid, passkeys, pending };
                proof {
                    assert(newrow@.credentials =~= s0[i as int]@.credentials.push(credential@));
                }
                let mut rows: Vec<UserAuth> = Vec::new();
                core::mem::swap(&mut rows, &mut self.rows);
                rows.set(i, newrow);
                core::mem::swap(&mut rows, &mut self.rows);
                proof {
                    Self::lemma_row_map_update(s0, i as int, newrow);
                    assert(Self::row_map(self.rows@) =~= append_credential_model(
                        Self::row_map(s0),
                        user_id.value,
                        credential@,
                    ));
                }
                Ok(())
            },
        }
    }

    fn get_credentials(&self, user_id: &UserIdentity) -> (r: Result<Vec<Credential>, StoreError>) {
        match self.find_row(user_id) {
            None => Err(StoreError::NotFound),
            Some(i) => Ok(clone_credentials(&self.rows[i].passkeys)),
        }
    }

    fn set_pending_authentication(&mut self, user_id: &UserIdentity, state: Vec<u8>) -> (r: Result<
        (),
        StoreError,
    >) {
        proof {
            use_type_invariant(&*self);
        }
        match self.find_row(user_id) {
            None => Err(StoreError::NotFound),
            Some(i) => {
                let ghost s0 = self.rows@;
                let row = self.rows[i].clone();
                let UserAuth { user_id: rid, passkeys, pending: _ } = row;
                let newrow = UserAuth {
                    user_id: rid,
                    passkeys,
                    pending: Pending::Authentication(state),
                };
                let mut rows: Vec<UserAuth> = Vec::new();
                core::mem::swap(&mut rows, &mut self.rows);
                rows.set(i, newrow);
                core::mem::swap(&mut rows, &mut self.rows);
                proof {
                    Self::lemma_row_map_update(s0, i as int, newrow);
                    assert(Self::row_map(self.rows@) =~= set_pending_authentication_model(
                        Self::row_map(s0),
                        user_id.value,
                        state@,
                    ));
                }
                Ok(())
            },
        }
    }

    fn take_pending_authentication(&mut self, user_id: &UserIdentity) -> (r: Result<
        Vec<u8>,
        StoreError,
    >) {
        proof {
            use_type_invariant(&*self);
        }
        match self.find_row(user_id) {
            None => Err(StoreError::NotFound),
            Some(i) => {
                let ghost s0 = self.rows@;
                let row = self.rows[i].clone();
                let UserAuth { user_id: rid, passkeys, pending } = row;
                match pending {
                    Pending::Authentication(state) => {
                        let newrow = UserAuth { user_id: rid, passkeys, pending: Pending::Empty };
                        let mut rows: Vec<UserAuth> = Vec::new();
                core::mem::swap(&mut rows, &mut self.rows);
                rows.set(i, newrow);
                core::mem::swap(&mut rows, &mut self.rows);
                        proof {
                            Self::lemma_row_map_update(s0, i as int, newrow);
                            assert(Self::row_map(self.rows@) =~= take_pending_authentication_model(
                                Self::row_map(s0),
                                user_id.value,
                            ));
                        }
                        Ok(state)
                    },
                    _ => Err(StoreError::NotFound),
                }
            },
        }
    }

    fn update_credential_counters(&mut self, user_id: &UserIdentity, outcome: &VerifiedOutcome) -> (
    r: Result<(), StoreError>) {
        proof {
            use_type_invariant(&*self);
        }
        match self.find_row(user_id) {
            None => Err(StoreError::NotFound),
            Some(i) => {
                let ghost s0 = self.rows@;
                let passkeys = apply_counter_update_all(&self.rows[i].passkeys, outcome);
                let row = self.rows[i].clone();
                let UserAuth { user_id: rid, passkeys: _, pending } = row;
                let newrow = UserAuth { user_id: rid, passkeys, pending };
                let mut rows: Vec<UserAuth> = Vec::new();
                core::mem::swap(&mut rows, &mut self.rows);
                rows.set(i, newrow);
                core::mem::swap(&mut rows, &mut self.rows);
                proof {
                    Self::lemma_row_map_update(s0, i as int, newrow);
                    assert(Self::row_map(self.rows@) =~= update_counters_model(
                        Self::row_map(s0),
                        user_id.value,
                        outcome@,
                    ));
                }
                Ok(())
            },
        }
    }
}

/// Builds the in-memory auth record store.
pub fn create_auth_repo() -> (r: AuthMemRepo)
    ensures
        r.records() == Map::<u128, AuthRecordModel>::empty(),
{
    AuthMemRepo::new()
}

} // verus!
