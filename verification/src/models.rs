//! Data model of the authentication core: user identities, users, enrolled
//! credentials, the verifier's post-authentication outcome, and the per-user
//! auth record holding the credential list and at most one in-flight
//! ceremony.
use vstd::prelude::*;

verus! {

/// An opaque, globally unique 128-bit identity, assigned when a user first
/// registers and never changed afterwards.
#[derive(Clone, Copy, PartialEq, Eq, Structural, Hash, Debug)]
pub struct UserIdentity {
    pub value: u128,
}

impl UserIdentity {
    /// Wraps a raw 128-bit value as an identity.
    pub fn new(value: u128) -> (r: Self)
        ensures
            r.value == value,
    {
        UserIdentity { value }
    }
}

/// Copies a byte string.
pub fn clone_bytes(v: &Vec<u8>) -> (r: Vec<u8>)
    ensures
        r@ == v@,
{
    let r = v.clone();
    proof {
        assert(r@ =~= v@);
    }
    r
}

/// Whether two byte strings hold the same bytes.
pub fn bytes_equal(a: &Vec<u8>, b: &Vec<u8>) -> (r: bool)
    ensures
        r <==> a@ == b@,
{
    if a.len() != b.len() {
        return false;
    }
    let mut i: usize = 0;
    while i < a.len()
        invariant
            i <= a.len(),
            a.len() == b.len(),
            forall|j: int| 0 <= j < i ==> a@[j] == b@[j],
        decreases a.len() - i,
    {
        if a[i] != b[i] {
            return false;
        }
        i = i + 1;
    }
    assert(a@ =~= b@);
    true
}

/// A directory entry: a stable identity and the human-chosen username bound
/// to it. The identity is immutable; the username may be rebound.
#[derive(Debug)]
pub struct User {
    pub id: UserIdentity,
    pub username: String,
}

impl User {
    /// Builds a user from its identity and username.
    pub fn new(id: UserIdentity, username: String) -> (r: Self)
        ensures
            r.id == id,
            r.username == username,
    {
        User { id, username }
    }

    /// The stable identity of this user.
    pub fn id(&self) -> (r: UserIdentity)
        ensures
            r == self.id,
    {
        self.id
    }

    /// The current username of this user.
    pub fn username(&self) -> (r: &str)
        ensures
            r@ == self.username@,
    {
        self.username.as_str()
    }

    /// Rebinds the username, leaving the identity untouched.
    pub fn with_username(&mut self, username: String) -> (r: &mut Self)
        ensures
            r.id == old(self).id,
            r.username == username,
            *final(self) == *final(r),
    {
        self.username = username;
        self
    }
}

impl Clone for User {
    /// A cloned user carries the same identity and the same username text.
    fn clone(&self) -> (res: Self)
        ensures
            res.id == self.id,
            res.username@ == self.username@,
    {
        User { id: self.id, username: self.username.clone() }
    }
}

impl PartialEq for User {
    /// Two users are the same user exactly when their identities agree;
    /// the username is a mutable label and does not take part.
    fn eq(&self, other: &Self) -> (r: bool) {
        self.id.value == other.id.value
    }
}

impl vstd::std_specs::cmp::PartialEqSpecImpl for User {
    open spec fn obeys_eq_spec() -> bool {
        true
    }

    open spec fn eq_spec(&self, other: &Self) -> bool {
        self.id == other.id
    }
}

/// The mathematical shape of an enrolled credential.
#[verifier::ext_equal]
pub ghost struct CredentialModel {
    pub cred_id: Seq<u8>,
    pub material: Seq<u8>,
    pub counter: u32,
}

/// An enrolled public-key credential as this core sees it: the verifier's
/// credential identifier, the opaque key material the verifier needs back
/// when a login ceremony starts, and the replay-detection use counter.
#[derive(Debug)]
pub struct Credential {
    pub cred_id: Vec<u8>,
    pub material: Vec<u8>,
    pub counter: u32,
}

impl View for Credential {
    type V = CredentialModel;

    open spec fn view(&self) -> CredentialModel {
        CredentialModel { cred_id: self.cred_id@, material: self.material@, counter: self.counter }
    }
}

impl Credential {
    /// Builds a credential from its parts.
    pub fn new(cred_id: Vec<u8>, material: Vec<u8>, counter: u32) -> (r: Self)
        ensures
            r@ == (CredentialModel { cred_id: cred_id@, material: material@, counter }),
    {
        Credential { cred_id, material, counter }
    }
}

impl Clone for Credential {
    /// A cloned credential denotes the same credential.
    fn clone(&self) -> (res: Self)
        ensures
            res@ == self@,
    {
        Credential {
            cred_id: clone_bytes(&self.cred_id),
            material: clone_bytes(&self.material),
            counter: self.counter,
        }
    }
}

/// Copies a credential list.
pub fn clone_credentials(creds: &Vec<Credential>) -> (r: Vec<Credential>)
    ensures
        r@.map_values(|c: Credential| c@) == creds@.map_values(|c: Credential| c@),
{
    let mut out: Vec<Credential> = Vec::new();
    let mut i: usize = 0;
    while i < creds.len()
        invariant
            i <= creds.len(),
            out@.len() == i,
            forall|j: int| 0 <= j < i ==> out@[j]@ == creds@[j]@,
        decreases creds.len() - i,
    {
        out.push(creds[i].clone());
        i = i + 1;
    }
    proof {
        assert(out@.map_values(|c: Credential| c@) =~= creds@.map_values(|c: Credential| c@));
    }
    out
}

/// The mathematical shape of a verifier's authentication outcome.
#[verifier::ext_equal]
pub ghost struct OutcomeModel {
    pub cred_id: Seq<u8>,
    pub counter: u32,
}

/// What the verifier reports after a successful authentication ceremony:
/// which credential produced the proof and the use counter it claimed.
#[derive(Debug)]
pub struct VerifiedOutcome {
    pub cred_id: Vec<u8>,
    pub counter: u32,
}

impl View for VerifiedOutcome {
    type V = OutcomeModel;

    open spec fn view(&self) -> OutcomeModel {
        OutcomeModel { cred_id: self.cred_id@, counter: self.counter }
    }
}

impl VerifiedOutcome {
    /// Builds an outcome from its parts.
    pub fn new(cred_id: Vec<u8>, counter: u32) -> (r: Self)
        ensures
            r@ == (OutcomeModel { cred_id: cred_id@, counter }),
    {
        VerifiedOutcome { cred_id, counter }
    }
}

impl Clone for VerifiedOutcome {
    /// A cloned outcome denotes the same outcome.
    fn clone(&self) -> (res: Self)
        ensures
            res@ == self@,
    {
        VerifiedOutcome { cred_id: clone_bytes(&self.cred_id), counter: self.counter }
    }
}

/// The counter update a verified outcome induces on one credential: a
/// credential whose identifier differs from the outcome's is left exactly
/// as it was, and a matching one takes the outcome's counter only when that
/// counter is strictly larger.
pub open spec fn counter_update_model(c: CredentialModel, o: OutcomeModel) -> CredentialModel {
    if c.cred_id == o.cred_id && o.counter > c.counter {
        CredentialModel { cred_id: c.cred_id, material: c.material, counter: o.counter }
    } else {
        c
    }
}

/// The counter update applied across a whole credential list.
pub open spec fn counter_update_all_model(
    creds: Seq<CredentialModel>,
    o: OutcomeModel,
) -> Seq<CredentialModel> {
    creds.map_values(|c: CredentialModel| counter_update_model(c, o))
}

/// Applies a verified outcome to one credential.
pub fn apply_counter_update(cred: &Credential, outcome: &VerifiedOutcome) -> (r: Credential)
    ensures
        r@ == counter_update_model(cred@, outcome@),
{
    if bytes_equal(&cred.cred_id, &outcome.cred_id) && outcome.counter > cred.counter {
        Credential {
            cred_id: clone_bytes(&cred.cred_id),
            material: clone_bytes(&cred.material),
            counter: outcome.counter,
        }
    } else {
        cred.clone()
    }
}

/// Applies a verified outcome across a whole credential list. Running over
/// the full list is safe: every credential the outcome does not name is
/// returned untouched.
pub fn apply_counter_update_all(creds: &Vec<Credential>, outcome: &VerifiedOutcome) -> (r: Vec<
    Credential,
>)
    ensures
        r@.map_values(|c: Credential| c@) == counter_update_all_model(
            creds@.map_values(|c: Credential| c@),
            outcome@,
        ),
{
    let mut out: Vec<Credential> = Vec::new();
    let mut i: usize = 0;
    while i < creds.len()
        invariant
            i <= creds.len(),
            out@.len() == i,
            forall|j: int| 0 <= j < i ==> out@[j]@ == counter_update_model(creds@[j]@, outcome@),
        decreases creds.len() - i,
    {
        out.push(apply_counter_update(&creds[i], outcome));
        i = i + 1;
    }
    proof {
        assert(out@.map_values(|c: Credential| c@) =~= counter_update_all_model(
            creds@.map_values(|c: Credential| c@),
            outcome@,
        ));
    }
    out
}

/// Any credential the outcome does not name is byte-for-byte unchanged by
/// the counter update, and no credential's identifier or key material ever
/// changes.
pub proof fn lemma_counter_update_targets_only_match(creds: Seq<CredentialModel>, o: OutcomeModel)
    ensures
        counter_update_all_model(creds, o).len() == creds.len(),
        forall|i: int|
            0 <= i < creds.len() && creds[i].cred_id != o.cred_id
                ==> counter_update_all_model(creds, o)[i] == creds[i],
        forall|i: int|
            0 <= i < creds.len() ==> {
                &&& counter_update_all_model(creds, o)[i].cred_id == creds[i].cred_id
                &&& counter_update_all_model(creds, o)[i].material == creds[i].material
            },
{
}

/// The at-most-one in-flight ceremony of an auth record. Holding the two
/// ceremony kinds as one tagged value makes their mutual exclusion
/// structural: starting one ceremony cannot leave the other pending.
#[derive(Debug)]
pub enum Pending {
    Empty,
    Registration(Vec<u8>),
    Authentication(Vec<u8>),
}

/// The mathematical shape of an auth record.
#[verifier::ext_equal]
pub ghost struct AuthRecordModel {
    pub credentials: Seq<CredentialModel>,
    pub pending_registration: Option<Seq<u8>>,
    pub pending_authentication: Option<Seq<u8>>,
}

/// The per-user ceremony and credential bundle: the enrolled credentials in
/// enrollment order and at most one in-flight ceremony state.
#[derive(Debug)]
pub struct UserAuth {
    pub user_id: UserIdentity,
    pub passkeys: Vec<Credential>,
    pub pending: Pending,
}

impl View for UserAuth {
    type V = AuthRecordModel;

    open spec fn view(&self) -> AuthRecordModel {
        AuthRecordModel {
            credentials: self.passkeys@.map_values(|c: Credential| c@),
            pending_registration: match self.pending {
                Pending::Registration(s) => Some(s@),
                _ => None,
            },
            pending_authentication: match self.pending {
                Pending::Authentication(s) => Some(s@),
                _ => None,
            },
        }
    }
}

impl UserAuth {
    /// Opens a record for a user at registration start: no credentials yet
    /// and the given registration ceremony pending.
    pub fn new(user_id: UserIdentity, registration: Vec<u8>) -> (r: Self)
        ensures
            r.user_id == user_id,
            r@ == (AuthRecordModel {
                credentials: Seq::<CredentialModel>::empty(),
                pending_registration: Some(registration@),
                pending_authentication: None,
            }),
    {
        let r = UserAuth {
            user_id,
            passkeys: Vec::new(),
            pending: Pending::Registration(registration),
        };
        proof {
            assert(r@.credentials =~= Seq::<CredentialModel>::empty());
        }
        r
    }

    /// The identity this record belongs to.
    pub fn user_id(&self) -> (r: UserIdentity)
        ensures
            r == self.user_id,
    {
        self.user_id
    }

    /// The in-flight registration ceremony state, if one is pending.
    pub fn registration(&self) -> (r: Option<Vec<u8>>)
        ensures
            (match r {
                Some(s) => self@.pending_registration == Some(s@),
                None => self@.pending_registration is None,
            }),
    {
        match &self.pending {
            Pending::Registration(s) => Some(clone_bytes(s)),
            _ => None,
        }
    }

    /// The in-flight authentication ceremony state, if one is pending.
    pub fn authentication(&self) -> (r: Option<Vec<u8>>)
        ensures
            (match r {
                Some(s) => self@.pending_authentication == Some(s@),
                None => self@.pending_authentication is None,
            }),
    {
        match &self.pending {
            Pending::Authentication(s) => Some(clone_bytes(s)),
            _ => None,
        }
    }

    /// The enrolled credentials, in enrollment order.
    pub fn passkey(&self) -> (r: Vec<Credential>)
        ensures
            r@.map_values(|c: Credential| c@) == self@.credentials,
    {
        clone_credentials(&self.passkeys)
    }
}

impl Clone for UserAuth {
    /// A cloned record denotes the same record for the same user.
    fn clone(&self) -> (res: Self)
        ensures
            res.user_id == self.user_id,
            res@ == self@,
    {
        let pending = match &self.pending {
            Pending::Empty => Pending::Empty,
            Pending::Registration(s) => Pending::Registration(clone_bytes(s)),
            Pending::Authentication(s) => Pending::Authentication(clone_bytes(s)),
        };
        let res = UserAuth {
            user_id: self.user_id,
            passkeys: clone_credentials(&self.passkeys),
            pending,
        };
        proof {
            assert(res@ =~= self@);
        }
        res
    }
}

} // verus!
