//! The ceremony orchestrator: the state machine that drives a user
//! through registration and login.
//!
//! Each step first settles what the store alone decides (`NotFound`,
//! `Conflict`), then hands the cryptographic question to the verifier,
//! and finally applies the verifier's answer to the store through a
//! verified kernel (`apply_*`) whose contract is exact for every possible
//! answer. Verifier rejections are folded into the one
//! `VerificationFailed` kind and never echoed in detail.
use vstd::prelude::*;

use crate::auth_repo::AuthRepository;
use crate::auth_repo::append_credential_model;
use crate::auth_repo::has_pending_authentication;
use crate::auth_repo::has_pending_registration;
use crate::auth_repo::has_record;
use crate::auth_repo::set_pending_authentication_model;
use crate::auth_repo::take_pending_authentication_model;
use crate::auth_repo::update_counters_model;
use crate::errors::CeremonyError;
use crate::errors::VerifierError;
use crate::models::AuthRecordModel;
use crate::models::Credential;
use crate::models::CredentialModel;
use crate::models::OutcomeModel;
use crate::models::UserAuth;
use crate::models::User;
use crate::models::UserIdentity;
use crate::models::VerifiedOutcome;
use crate::ceremony::Ceremony;
use crate::ceremony::CredentialVerifier;

verus! {

/// Applies a verifier's registration-start answer to the store: a built
/// ceremony opens the user's record with the ceremony state pending and
/// hands the challenge back, unless a record already exists (`Conflict`);
/// a verifier failure leaves the store untouched (`VerificationFailed`).
pub fn apply_registration_start<R: AuthRepository>(
    repo: &mut R,
    user_id: UserIdentity,
    outcome: Result<Ceremony, VerifierError>,
) -> (r: Result<Vec<u8>, CeremonyError>)
    ensures
        (match outcome {
            Err(_) => r == Err::<Vec<u8>, CeremonyError>(CeremonyError::VerificationFailed)
                && final(repo).records() == old(repo).records(),
            Ok(cer) => (match r {
                Ok(challenge) => challenge@ == cer.challenge@ && !has_record(
                    old(repo).records(),
                    user_id.value,
                ) && final(repo).records() == old(repo).records().insert(
                    user_id.value,
                    AuthRecordModel {
                        credentials: Seq::<CredentialModel>::empty(),
                        pending_registration: Some(cer.state@),
                        pending_authentication: None,
                    },
                ),
                Err(e) => e == CeremonyError::Conflict && has_record(
                    old(repo).records(),
                    user_id.value,
                ) && final(repo).records() == old(repo).records(),
            }),
        }),
{
    match outcome {
        Err(_) => Err(CeremonyError::VerificationFailed),
        Ok(cer) => {
            let auth = UserAuth::new(user_id, cer.state);
            match repo.create(auth) {
                Ok(()) => Ok(cer.challenge),
                Err(_) => Err(CeremonyError::Conflict),
            }
        },
    }
}

/// Applies a verifier's registration-finish answer to the store: an
/// accepted credential is appended (consuming the pending registration);
/// a rejection leaves the store untouched (`VerificationFailed`).
pub fn apply_registration_finish<R: AuthRepository>(
    repo: &mut R,
    user_id: UserIdentity,
    verification: Result<Credential, VerifierError>,
) -> (r: Result<(), CeremonyError>)
    requires
        has_record(old(repo).records(), user_id.value),
    ensures
        (match verification {
            Err(_) => r == Err::<(), CeremonyError>(CeremonyError::VerificationFailed) && final(repo).records() == old(repo).records(),
            Ok(cred) => r == Ok::<(), CeremonyError>(()) && final(repo).records()
                == append_credential_model(old(repo).records(), user_id.value, cred@),
        }),
{
    match verification {
        Err(_) => Err(CeremonyError::VerificationFailed),
        Ok(cred) => {
            let appended = repo.append_credential(&user_id, cred);
            match appended {
                Ok(()) => Ok(()),
                Err(_) => {
                    proof {
                        assert(false);
                    }
                    Err(CeremonyError::NotFound)
                },
            }
        },
    }
}

/// Applies a verifier's login-start answer to the store: a built ceremony
/// becomes the user's pending authentication — replacing any pending
/// state of either kind — and its challenge is handed back; a verifier
/// failure leaves the store untouched (`VerificationFailed`).
pub fn apply_login_start<R: AuthRepository>(
    repo: &mut R,
    user_id: UserIdentity,
    outcome: Result<Ceremony, VerifierError>,
) -> (r: Result<Vec<u8>, CeremonyError>)
    requires
        has_record(old(repo).records(), user_id.value),
    ensures
        (match outcome {
            Err(_) => r == Err::<Vec<u8>, CeremonyError>(CeremonyError::VerificationFailed)
                && final(repo).records() == old(repo).records(),
            Ok(cer) => (match r {
                Ok(challenge) => challenge@ == cer.challenge@ && final(repo).records()
                    == set_pending_authentication_model(
                    old(repo).records(),
                    user_id.value,
                    cer.state@,
                ),
                Err(_) => false,
            }),
        }),
{
    match outcome {
        Err(_) => Err(CeremonyError::VerificationFailed),
        Ok(cer) => {
            let set = repo.set_pending_authentication(&user_id, cer.state);
            match set {
                Ok(()) => Ok(cer.challenge),
                Err(_) => {
                    proof {
                        assert(false);
                    }
                    Err(CeremonyError::NotFound)
                },
            }
        },
    }
}

/// Applies a verifier's login-finish answer to the store: a verified
/// outcome runs the counter update over the user's credential list; a
/// rejection leaves the store untouched (`VerificationFailed`). The
/// pending authentication was already consumed before the verifier was
/// asked.
pub fn apply_login_finish<R: AuthRepository>(
    repo: &mut R,
    user_id: UserIdentity,
    verification: Result<VerifiedOutcome, VerifierError>,
) -> (r: Result<(), CeremonyError>)
    requires
        has_record(old(repo).records(), user_id.value),
    ensures
        (match verification {
            Err(_) => r == Err::<(), CeremonyError>(CeremonyError::VerificationFailed) && final(repo).records() == old(repo).records(),
            Ok(outcome) => r == Ok::<(), CeremonyError>(()) && final(repo).records()
                == update_counters_model(old(repo).records(), user_id.value, outcome@),
        }),
{
    match verification {
        Err(_) => Err(CeremonyError::VerificationFailed),
        Ok(outcome) => {
            let updated = repo.update_credential_counters(&user_id, &outcome);
            match updated {
                Ok(()) => Ok(()),
                Err(_) => {
                    proof {
                        assert(false);
                    }
                    Err(CeremonyError::NotFound)
                },
            }
        },
    }
}

/// The orchestrator: drives registration and login ceremonies against an
/// auth record store and a credential verifier.
pub struct AuthService<R: AuthRepository, V: CredentialVerifier> {
    repo: R,
    verifier: V,
}

impl<R: AuthRepository, V: CredentialVerifier> AuthService<R, V> {
    /// The auth records behind this orchestrator.
    pub closed spec fn records(&self) -> Map<u128, AuthRecordModel> {
        self.repo.records()
    }

    /// Builds the orchestrator from its store and verifier.
    pub fn new(repo: R, verifier: V) -> (r: Self)
        ensures
            r.records() == repo.records(),
    {
        Self { repo, verifier }
    }

    /// Read access to the store, for the callers that render state.
    pub fn repo(&self) -> (r: &R)
        ensures
            r.records() == self.records(),
    {
        &self.repo
    }

    /// Starts a registration ceremony for a resolved user: asks the
    /// verifier for a challenge and opens the user's record with the
    /// ceremony state pending. An existing record — a registration
    /// already in progress or completed — is a `Conflict` and is left
    /// untouched; a verifier failure is `VerificationFailed`. `NotFound`
    /// never arises here.
    pub fn create_registration(&mut self, user: &User) -> (r: Result<Vec<u8>, CeremonyError>)
        ensures
            (match r {
                Ok(challenge) => !has_record(old(self).records(), user.id.value) && (exists|
                    state: Seq<u8>,
                |
                    final(self).records() == old(self).records().insert(
                        user.id.value,
                        AuthRecordModel {
                            credentials: Seq::<CredentialModel>::empty(),
                            pending_registration: Some(state),
                            pending_authentication: None,
                        },
                    )),
                Err(e) => e != CeremonyError::NotFound && final(self).records() == old(self).records() && (e == CeremonyError::Conflict ==> has_record(
                    old(self).records(),
                    user.id.value,
                )),
            }),
            has_record(old(self).records(), user.id.value) ==> r is Err,
    {
        let outcome = self.verifier.begin_registration(&user.id, &user.username);
        apply_registration_start(&mut self.repo, user.id, outcome)
    }

    /// Finishes a registration ceremony: loads the pending registration
    /// state (`NotFound` exactly when none is pending), asks the verifier
    /// to validate the client's response against it, and on acceptance
    /// appends the new credential, consuming the pending state. On a
    /// rejection (`VerificationFailed`) the record is left as it was, so
    /// the client may retry.
    pub fn validate_registration(&mut self, user_id: &UserIdentity, response: &Vec<u8>) -> (r:
        Result<(), CeremonyError>)
        ensures
            (match r {
                Ok(()) => has_pending_registration(old(self).records(), user_id.value) && (exists|
                    c: CredentialModel,
                |
                    final(self).records() == append_credential_model(
                        old(self).records(),
                        user_id.value,
                        c,
                    )),
                Err(e) => final(self).records() == old(self).records() && e
                    != CeremonyError::Conflict && (e == CeremonyError::NotFound
                    <==> !has_pending_registration(old(self).records(), user_id.value)),
            }),
    {
        let state = match self.repo.get_pending_registration(user_id) {
            Err(_) => {
                return Err(CeremonyError::NotFound);
            },
            Ok(s) => s,
        };
        let verification = self.verifier.finish_registration(response, &state);
        apply_registration_finish(&mut self.repo, *user_id, verification)
    }

    /// Starts a login ceremony: loads the user's enrolled credentials
    /// (`NotFound` exactly when the user has no record), asks the
    /// verifier for an authentication challenge over them, and persists
    /// the ceremony state as the one pending authentication — replacing
    /// whatever ceremony state was pending before, so only the newest
    /// challenge stays answerable.
    pub fn login(&mut self, user_id: &UserIdentity) -> (r: Result<Vec<u8>, CeremonyError>)
        ensures
            (match r {
                Ok(challenge) => has_record(old(self).records(), user_id.value) && (exists|
                    state: Seq<u8>,
                |
                    final(self).records() == set_pending_authentication_model(
                        old(self).records(),
                        user_id.value,
                        state,
                    )),
                Err(e) => final(self).records() == old(self).records() && e
                    != CeremonyError::Conflict && (e == CeremonyError::NotFound <==> !has_record(
                    old(self).records(),
                    user_id.value,
                )),
            }),
    {
        let creds = match self.repo.get_credentials(user_id) {
            Err(_) => {
                return Err(CeremonyError::NotFound);
            },
            Ok(c) => c,
        };
        let outcome = self.verifier.begin_authentication(&creds);
        apply_login_start(&mut self.repo, *user_id, outcome)
    }

    /// Finishes a login ceremony: consumes the pending authentication
    /// state (`NotFound` exactly when none is pending — in particular on
    /// a retried submission, which must fail rather than re-validate),
    /// asks the verifier to validate the client's response, and on
    /// acceptance runs the counter update over the credential list. The
    /// state is consumed whichever way the verifier decides: one
    /// challenge is answerable at most once.
    pub fn validate_login(&mut self, user_id: &UserIdentity, response: &Vec<u8>) -> (r: Result<
        (),
        CeremonyError,
    >)
        ensures
            (match r {
                Ok(()) => has_pending_authentication(old(self).records(), user_id.value) && (exists|
                    o: OutcomeModel,
                |
                    final(self).records() == update_counters_model(
                        take_pending_authentication_model(old(self).records(), user_id.value),
                        user_id.value,
                        o,
                    )),
                Err(e) => e != CeremonyError::Conflict && (e == CeremonyError::NotFound
                    <==> !has_pending_authentication(old(self).records(), user_id.value)) && (match e {
                    CeremonyError::NotFound => final(self).records() == old(self).records(),
                    _ => final(self).records() == take_pending_authentication_model(
                        old(self).records(),
                        user_id.value,
                    ),
                }),
            }),
    {
        let state = match self.repo.take_pending_authentication(user_id) {
            Err(_) => {
                return Err(CeremonyError::NotFound);
            },
            Ok(s) => s,
        };
        let verification = self.verifier.finish_authentication(response, &state);
        apply_login_finish(&mut self.repo, *user_id, verification)
    }
}

/// A login finish consumes the challenge whichever way it ends: after
/// `validate_login` returns anything but `NotFound`, no authentication is
/// pending any more, so a retried submission must answer `NotFound`.
pub proof fn lemma_login_finish_consumes_challenge(
    m: Map<u128, AuthRecordModel>,
    id: u128,
    o: OutcomeModel,
)
    requires
        has_record(m, id),
    ensures
        !has_pending_authentication(take_pending_authentication_model(m, id), id),
        !has_pending_authentication(
            update_counters_model(take_pending_authentication_model(m, id), id, o),
            id,
        ),
{
}

} // verus!
