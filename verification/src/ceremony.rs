//! The credential verifier boundary.
//!
//! The verifier owns all cryptographic logic: it builds the challenge a
//! client's authenticator must sign over and validates the signed
//! response. This core treats it as a black box: nothing is assumed of
//! its outcomes, and every function that consumes one states what holds
//! whichever way the verifier decided. `StubVerifier` is the in-memory
//! test variant, which accepts a response exactly when it echoes the
//! ceremony state.
use vstd::prelude::*;

use crate::errors::VerifierError;
use crate::models::Credential;
use crate::models::UserIdentity;
use crate::models::VerifiedOutcome;
use crate::models::bytes_equal;
use crate::models::clone_bytes;

verus! {

/// A freshly built ceremony: the challenge payload handed to the client
/// and the opaque state the server must persist until the ceremony is
/// finished.
pub struct Ceremony {
    pub challenge: Vec<u8>,
    pub state: Vec<u8>,
}

/// The capability that builds and validates ceremonies. One production
/// variant wraps the WebAuthn engine; the in-memory `StubVerifier` serves
/// tests. Nothing is promised of any outcome: callers state what holds
/// for every possible answer.
pub trait CredentialVerifier {
    /// Builds a registration ceremony scoped to one user.
    fn begin_registration(&self, id: &UserIdentity, username: &String) -> (r: Result<
        Ceremony,
        VerifierError,
    >);

    /// Validates a client's response to a registration ceremony, yielding
    /// the newly enrolled credential.
    fn finish_registration(&self, response: &Vec<u8>, state: &Vec<u8>) -> (r: Result<
        Credential,
        VerifierError,
    >);

    /// Builds an authentication ceremony over the user's enrolled
    /// credentials.
    fn begin_authentication(&self, credentials: &Vec<Credential>) -> (r: Result<
        Ceremony,
        VerifierError,
    >);

    /// Validates a client's response to an authentication ceremony,
    /// yielding proof of possession of one enrolled credential.
    fn finish_authentication(&self, response: &Vec<u8>, state: &Vec<u8>) -> (r: Result<
        VerifiedOutcome,
        VerifierError,
    >);
}

/// The deterministic test verifier: the challenge equals the ceremony
/// state, and a response is accepted exactly when it echoes that state.
/// A registration enrolls the response bytes as credential identifier and
/// key material with a use counter of zero; an authentication outcome
/// names the state's credential with a use counter of one.
pub struct StubVerifier {}

impl StubVerifier {
    /// Builds the test verifier.
    pub fn new() -> (r: Self) {
        StubVerifier {  }
    }
}

impl CredentialVerifier for StubVerifier {
    fn begin_registration(&self, id: &UserIdentity, username: &String) -> (r: Result<
        Ceremony,
        VerifierError,
    >) {
        let bytes = vstd::slice::slice_to_vec(username.as_str().as_bytes());
        let challenge = clone_bytes(&bytes);
        Ok(Ceremony { challenge, state: bytes })
    }

    fn finish_registration(&self, response: &Vec<u8>, state: &Vec<u8>) -> (r: Result<
        Credential,
        VerifierError,
    >) {
        if bytes_equal(response, state) {
            Ok(Credential::new(clone_bytes(response), clone_bytes(state), 0))
        } else {
            Err(VerifierError::Rejected)
        }
    }

    fn begin_authentication(&self, credentials: &Vec<Credential>) -> (r: Result<
        Ceremony,
        VerifierError,
    >) {
        if credentials.len() == 0 {
            Err(VerifierError::Rejected)
        } else {
            let state = clone_bytes(&credentials[0].cred_id);
            let challenge = clone_bytes(&state);
            Ok(Ceremony { challenge, state })
        }
    }

    fn finish_authentication(&self, response: &Vec<u8>, state: &Vec<u8>) -> (r: Result<
        VerifiedOutcome,
        VerifierError,
    >) {
        if bytes_equal(response, state) {
            Ok(VerifiedOutcome::new(clone_bytes(state), 1))
        } else {
            Err(VerifierError::Rejected)
        }
    }
}

} // verus!
