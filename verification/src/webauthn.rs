//! The production credential verifier: a thin verified shell around the
//! WebAuthn engine of the webauthn_rs crate.
//!
//! Challenges, ceremony states and enrolled passkeys cross this boundary
//! as serialized bytes; everything the engine itself computes is opaque
//! to this core and nothing is assumed of it. Each engine or codec call
//! sits in one trusted wrapper.
use vstd::prelude::*;

use crate::ceremony::Ceremony;
use crate::ceremony::CredentialVerifier;
use crate::errors::VerifierError;
use crate::models::Credential;
use crate::models::UserIdentity;
use crate::models::VerifiedOutcome;

verus! {

#[verifier::external_type_specification]
#[verifier::external_body]
pub struct ExWebauthn(webauthn_rs::Webauthn);

#[verifier::external_type_specification]
#[verifier::external_body]
pub struct ExCreationChallengeResponse(webauthn_rs::prelude::CreationChallengeResponse);

#[verifier::external_type_specification]
#[verifier::external_body]
pub struct ExPasskeyRegistration(webauthn_rs::prelude::PasskeyRegistration);

#[verifier::external_type_specification]
#[verifier::external_body]
pub struct ExRequestChallengeResponse(webauthn_rs::prelude::RequestChallengeResponse);

#[verifier::external_type_specification]
#[verifier::external_body]
pub struct ExPasskeyAuthentication(webauthn_rs::prelude::PasskeyAuthentication);

#[verifier::external_type_specification]
#[verifier::external_body]
pub struct ExPasskey(webauthn_rs::prelude::Passkey);

#[verifier::external_type_specification]
#[verifier::external_body]
pub struct ExRegisterPublicKeyCredential(webauthn_rs::prelude::RegisterPublicKeyCredential);

#[verifier::external_type_specification]
#[verifier::external_body]
pub struct ExPublicKeyCredential(webauthn_rs::prelude::PublicKeyCredential);

#[verifier::external_type_specification]
#[verifier::external_body]
pub struct ExAuthenticationResult(webauthn_rs::prelude::AuthenticationResult);

/// Relies on webauthn_rs::Webauthn::start_passkey_registration: builds a
/// registration challenge and its server-side ceremony state for the
/// user, with the username doubling as display name and no credentials
/// excluded.
#[verifier::external_body]
fn w_start_registration(
    engine: &webauthn_rs::Webauthn,
    id: &UserIdentity,
    username: &str,
) -> Result<(webauthn_rs::prelude::CreationChallengeResponse, webauthn_rs::prelude::PasskeyRegistration), VerifierError> {
    engine
        .start_passkey_registration(uuid::Uuid::from_u128(id.value), username, username, None)
        .map_err(|_| VerifierError::Rejected)
}

/// Relies on serde_json::to_vec: serializes a registration challenge for
/// the client.
#[verifier::external_body]
fn w_ccr_to_bytes(
    ccr: &webauthn_rs::prelude::CreationChallengeResponse,
) -> Result<Vec<u8>, VerifierError> {
    serde_json::to_vec(ccr).map_err(|_| VerifierError::Rejected)
}

/// Relies on serde_json::to_vec: serializes a registration ceremony
/// state for the store.
#[verifier::external_body]
fn w_registration_to_bytes(
    state: &webauthn_rs::prelude::PasskeyRegistration,
) -> Result<Vec<u8>, VerifierError> {
    serde_json::to_vec(state).map_err(|_| VerifierError::Rejected)
}

/// Relies on serde_json::from_slice: reads a registration ceremony state
/// back from the store.
#[verifier::external_body]
fn w_registration_from_bytes(
    bytes: &Vec<u8>,
) -> Result<webauthn_rs::prelude::PasskeyRegistration, VerifierError> {
    serde_json::from_slice(bytes.as_slice()).map_err(|_| VerifierError::Rejected)
}

/// Relies on serde_json::from_slice: reads the client's response to a
/// registration challenge.
#[verifier::external_body]
fn w_register_credential_from_bytes(
    bytes: &Vec<u8>,
) -> Result<webauthn_rs::prelude::RegisterPublicKeyCredential, VerifierError> {
    serde_json::from_slice(bytes.as_slice()).map_err(|_| VerifierError::Rejected)
}

/// Relies on webauthn_rs::Webauthn::finish_passkey_registration:
/// validates the client's signed response against the ceremony state,
/// yielding the newly enrolled passkey.
#[verifier::external_body]
fn w_finish_registration(
    engine: &webauthn_rs::Webauthn,
    response: &webauthn_rs::prelude::RegisterPublicKeyCredential,
    state: &webauthn_rs::prelude::PasskeyRegistration,
) -> Result<webauthn_rs::prelude::Passkey, VerifierError> {
    engine.finish_passkey_registration(response, state).map_err(|_| VerifierError::Rejected)
}

/// Relies on webauthn_rs::prelude::Passkey::cred_id: the identifier of
/// the enrolled credential, as bytes.
#[verifier::external_body]
fn w_passkey_cred_id(passkey: &webauthn_rs::prelude::Passkey) -> Vec<u8> {
    passkey.cred_id().as_ref().to_vec()
}

/// Relies on serde_json::to_vec: serializes an enrolled passkey for the
/// store.
#[verifier::external_body]
fn w_passkey_to_bytes(passkey: &webauthn_rs::prelude::Passkey) -> Result<Vec<u8>, VerifierError> {
    serde_json::to_vec(passkey).map_err(|_| VerifierError::Rejected)
}

/// Relies on serde_json::from_slice: reads an enrolled passkey back from
/// the store.
#[verifier::external_body]
fn w_passkey_from_bytes(bytes: &Vec<u8>) -> Result<webauthn_rs::prelude::Passkey, VerifierError> {
    serde_json::from_slice(bytes.as_slice()).map_err(|_| VerifierError::Rejected)
}

/// Relies on webauthn_rs::Webauthn::start_passkey_authentication: builds
/// an authentication challenge and its ceremony state over the user's
/// enrolled passkeys.
#[verifier::external_body]
fn w_start_authentication(
    engine: &webauthn_rs::Webauthn,
    passkeys: &Vec<webauthn_rs::prelude::Passkey>,
) -> Result<(webauthn_rs::prelude::RequestChallengeResponse, webauthn_rs::prelude::PasskeyAuthentication), VerifierError> {
    engine.start_passkey_authentication(passkeys.as_slice()).map_err(|_| VerifierError::Rejected)
}

/// Relies on serde_json::to_vec: serializes an authentication challenge
/// for the client.
#[verifier::external_body]
fn w_rcr_to_bytes(
    rcr: &webauthn_rs::prelude::RequestChallengeResponse,
) -> Result<Vec<u8>, VerifierError> {
    serde_json::to_vec(rcr).map_err(|_| VerifierError::Rejected)
}

/// Relies on serde_json::to_vec: serializes an authentication ceremony
/// state for the store.
#[verifier::external_body]
fn w_authentication_to_bytes(
    state: &webauthn_rs::prelude::PasskeyAuthentication,
) -> Result<Vec<u8>, VerifierError> {
    serde_json::to_vec(state).map_err(|_| VerifierError::Rejected)
}

/// Relies on serde_json::from_slice: reads an authentication ceremony
/// state back from the store.
#[verifier::external_body]
fn w_authentication_from_bytes(
    bytes: &Vec<u8>,
) -> Result<webauthn_rs::prelude::PasskeyAuthentication, VerifierError> {
    serde_json::from_slice(bytes.as_slice()).map_err(|_| VerifierError::Rejected)
}

/// Relies on serde_json::from_slice: reads the client's response to an
/// authentication challenge.
#[verifier::external_body]
fn w_public_key_credential_from_bytes(
    bytes: &Vec<u8>,
) -> Result<webauthn_rs::prelude::PublicKeyCredential, VerifierError> {
    serde_json::from_slice(bytes.as_slice()).map_err(|_| VerifierError::Rejected)
}

/// Relies on webauthn_rs::Webauthn::finish_passkey_authentication:
/// validates the client's signed response against the ceremony state,
/// yielding which credential proved possession and its counter claim.
#[verifier::external_body]
fn w_finish_authentication(
    engine: &webauthn_rs::Webauthn,
    response: &webauthn_rs::prelude::PublicKeyCredential,
    state: &webauthn_rs::prelude::PasskeyAuthentication,
) -> Result<webauthn_rs::prelude::AuthenticationResult, VerifierError> {
    engine.finish_passkey_authentication(response, state).map_err(|_| VerifierError::Rejected)
}

/// Relies on webauthn_rs::prelude::AuthenticationResult::cred_id: which
/// credential produced the proof, as bytes.
#[verifier::external_body]
fn w_result_cred_id(result: &webauthn_rs::prelude::AuthenticationResult) -> Vec<u8> {
    result.cred_id().as_ref().to_vec()
}

/// Relies on webauthn_rs::prelude::AuthenticationResult::counter: the
/// use counter the authenticator claimed.
#[verifier::external_body]
fn w_result_counter(result: &webauthn_rs::prelude::AuthenticationResult) -> u32 {
    result.counter()
}

/// The production verifier: ceremonies built and validated by the
/// WebAuthn engine.
pub struct WebauthnVerifier {
    engine: webauthn_rs::Webauthn,
}

impl WebauthnVerifier {
    /// Wraps a configured WebAuthn engine as a credential verifier.
    pub fn new(engine: webauthn_rs::Webauthn) -> (r: Self) {
        WebauthnVerifier { engine }
    }
}

impl CredentialVerifier for WebauthnVerifier {
    fn begin_registration(&self, id: &UserIdentity, username: &String) -> (r: Result<
        Ceremony,
        VerifierError,
    >) {
        let (ccr, reg) = match w_start_registration(&self.engine, id, username.as_str()) {
            Err(e) => {
                return Err(e);
            },
            Ok(p) => p,
        };
        let challenge = match w_ccr_to_bytes(&ccr) {
            Err(e) => {
                return Err(e);
            },
            Ok(b) => b,
        };
        let state = match w_registration_to_bytes(&reg) {
            Err(e) => {
                return Err(e);
            },
            Ok(b) => b,
        };
        Ok(Ceremony { challenge, state })
    }

    fn finish_registration(&self, response: &Vec<u8>, state: &Vec<u8>) -> (r: Result<
        Credential,
        VerifierError,
    >) {
        let cred = match w_register_credential_from_bytes(response) {
            Err(e) => {
                return Err(e);
            },
            Ok(c) => c,
        };
        let reg = match w_registration_from_bytes(state) {
            Err(e) => {
                return Err(e);
            },
            Ok(s) => s,
        };
        let passkey = match w_finish_registration(&self.engine, &cred, &reg) {
            Err(e) => {
                return Err(e);
            },
            Ok(p) => p,
        };
        let cred_id = w_passkey_cred_id(&passkey);
        let material = match w_passkey_to_bytes(&passkey) {
            Err(e) => {
                return Err(e);
            },
            Ok(b) => b,
        };
        Ok(Credential::new(cred_id, material, 0))
    }

    fn begin_authentication(&self, credentials: &Vec<Credential>) -> (r: Result<
        Ceremony,
        VerifierError,
    >) {
        let mut passkeys: Vec<webauthn_rs::prelude::Passkey> = Vec::new();
        let mut i: usize = 0;
        while i < credentials.len()
            decreases credentials.len() - i,
        {
            let passkey = match w_passkey_from_bytes(&credentials[i].material) {
                Err(e) => {
                    return Err(e);
                },
                Ok(p) => p,
            };
            passkeys.push(passkey);
            i = i + 1;
        }
        let (rcr, state) = match w_start_authentication(&self.engine, &passkeys) {
            Err(e) => {
                return Err(e);
            },
            Ok(p) => p,
        };
        let challenge = match w_rcr_to_bytes(&rcr) {
            Err(e) => {
                return Err(e);
            },
            Ok(b) => b,
        };
        let state_bytes = match w_authentication_to_bytes(&state) {
            Err(e) => {
                return Err(e);
            },
            Ok(b) => b,
        };
        Ok(Ceremony { challenge, state: state_bytes })
    }

    fn finish_authentication(&self, response: &Vec<u8>, state: &Vec<u8>) -> (r: Result<
        VerifiedOutcome,
        VerifierError,
    >) {
        let pkc = match w_public_key_credential_from_bytes(response) {
            Err(e) => {
                return Err(e);
            },
            Ok(c) => c,
        };
        let auth_state = match w_authentication_from_bytes(state) {
            Err(e) => {
                return Err(e);
            },
            Ok(s) => s,
        };
        let result = match w_finish_authentication(&self.engine, &pkc, &auth_state) {
            Err(e) => {
                return Err(e);
            },
            Ok(a) => a,
        };
        let cred_id = w_result_cred_id(&result);
        let counter = w_result_counter(&result);
        Ok(VerifiedOutcome::new(cred_id, counter))
    }
}

} // verus!
