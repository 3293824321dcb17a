use taskbane::models::UserIdentity;
use taskbane::session::GateDecision;
use taskbane::session::SESSION_KEY;
use taskbane::session::SessionAuthState;
use taskbane::session::authenticated_redirect;
use taskbane::session::require;
use taskbane::session::authentication_gate;
use taskbane::session::gate_from_accept;

fn anonymous() -> Option<SessionAuthState> {
    None
}

fn unauthenticated() -> SessionAuthState {
    SessionAuthState::new(&UserIdentity::new(1), "bob".to_string())
}

fn authenticated() -> SessionAuthState {
    unauthenticated().update_is_authed(true)
}

#[test]
fn structured_client_gets_unauthorized_body() {
    let accept = "application/json".to_string();
    let decision = gate_from_accept(anonymous().as_ref(), Some(&accept));
    match decision {
        GateDecision::Unauthorized(body) => assert_eq!(body.message, "unauthorized"),
        other => panic!("expected a structured rejection, got {:?}", other),
    }
}

#[test]
fn browser_client_gets_login_redirect() {
    let accept = "text/html".to_string();
    let decision = gate_from_accept(anonymous().as_ref(), Some(&accept));
    match decision {
        GateDecision::Redirect(target) => assert_eq!(target, "/login"),
        other => panic!("expected a redirect, got {:?}", other),
    }
}

#[test]
fn missing_or_unusable_accept_header_redirects() {
    match gate_from_accept(anonymous().as_ref(), None) {
        GateDecision::Redirect(target) => assert_eq!(target, "/login"),
        other => panic!("expected a redirect, got {:?}", other),
    }
    let garbled = ";;;;".to_string();
    match gate_from_accept(anonymous().as_ref(), Some(&garbled)) {
        GateDecision::Redirect(target) => assert_eq!(target, "/login"),
        other => panic!("expected a redirect, got {:?}", other),
    }
}

#[test]
fn browser_preference_wins_when_quality_says_so() {
    let accept = "application/json;q=0.1, text/html".to_string();
    match gate_from_accept(anonymous().as_ref(), Some(&accept)) {
        GateDecision::Redirect(target) => assert_eq!(target, "/login"),
        other => panic!("expected a redirect, got {:?}", other),
    }
}

#[test]
fn authenticated_session_proceeds() {
    let session = authenticated();
    let accept = "application/json".to_string();
    match gate_from_accept(Some(&session), Some(&accept)) {
        GateDecision::Proceed => {},
        other => panic!("expected the request to proceed, got {:?}", other),
    }
}

#[test]
fn unauthenticated_session_is_rejected() {
    let session = unauthenticated();
    match authentication_gate(Some(&session), true) {
        GateDecision::Unauthorized(body) => assert_eq!(body.message, "unauthorized"),
        other => panic!("expected a structured rejection, got {:?}", other),
    }
    match authentication_gate(Some(&session), false) {
        GateDecision::Redirect(target) => assert_eq!(target, "/login"),
        other => panic!("expected a redirect, got {:?}", other),
    }
}

#[test]
fn promotion_is_idempotent_and_keeps_the_user() {
    let session = unauthenticated();
    let once = session.update_is_authed(true);
    let twice = once.update_is_authed(true);
    assert!(once.is_authed());
    assert!(twice.is_authed());
    assert_eq!(once.user_id(), twice.user_id());
    assert_eq!(once.username(), twice.username());
    assert_eq!(once.user_id(), session.user_id());
    let demoted = twice.update_is_authed(false);
    assert!(!demoted.is_authed());
}

#[test]
fn login_page_redirects_only_authenticated_visitors() {
    assert_eq!(authenticated_redirect(None), None);
    let cold = unauthenticated();
    assert_eq!(authenticated_redirect(Some(&cold)), None);
    let warm = authenticated();
    assert_eq!(authenticated_redirect(Some(&warm)), Some("/task".to_string()));
}

#[test]
fn require_hands_back_only_authenticated_sessions() {
    let granted = require(Some(&authenticated())).unwrap();
    assert!(granted.is_authed());
    assert_eq!(granted.username(), "bob");
    let missing = require(None);
    assert_eq!(missing.err(), Some(taskbane::errors::ApiError::Unauthorized));
    let cold = unauthenticated();
    let refused = require(Some(&cold));
    assert_eq!(refused.err(), Some(taskbane::errors::ApiError::Unauthorized));
}

#[test]
fn session_key_names_the_auth_state() {
    assert_eq!(SESSION_KEY, "auth_state");
}

#[test]
fn session_token_parts_round_trip() {
    let token = SessionAuthState::from_parts(UserIdentity::new(9), "zoe".to_string(), true);
    assert_eq!(token.user_id(), UserIdentity::new(9));
    assert_eq!(token.username(), "zoe");
    assert!(token.is_authed());
    let copy = token.clone();
    assert_eq!(copy.user_id(), token.user_id());
    assert_eq!(copy.username(), token.username());
    assert_eq!(copy.is_authed(), token.is_authed());
}
