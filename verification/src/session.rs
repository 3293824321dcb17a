//! The session boundary: the token that correlates a ceremony's start
//! with its finish, and the access-control guard that authorizes requests
//! once a ceremony has succeeded.
//!
//! A token is created unauthenticated when a ceremony starts and promoted
//! only after a login ceremony finishes successfully. A request without an
//! authenticated token is rejected: a client that negotiates
//! `application/json` receives a structured unauthorized error, any other
//! client a redirect to the login page.
use vstd::prelude::*;

use crate::errors::ApiError;
use crate::errors::ErrorMessage;
use crate::models::UserIdentity;

verus! {

/// The key under which the session store holds the auth state.
pub const SESSION_KEY: &'static str = "auth_state";

/// The mathematical shape of a session token.
#[verifier::ext_equal]
pub ghost struct SessionModel {
    pub user_id: u128,
    pub username: Seq<char>,
    pub is_authed: bool,
}

/// The session token: the identity and username that started a ceremony,
/// and whether a login ceremony has succeeded since.
#[derive(Debug)]
pub struct SessionAuthState {
    user_id: UserIdentity,
    username: String,
    is_authed: bool,
}

impl View for SessionAuthState {
    type V = SessionModel;

    closed spec fn view(&self) -> SessionModel {
        SessionModel {
            user_id: self.user_id.value,
            username: self.username@,
            is_authed: self.is_authed,
        }
    }
}

/// A promoted session: the same identity and username, authenticated.
pub open spec fn promote_model(m: SessionModel) -> SessionModel {
    SessionModel { user_id: m.user_id, username: m.username, is_authed: true }
}

impl SessionAuthState {
    /// Opens an unauthenticated session for the user a ceremony was
    /// started for, so a later finish call can be correlated with that
    /// identity without trusting a client-supplied one.
    pub fn new(user_id: &UserIdentity, username: String) -> (r: Self)
        ensures
            r@ == (SessionModel { user_id: user_id.value, username: username@, is_authed: false }),
    {
        SessionAuthState { user_id: *user_id, username, is_authed: false }
    }

    /// Rebuilds a token from its parts, as read back from a session store.
    pub fn from_parts(user_id: UserIdentity, username: String, is_authed: bool) -> (r: Self)
        ensures
            r@ == (SessionModel { user_id: user_id.value, username: username@, is_authed }),
    {
        SessionAuthState { user_id, username, is_authed }
    }

    /// The identity this session belongs to.
    pub fn user_id(&self) -> (r: UserIdentity)
        ensures
            r.value == self@.user_id,
    {
        self.user_id
    }

    /// The username this session was opened for.
    pub fn username(&self) -> (r: String)
        ensures
            r@ == self@.username,
    {
        self.username.clone()
    }

    /// Whether a login ceremony has succeeded on this session.
    pub fn is_authed(&self) -> (r: bool)
        ensures
            r == self@.is_authed,
    {
        self.is_authed
    }

    /// The same session with the authenticated flag set as given;
    /// promotion is `update_is_authed(true)`.
    pub fn update_is_authed(&self, is_authed: bool) -> (r: Self)
        ensures
            r@ == (SessionModel { user_id: self@.user_id, username: self@.username, is_authed }),
    {
        SessionAuthState {
            user_id: self.user_id,
            username: self.username.clone(),
            is_authed,
        }
    }
}

impl Clone for SessionAuthState {
    /// A cloned token denotes the same session.
    fn clone(&self) -> (res: Self)
        ensures
            res@ == self@,
    {
        SessionAuthState {
            user_id: self.user_id,
            username: self.username.clone(),
            is_authed: self.is_authed,
        }
    }
}

/// Promotion is idempotent: promoting an already promoted session changes
/// nothing.
pub proof fn lemma_promote_idempotent(m: SessionModel)
    ensures
        promote_model(promote_model(m)) == promote_model(m),
{
}

/// What the access-control guard decides for one request.
#[derive(Debug)]
pub enum GateDecision {
    /// The session is authenticated: let the request through.
    Proceed,
    /// No authenticated session, structured client: answer an
    /// unauthorized error body.
    Unauthorized(ErrorMessage),
    /// No authenticated session, browser client: redirect to the page
    /// whose path is carried.
    Redirect(String),
}

/// Whether the session authorizes the request.
pub open spec fn session_authorizes(auth: Option<SessionModel>) -> bool {
    match auth {
        Some(m) => m.is_authed,
        None => false,
    }
}

/// What a negotiation of the request's `Accept` header against this
/// server's two offers — `application/json`, then `text/html` — yields:
/// nothing when the header cannot be parsed or matches neither offer,
/// otherwise whether `application/json` was chosen.
pub uninterp spec fn accept_negotiation(header: Seq<char>) -> Option<bool>;

/// Relies on headers_accept::Accept: `parse` reads the `Accept` header
/// text and `negotiate` performs RFC 9110 server-driven negotiation over
/// the offered media types, here application/json and text/html. Both are
/// functions of the header text alone.
#[verifier::external_body]
fn negotiate_structured(header: &str) -> (r: Option<bool>)
    ensures
        r == accept_negotiation(header@),
{
    let accept: headers_accept::Accept = match header.parse() {
        Ok(a) => a,
        Err(_) => return None,
    };
    let json = mediatype::MediaType::new(mediatype::names::APPLICATION, mediatype::names::JSON);
    let html = mediatype::MediaType::new(mediatype::names::TEXT, mediatype::names::HTML);
    let offers = [json, html];
    match accept.negotiate(&offers) {
        Some(chosen) => Some(*chosen == offers[0]),
        None => None,
    }
}

/// Whether the request's client negotiated the structured offer; a
/// missing or unusable header falls back to the browser treatment.
pub open spec fn wants_structured_model(accept: Option<Seq<char>>) -> bool {
    match accept {
        Some(h) => accept_negotiation(h) == Some(true),
        None => false,
    }
}

/// The access check on a protected resource, after content negotiation:
/// an authenticated session proceeds; anything else is rejected, as a
/// structured unauthorized error for a client that negotiated
/// application/json and as a redirect to the login page for any other.
pub fn authentication_gate(auth: Option<&SessionAuthState>, wants_structured: bool) -> (r:
    GateDecision)
    ensures
        (match r {
            GateDecision::Proceed => session_authorizes(
                match auth {
                    Some(a) => Some(a@),
                    None => None,
                },
            ),
            GateDecision::Unauthorized(m) => !session_authorizes(
                match auth {
                    Some(a) => Some(a@),
                    None => None,
                },
            ) && wants_structured && m.message@ == "unauthorized"@,
            GateDecision::Redirect(t) => !session_authorizes(
                match auth {
                    Some(a) => Some(a@),
                    None => None,
                },
            ) && !wants_structured && t@ == "/login"@,
        }),
{
    let authed = match auth {
        Some(a) => a.is_authed(),
        None => false,
    };
    if authed {
        GateDecision::Proceed
    } else if wants_structured {
        GateDecision::Unauthorized(ErrorMessage::new("unauthorized"))
    } else {
        GateDecision::Redirect("/login".to_owned())
    }
}

/// The access check on a protected resource, from the raw `Accept`
/// header: negotiates the header, then decides as `authentication_gate`.
pub fn gate_from_accept(auth: Option<&SessionAuthState>, accept: Option<&String>) -> (r:
    GateDecision)
    ensures
        (match r {
            GateDecision::Proceed => session_authorizes(
                match auth {
                    Some(a) => Some(a@),
                    None => None,
                },
            ),
            GateDecision::Unauthorized(m) => !session_authorizes(
                match auth {
                    Some(a) => Some(a@),
                    None => None,
                },
            ) && wants_structured_model(
                match accept {
                    Some(h) => Some(h@),
                    None => None,
                },
            ) && m.message@ == "unauthorized"@,
            GateDecision::Redirect(t) => !session_authorizes(
                match auth {
                    Some(a) => Some(a@),
                    None => None,
                },
            ) && !wants_structured_model(
                match accept {
                    Some(h) => Some(h@),
                    None => None,
                },
            ) && t@ == "/login"@,
        }),
{
    let wants_structured = match accept {
        Some(h) => match negotiate_structured(h.as_str()) {
            Some(true) => true,
            _ => false,
        },
        None => false,
    };
    authentication_gate(auth, wants_structured)
}

/// Requires an authenticated session: hands the token back when the
/// visitor has one, and rejects with `Unauthorized` when the session is
/// missing or never finished a login ceremony.
pub fn require(auth: Option<&SessionAuthState>) -> (r: Result<SessionAuthState, ApiError>)
    ensures
        (match r {
            Ok(t) => (match auth {
                Some(a) => t@ == a@ && a@.is_authed,
                None => false,
            }),
            Err(e) => e == ApiError::Unauthorized && !session_authorizes(
                match auth {
                    Some(a) => Some(a@),
                    None => None,
                },
            ),
        }),
{
    match auth {
        Some(a) => {
            if a.is_authed() {
                Ok(a.clone())
            } else {
                Err(ApiError::Unauthorized)
            }
        },
        None => Err(ApiError::Unauthorized),
    }
}

/// The reverse guard on the login and register pages: a visitor who is
/// already authenticated is sent to the task page instead; anyone else
/// passes through.
pub fn authenticated_redirect(auth: Option<&SessionAuthState>) -> (r: Option<String>)
    ensures
        (match r {
            Some(t) => session_authorizes(
                match auth {
                    Some(a) => Some(a@),
                    None => None,
                },
            ) && t@ == "/task"@,
            None => !session_authorizes(
                match auth {
                    Some(a) => Some(a@),
                    None => None,
                },
            ),
        }),
{
    let authed = match auth {
        Some(a) => a.is_authed(),
        None => false,
    };
    if authed {
        Some("/task".to_owned())
    } else {
        None
    }
}

} // verus!
