//! The sign-in token held by a process, and the authorization header built
//! from it.

use vstd::prelude::*;

use crate::models::clone_opt_string;
use crate::service::Request;

verus! {

/// Shared auth token state. The access token is `None` when logged out.
#[derive(Debug, Clone)]
pub struct AuthTokenState {
    pub access_token: Option<String>,
}

impl AuthTokenState {
    /// Creates a new `AuthTokenState` with no token (logged out).
    pub fn new() -> (s: Self)
        ensures
            s.access_token is None,
    {
        AuthTokenState { access_token: None }
    }

    /// Creates a new `AuthTokenState` with the given token.
    pub fn with_token(token: String) -> (s: Self)
        ensures
            s.access_token == Some(token),
    {
        AuthTokenState { access_token: Some(token) }
    }

    /// Returns `true` if authenticated (has a token).
    pub fn is_authenticated(&self) -> (b: bool)
        ensures
            b == self.access_token is Some,
    {
        self.access_token.is_some()
    }

    /// Signs in with `token`.
    pub fn store_access_token(&mut self, token: String)
        ensures
            final(self).access_token == Some(token),
    {
        self.access_token = Some(token);
    }

    /// Signs out.
    pub fn clear_access_token(&mut self)
        ensures
            final(self).access_token is None,
    {
        self.access_token = None;
    }
}

impl Default for AuthTokenState {
    fn default() -> (s: Self)
        ensures
            s.access_token is None,
    {
        Self::new()
    }
}

/// The current token (`None` when logged out).
pub fn get_token(state: &AuthTokenState) -> (t: Option<String>)
    ensures
        t == state.access_token,
{
    clone_opt_string(&state.access_token)
}

/// The `Authorization` header value for a token: "Bearer {token}".
pub fn auth_header(token: &Option<String>) -> (h: Option<String>)
    ensures
        match *token {
            Some(t) => h matches Some(x) && x@ == "Bearer "@ + t@,
            None => h is None,
        },
{
    match token {
        Some(t) => {
            let mut h = String::from_str("Bearer ");
            h.append(t.as_str());
            Some(h)
        },
        None => None,
    }
}

/// What the auth service does for a request.
#[derive(Debug, Clone)]
pub enum AuthAction {
    /// Exchange a Google ID token for an access token with the backend.
    GoogleLogin { google_id_token: String },
    /// Run the browser sign-in with these OAuth client credentials.
    BrowserSignIn { client_id: String, client_secret: String },
    /// Check a stored access token with the backend.
    Validate { token: String },
    /// Forget the access token.
    Logout,
    /// Stop the service.
    Shutdown,
}

/// The auth service's action for a request; any request outside sign-in,
/// validation, logout and shutdown is refused with "Unsupported request
/// for auth service".
pub fn auth_action(request: Request) -> (r: Result<AuthAction, String>)
    ensures
        match request {
            Request::GoogleLogin { google_id_token } => r matches Ok(
                AuthAction::GoogleLogin { google_id_token: t },
            ) && t == google_id_token,
            Request::StartGoogleAuth { client_id, client_secret } => r matches Ok(
                AuthAction::BrowserSignIn { client_id: a, client_secret: b },
            ) && a == client_id && b == client_secret,
            Request::ValidateToken { token } => r matches Ok(AuthAction::Validate { token: t })
                && t == token,
            Request::Logout => r matches Ok(AuthAction::Logout),
            Request::Shutdown => r matches Ok(AuthAction::Shutdown),
            _ => r matches Err(m) && m@ == "Unsupported request for auth service"@,
        },
{
    match request {
        Request::GoogleLogin { google_id_token } => Ok(AuthAction::GoogleLogin { google_id_token }),
        Request::StartGoogleAuth { client_id, client_secret } => Ok(
            AuthAction::BrowserSignIn { client_id, client_secret },
        ),
        Request::ValidateToken { token } => Ok(AuthAction::Validate { token }),
        Request::Logout => Ok(AuthAction::Logout),
        Request::Shutdown => Ok(AuthAction::Shutdown),
        _ => Err(String::from_str("Unsupported request for auth service")),
    }
}

/// The token the auth service stores after an action succeeded: the new
/// access token after a sign-in, the validated token, or none after logout.
/// `None` means the stored token stays as it is.
pub fn token_after(action: &AuthAction, access_token: &Option<String>) -> (t: Option<Option<String>>)
    ensures
        match *action {
            AuthAction::GoogleLogin { .. } | AuthAction::BrowserSignIn { .. } => t == Some(
                *access_token,
            ),
            AuthAction::Validate { token } => t == Some(Some(token)),
            AuthAction::Logout => t == Some(None::<String>),
            AuthAction::Shutdown => t is None,
        },
{
    match action {
        AuthAction::GoogleLogin { .. } | AuthAction::BrowserSignIn { .. } => Some(
            clone_opt_string(access_token),
        ),
        AuthAction::Validate { token } => Some(Some(token.clone())),
        AuthAction::Logout => Some(None),
        AuthAction::Shutdown => None,
    }
}

} // verus!
