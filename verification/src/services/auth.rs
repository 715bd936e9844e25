use vstd::prelude::*;

use crate::services::app_error::AppError;
use crate::text::{concat, owned};

verus! {

/// Error type for auth operations.
#[derive(Debug, Clone, PartialEq, Eq)]
pub enum AuthError {
    OAuth(String),
    NotConfigured,
    NotInitialized,
}

/// The text an auth error displays.
pub open spec fn auth_error_text(e: AuthError) -> Seq<char> {
    match e {
        AuthError::OAuth(s) => "Authentication failed: "@ + s@,
        AuthError::NotConfigured => "GitHub OAuth not configured in config.toml"@,
        AuthError::NotInitialized => "Auth service not initialized"@,
    }
}

/// Whether `a` is the application error that the auth error `e` is reported as.
pub open spec fn auth_reported_as(e: AuthError, a: AppError) -> bool {
    match e {
        AuthError::OAuth(s) => a == AppError::AuthOAuthFailed(s),
        AuthError::NotConfigured => a matches AppError::ConfigMissingSetting(m)
            && m@ == "GitHub OAuth (client_id, client_secret)"@,
        AuthError::NotInitialized => a matches AppError::Service(m)
            && m@ == "Auth service not initialized"@,
    }
}

impl AuthError {
    /// The text this error displays.
    pub fn message(&self) -> (r: String)
        ensures
            r@ == auth_error_text(*self),
    {
        match self {
            AuthError::OAuth(s) => concat("Authentication failed: ", s.as_str()),
            AuthError::NotConfigured => owned("GitHub OAuth not configured in config.toml"),
            AuthError::NotInitialized => owned("Auth service not initialized"),
        }
    }

    /// The application error this error is reported as.
    pub fn to_app_error(self) -> (r: AppError)
        ensures
            auth_reported_as(self, r),
    {
        match self {
            AuthError::OAuth(s) => AppError::AuthOAuthFailed(s),
            AuthError::NotConfigured => AppError::ConfigMissingSetting(
                owned("GitHub OAuth (client_id, client_secret)"),
            ),
            AuthError::NotInitialized => AppError::Service(owned("Auth service not initialized")),
        }
    }
}

} // verus!

verus! {

/// OAuth tokens obtained from a provider.
#[derive(Debug, Clone, PartialEq, Eq)]
pub struct TokenSet {
    pub access_token: String,
    pub refresh_token: Option<String>,
    /// Expiry as seconds since the Unix epoch.
    pub expires_at: i64,
    pub scopes: Vec<String>,
}

/// Messages sent from asynchronous auth operations back to the UI thread.
#[derive(Debug)]
pub enum AuthServiceMessage {
    /// Result of OAuth authentication.
    AuthenticateDone(Result<TokenSet, AuthError>),
}

} // verus!
