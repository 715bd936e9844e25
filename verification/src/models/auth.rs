use vstd::prelude::*;

use crate::models::UiMessage;
use crate::services::auth::{auth_error_text, AuthError, AuthServiceMessage};
use crate::text::{concat, owned};

verus! {

/// Operation in flight; only one runs at a time.
#[derive(Debug, Clone, Copy, PartialEq, Eq, Structural)]
pub enum AuthOpState {
    Idle,
    Authenticating,
}

/// What an authentication model step produced.
#[derive(Debug, Clone, Copy, PartialEq, Eq, Structural)]
pub struct AuthEffect {
    /// The OAuth flow is started in the background.
    pub request_authenticate: bool,
    /// The GitHub client is rebuilt with the newly stored token.
    pub reinitialize_github_client: bool,
    pub auth_changed: bool,
    pub auth_completed: bool,
}

/// A step with no request and no signal.
pub open spec fn no_auth_effect() -> AuthEffect {
    AuthEffect {
        request_authenticate: false,
        reinitialize_github_client: false,
        auth_changed: false,
        auth_completed: false,
    }
}

/// The error text shown when the OAuth flow failed with `e`.
pub open spec fn auth_failed_text(e: AuthError) -> Seq<char> {
    "Authentication failed: "@ + auth_error_text(e)
}

/// State of the authentication model.
#[derive(Debug, Clone)]
pub struct AuthModel {
    pub loading: bool,
    pub authenticated: bool,
    pub error_message: UiMessage,
    /// Whether the GitHub OAuth provider is attached.
    pub has_provider: bool,
    pub op_state: AuthOpState,
}

/// The model after attaching the provider, if one is available.
pub open spec fn auth_initialized(old: AuthModel, provider_available: bool) -> AuthModel {
    AuthModel { has_provider: old.has_provider || provider_available, ..old }
}

impl AuthModel {
    /// A model with no provider attached.
    pub fn new() -> (r: Self)
        ensures
            !r.loading && !r.authenticated && !r.has_provider,
            r.error_message == UiMessage::Empty,
            r.op_state == AuthOpState::Idle,
    {
        AuthModel {
            loading: false,
            authenticated: false,
            error_message: UiMessage::Empty,
            has_provider: false,
            op_state: AuthOpState::Idle,
        }
    }

    /// Attach the GitHub provider if it is missing and the services offer one.
    pub fn ensure_initialized(&mut self, provider_available: bool)
        ensures
            *final(self) == auth_initialized(*old(self), provider_available),
    {
        if !self.has_provider && provider_available {
            self.has_provider = true;
        }
    }

    /// The name of the attached provider; empty while none is attached.
    pub fn provider_name(&self) -> (r: String)
        ensures
            self.has_provider ==> r@ == "GitHub"@,
            !self.has_provider ==> r@.len() == 0,
    {
        if self.has_provider {
            owned("GitHub")
        } else {
            String::new()
        }
    }

    /// Start the OAuth flow.  `provider_available` says whether the services
    /// offer a provider, `channel_ready` whether the service channel is open.
    /// A running flow makes this a no-op; a missing provider or channel is
    /// reported in the error message.
    pub fn authenticate(&mut self, provider_available: bool, channel_ready: bool) -> (e: AuthEffect)
        ensures
            ({
                let m = auth_initialized(*old(self), provider_available);
                if m.op_state != AuthOpState::Idle {
                    *final(self) == m && e == no_auth_effect()
                } else if !m.has_provider {
                    &&& final(self).error_message matches UiMessage::Text(t)
                    &&& t@ == "GitHub OAuth not configured. Please add client_id and client_secret to config.toml"@
                    &&& *final(self) == (AuthModel { error_message: final(self).error_message, ..m })
                    &&& e == no_auth_effect()
                } else if !channel_ready {
                    &&& final(self).error_message matches UiMessage::Text(t)
                    &&& t@ == "Service channel not ready"@
                    &&& *final(self) == (AuthModel { error_message: final(self).error_message, ..m })
                    &&& e == no_auth_effect()
                } else {
                    &&& *final(self) == (AuthModel {
                        loading: true,
                        error_message: UiMessage::Empty,
                        op_state: AuthOpState::Authenticating,
                        ..m
                    })
                    &&& e == (AuthEffect { request_authenticate: true, ..no_auth_effect() })
                }
            }),
    {
        self.ensure_initialized(provider_available);
        match self.op_state {
            AuthOpState::Idle => {},
            _ => {
                return AuthEffect {
                    request_authenticate: false,
                    reinitialize_github_client: false,
                    auth_changed: false,
                    auth_completed: false,
                };
            },
        }
        if !self.has_provider {
            self.error_message = UiMessage::Text(owned(
                "GitHub OAuth not configured. Please add client_id and client_secret to config.toml",
            ));
        } else if !channel_ready {
            self.error_message = UiMessage::Text(owned("Service channel not ready"));
        } else {
            self.loading = true;
            self.error_message = UiMessage::Empty;
            self.op_state = AuthOpState::Authenticating;
            return AuthEffect {
                request_authenticate: true,
                reinitialize_github_client: false,
                auth_changed: false,
                auth_completed: false,
            };
        }
        AuthEffect {
            request_authenticate: false,
            reinitialize_github_client: false,
            auth_changed: false,
            auth_completed: false,
        }
    }

    /// Apply the completion of the OAuth flow.  On success the GitHub client
    /// is rebuilt and the model becomes authenticated; on failure the error
    /// is shown and the model is not authenticated.
    pub fn poll_channel(&mut self, msg: AuthServiceMessage) -> (e: AuthEffect)
        ensures
            match msg {
                AuthServiceMessage::AuthenticateDone(Ok(_)) => {
                    &&& *final(self) == (AuthModel {
                        loading: false,
                        op_state: AuthOpState::Idle,
                        error_message: UiMessage::Empty,
                        authenticated: true,
                        ..*old(self)
                    })
                    &&& e == (AuthEffect {
                        reinitialize_github_client: true,
                        auth_changed: true,
                        auth_completed: true,
                        ..no_auth_effect()
                    })
                },
                AuthServiceMessage::AuthenticateDone(Err(err)) => {
                    &&& final(self).error_message matches UiMessage::Text(t)
                    &&& t@ == auth_failed_text(err)
                    &&& *final(self) == (AuthModel {
                        loading: false,
                        op_state: AuthOpState::Idle,
                        error_message: final(self).error_message,
                        authenticated: false,
                        ..*old(self)
                    })
                    &&& e == no_auth_effect()
                },
            },
    {
        self.loading = false;
        self.op_state = AuthOpState::Idle;
        match msg {
            AuthServiceMessage::AuthenticateDone(Ok(_token)) => {
                self.error_message = UiMessage::Empty;
                self.authenticated = true;
                AuthEffect {
                    request_authenticate: false,
                    reinitialize_github_client: true,
                    auth_changed: true,
                    auth_completed: true,
                }
            },
            AuthServiceMessage::AuthenticateDone(Err(err)) => {
                let shown = err.message();
                self.error_message = UiMessage::Text(concat("Authentication failed: ", shown.as_str()));
                self.authenticated = false;
                AuthEffect {
                    request_authenticate: false,
                    reinitialize_github_client: false,
                    auth_changed: false,
                    auth_completed: false,
                }
            },
        }
    }

    /// Refresh the authentication flag from the provider:
    /// `provider_authenticated` is what the attached provider reports.  The
    /// model is authenticated only with a provider that reports so, and
    /// `auth_changed` is raised exactly when the flag changes.
    pub fn check_auth(&mut self, provider_available: bool, provider_authenticated: bool) -> (e: AuthEffect)
        ensures
            ({
                let m = auth_initialized(*old(self), provider_available);
                let now = m.has_provider && provider_authenticated;
                &&& *final(self) == (AuthModel { authenticated: now, ..m })
                &&& e == (AuthEffect { auth_changed: now != old(self).authenticated, ..no_auth_effect() })
            }),
    {
        self.ensure_initialized(provider_available);
        let now = self.has_provider && provider_authenticated;
        let was = self.authenticated;
        self.authenticated = now;
        AuthEffect {
            request_authenticate: false,
            reinitialize_github_client: false,
            auth_changed: was != now,
            auth_completed: false,
        }
    }

    /// Apply the outcome of removing the stored token.  Without a provider
    /// nothing happens (and no removal is attempted); on success the model
    /// is signed out, on failure the error (`Err` carries the provider's
    /// error text) is shown.
    pub fn sign_out(&mut self, result: Result<(), String>) -> (e: AuthEffect)
        ensures
            !old(self).has_provider ==> *final(self) == *old(self) && e == no_auth_effect(),
            old(self).has_provider ==> match result {
                Ok(()) => {
                    &&& *final(self) == (AuthModel {
                        authenticated: false,
                        error_message: UiMessage::Empty,
                        ..*old(self)
                    })
                    &&& e == (AuthEffect { auth_changed: true, ..no_auth_effect() })
                },
                Err(msg) => {
                    &&& final(self).error_message matches UiMessage::Text(t)
                    &&& t@ == "Sign out failed: "@ + msg@
                    &&& *final(self) == (AuthModel { error_message: final(self).error_message, ..*old(self) })
                    &&& e == no_auth_effect()
                },
            },
    {
        let quiet = AuthEffect {
            request_authenticate: false,
            reinitialize_github_client: false,
            auth_changed: false,
            auth_completed: false,
        };
        if !self.has_provider {
            return quiet;
        }
        match result {
            Ok(()) => {
                self.authenticated = false;
                self.error_message = UiMessage::Empty;
                AuthEffect { auth_changed: true, ..quiet }
            },
            Err(msg) => {
                self.error_message = UiMessage::Text(concat("Sign out failed: ", msg.as_str()));
                quiet
            },
        }
    }
}

} // verus!
