use vstd::prelude::*;

verus! {

/// The shared services of the application: one slot per service, holding
/// its handle once it is initialized, and the cancellation token of the
/// repository operation in flight.
pub struct AppServices<Note, GitHub, Auth, Store, Weather, Token> {
    pub note_client: Option<Note>,
    pub github_client: Option<GitHub>,
    pub github_auth: Option<Auth>,
    pub project_store: Option<Store>,
    pub weather: Option<Weather>,
    pub repo_cancel_token: Option<Token>,
}

impl<Note, GitHub, Auth, Store, Weather, Token> AppServices<Note, GitHub, Auth, Store, Weather, Token> {
    /// No service initialized and no operation in flight.
    pub fn new() -> (r: Self)
        ensures
            r.note_client is None,
            r.github_client is None,
            r.github_auth is None,
            r.project_store is None,
            r.weather is None,
            r.repo_cancel_token is None,
    {
        AppServices {
            note_client: None,
            github_client: None,
            github_auth: None,
            project_store: None,
            weather: None,
            repo_cancel_token: None,
        }
    }

    /// Whether a GitHub client is available, that is, whether GitHub is
    /// authenticated.
    pub fn is_github_authenticated(&self) -> (r: bool)
        ensures
            r == self.github_client is Some,
    {
        self.github_client.is_some()
    }

    /// Drop the GitHub client (on sign-out).
    pub fn clear_github_client(&mut self)
        ensures
            *final(self) == (AppServices { github_client: None, ..*old(self) }),
    {
        self.github_client = None;
    }

    /// Replace the GitHub client after a new sign-in: the old client is
    /// dropped first, then `fresh` (the client made from the newly stored
    /// token, if one could be made) takes its place.  Returns whether a
    /// client is in place.
    pub fn reinitialize_github_client(&mut self, fresh: Option<GitHub>) -> (r: bool)
        ensures
            r == fresh is Some,
            *final(self) == (AppServices { github_client: fresh, ..*old(self) }),
    {
        self.clear_github_client();
        let ok = fresh.is_some();
        self.github_client = fresh;
        ok
    }

    /// Start tracking a new repository operation; a previous token is
    /// dropped without being cancelled.
    pub fn new_repo_cancel_token(&mut self, token: Token)
        ensures
            *final(self) == (AppServices { repo_cancel_token: Some(token), ..*old(self) }),
    {
        self.repo_cancel_token = Some(token);
    }

    /// Cancel the repository operation in flight: the token is taken out and
    /// returned, to be cancelled.
    pub fn cancel_repo_operation(&mut self) -> (r: Option<Token>)
        ensures
            r == old(self).repo_cancel_token,
            *final(self) == (AppServices { repo_cancel_token: None, ..*old(self) }),
    {
        self.repo_cancel_token.take()
    }

    /// Forget the token of a finished repository operation, without
    /// cancelling it.
    pub fn clear_repo_cancel_token(&mut self)
        ensures
            *final(self) == (AppServices { repo_cancel_token: None, ..*old(self) }),
    {
        self.repo_cancel_token = None;
    }

    /// Shut the services down: every slot is cleared, and the token of the
    /// repository operation in flight, if any, is returned to be cancelled.
    pub fn shutdown(&mut self) -> (r: Option<Token>)
        ensures
            r == old(self).repo_cancel_token,
            final(self).note_client is None,
            final(self).github_client is None,
            final(self).github_auth is None,
            final(self).project_store is None,
            final(self).weather is None,
            final(self).repo_cancel_token is None,
    {
        self.note_client = None;
        self.github_client = None;
        self.github_auth = None;
        self.project_store = None;
        self.weather = None;
        self.repo_cancel_token.take()
    }
}

} // verus!
