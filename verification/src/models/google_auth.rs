use vstd::prelude::*;

use crate::services::google::user_config_dir;
use crate::text::{concat, join_path, joined_path, owned, str_eq};

verus! {

/// The words of `s` after the word `cur` begun before it: the maximal runs
/// of characters that are not white space, in order.
pub open spec fn words_after(s: Seq<char>, cur: Seq<char>) -> Seq<Seq<char>>
    decreases s.len(),
{
    let done: Seq<Seq<char>> = if cur.len() == 0 { Seq::empty() } else { seq![cur] };
    if s.len() == 0 {
        done
    } else if crate::text::is_whitespace(s[0]) {
        done + words_after(s.drop_first(), Seq::empty())
    } else {
        words_after(s.drop_first(), cur.push(s[0]))
    }
}

/// The words of `s`: its maximal runs of characters that are not white
/// space, in order.
pub open spec fn whitespace_words(s: Seq<char>) -> Seq<Seq<char>> {
    words_after(s, Seq::empty())
}

/// Split a text into words at white space.
///
/// Calls `str::split_whitespace`, which yields the maximal runs of
/// characters that are not `char::is_whitespace`, in order.
#[verifier::external_body]
fn split_words(s: &str) -> (r: Vec<String>)
    ensures
        r@.map_values(|w: String| w@) == whitespace_words(s@),
{
    s.split_whitespace().map(|w| w.to_string()).collect()
}

/// The query pairs of the URL `u` (names and values percent-decoded), as
/// `url::Url::parse` and `Url::query_pairs` read them, or the parse error's
/// text.
pub uninterp spec fn url_query(u: Seq<char>) -> Result<Seq<(Seq<char>, Seq<char>)>, Seq<char>>;

/// Read the query pairs of a URL.
///
/// Calls `url::Url::parse` and `Url::query_pairs`; the outcome depends on
/// the text alone.
#[verifier::external_body]
fn query_pairs_of(u: &str) -> (r: Result<Vec<(String, String)>, String>)
    ensures
        match r {
            Ok(ps) => url_query(u@) == Ok::<Seq<(Seq<char>, Seq<char>)>, Seq<char>>(
                ps@.map_values(|p: (String, String)| (p.0@, p.1@))),
            Err(e) => url_query(u@) == Err::<Seq<(Seq<char>, Seq<char>)>, Seq<char>>(e@),
        },
{
    let url = url::Url::parse(u).map_err(|e| e.to_string())?;
    Ok(url.query_pairs().map(|(k, v)| (k.into_owned(), v.into_owned())).collect())
}

/// The value of the first pair named `name`, if any.
pub open spec fn first_value(pairs: Seq<(Seq<char>, Seq<char>)>, name: Seq<char>) -> Option<Seq<char>>
    decreases pairs.len(),
{
    if pairs.len() == 0 {
        None
    } else if pairs[0].0 == name {
        Some(pairs[0].1)
    } else {
        first_value(pairs.drop_first(), name)
    }
}

/// What the first line of the OAuth redirect request gives: the
/// authorization code, or why it was refused.  The request target (its
/// second word) is read as a URL on `localhost`; it must carry a `code`
/// and a `state`, and the state must be the one the flow was started with.
pub open spec fn callback_outcome(request_line: Seq<char>, expected_state: Seq<char>) -> Result<Seq<char>, Seq<char>> {
    let words = whitespace_words(request_line);
    if words.len() < 2 {
        Err("Invalid request"@)
    } else {
        match url_query("http://localhost"@ + words[1]) {
            Err(e) => Err("URL parse failed: "@ + e),
            Ok(pairs) => match first_value(pairs, "code"@) {
                None => Err("No code in callback"@),
                Some(code) => match first_value(pairs, "state"@) {
                    None => Err("No state in callback"@),
                    Some(state) => if state != expected_state {
                        Err("State mismatch - possible CSRF attack"@)
                    } else {
                        Ok(code)
                    },
                },
            },
        }
    }
}

/// The value of the first pair named `name`.
fn find_value(pairs: &Vec<(String, String)>, name: &str) -> (r: Option<String>)
    ensures
        match first_value(pairs@.map_values(|p: (String, String)| (p.0@, p.1@)), name@) {
            Some(v) => r matches Some(t) && t@ == v,
            None => r is None,
        },
{
    let ghost ps = pairs@.map_values(|p: (String, String)| (p.0@, p.1@));
    assert(ps.subrange(0, ps.len() as int) =~= ps);
    let mut i: usize = 0;
    while i < pairs.len()
        invariant
            i <= pairs@.len(),
            ps == pairs@.map_values(|p: (String, String)| (p.0@, p.1@)),
            first_value(ps, name@) == first_value(ps.subrange(i as int, ps.len() as int), name@),
        decreases pairs.len() - i,
    {
        assert(ps.subrange(i as int, ps.len() as int)[0] == ps[i as int]);
        if str_eq(pairs[i].0.as_str(), name) {
            return Some(pairs[i].1.clone());
        }
        assert(ps.subrange(i as int, ps.len() as int).drop_first() =~= ps.subrange(i + 1, ps.len() as int));
        i = i + 1;
    }
    None
}

/// Read the first line of the OAuth redirect request: the authorization
/// code, or why the redirect is refused.
pub fn read_oauth_callback(request_line: &str, expected_state: &str) -> (r: Result<String, String>)
    ensures
        match callback_outcome(request_line@, expected_state@) {
            Ok(code) => r matches Ok(c) && c@ == code,
            Err(e) => r matches Err(m) && m@ == e,
        },
{
    let words = split_words(request_line);
    proof {
        assert(words@.len() == whitespace_words(request_line@).len());
    }
    if words.len() < 2 {
        return Err(owned("Invalid request"));
    }
    proof {
        assert(words@[1]@ == whitespace_words(request_line@)[1]);
    }
    let url = concat("http://localhost", words[1].as_str());
    let pairs = match query_pairs_of(url.as_str()) {
        Ok(ps) => ps,
        Err(e) => return Err(concat("URL parse failed: ", e.as_str())),
    };
    let code = match find_value(&pairs, "code") {
        Some(c) => c,
        None => return Err(owned("No code in callback")),
    };
    let state = match find_value(&pairs, "state") {
        Some(s) => s,
        None => return Err(owned("No state in callback")),
    };
    if !str_eq(state.as_str(), expected_state) {
        return Err(owned("State mismatch - possible CSRF attack"));
    }
    Ok(code)
}

/// The path of the configuration file shown in messages: `config.toml`
/// in the application's directory inside `config_dir`, or a bare
/// `config.toml` when there is no configuration directory.
pub open spec fn config_file_path(config_dir: Option<String>) -> Seq<char> {
    match config_dir {
        Some(d) => joined_path(joined_path(d@, "myme"@), "config.toml"@),
        None => "config.toml"@,
    }
}

/// The path of the configuration file, given the user's configuration
/// directory.
pub fn config_display_path_in(config_dir: Option<String>) -> (r: String)
    ensures
        r@ == config_file_path(config_dir),
{
    match config_dir {
        Some(d) => {
            let dir = join_path(d.as_str(), "myme");
            join_path(dir.as_str(), "config.toml")
        },
        None => owned("config.toml"),
    }
}

/// The path of the configuration file shown in messages.
pub fn config_display_path() -> (r: String)
    ensures
        exists|d: Option<String>| r@ == config_file_path(d),
{
    config_display_path_in(user_config_dir())
}

/// Operation in flight; only one runs at a time.
#[derive(Debug, Clone, Copy, PartialEq, Eq, Structural)]
pub enum GoogleAuthOpState {
    Idle,
    Authenticating,
}

/// What a Google sign-in step signals.
#[derive(Debug, Clone, Copy, PartialEq, Eq, Structural)]
pub struct GoogleAuthEffect {
    pub auth_changed: bool,
    pub auth_completed: bool,
}

/// State of the Google sign-in.
#[derive(Debug, Clone)]
pub struct GoogleAuthModel {
    pub loading: bool,
    pub authenticated: bool,
    pub error_message: String,
    pub user_email: String,
    pub op_state: GoogleAuthOpState,
}

impl GoogleAuthModel {
    /// Signed out, with nothing in flight.
    pub fn new() -> (r: Self)
        ensures
            !r.loading && !r.authenticated,
            r.error_message@.len() == 0 && r.user_email@.len() == 0,
            r.op_state == GoogleAuthOpState::Idle,
    {
        GoogleAuthModel {
            loading: false,
            authenticated: false,
            error_message: String::new(),
            user_email: String::new(),
            op_state: GoogleAuthOpState::Idle,
        }
    }

    /// Start the Google sign-in.  `credentials` is the client id and secret
    /// of the configuration, if it has them; `config_path` is where the
    /// configuration file is (for the message when it has not).  Returns the
    /// credentials to run the sign-in flow with.
    pub fn authenticate(&mut self, credentials: Option<(String, String)>, config_path: &str) -> (r: Option<(String, String)>)
        ensures
            old(self).op_state != GoogleAuthOpState::Idle ==> r is None && *final(self) == *old(self),
            old(self).op_state == GoogleAuthOpState::Idle ==> match credentials {
                None => {
                    &&& r is None
                    &&& final(self).error_message@
                        == "Google OAuth not configured. Add a [google] section with client_id and client_secret to "@
                        + config_path@
                    &&& *final(self) == (GoogleAuthModel { error_message: final(self).error_message, ..*old(self) })
                },
                Some(c) => {
                    &&& r == Some(c)
                    &&& final(self).error_message@.len() == 0
                    &&& *final(self) == (GoogleAuthModel {
                        loading: true,
                        error_message: final(self).error_message,
                        op_state: GoogleAuthOpState::Authenticating,
                        ..*old(self)
                    })
                },
            },
    {
        match self.op_state {
            GoogleAuthOpState::Idle => {},
            GoogleAuthOpState::Authenticating => return None,
        }
        let c = match credentials {
            Some(c) => c,
            None => {
                self.error_message = concat(
                    "Google OAuth not configured. Add a [google] section with client_id and client_secret to ",
                    config_path,
                );
                return None;
            },
        };
        self.loading = true;
        self.error_message = String::new();
        self.op_state = GoogleAuthOpState::Authenticating;
        Some(c)
    }

    /// Apply the outcome of the sign-in flow, if it finished: the signed-in
    /// account's email address, or the error's text.
    pub fn poll_channel(&mut self, result: Option<Result<String, String>>) -> (e: GoogleAuthEffect)
        ensures
            match result {
                None => *final(self) == *old(self) && e == (GoogleAuthEffect { auth_changed: false, auth_completed: false }),
                Some(Ok(email)) => {
                    &&& final(self).error_message@.len() == 0
                    &&& *final(self) == (GoogleAuthModel {
                        loading: false,
                        op_state: GoogleAuthOpState::Idle,
                        error_message: final(self).error_message,
                        authenticated: true,
                        user_email: email,
                        ..*old(self)
                    })
                    &&& e == (GoogleAuthEffect { auth_changed: true, auth_completed: true })
                },
                Some(Err(err)) => {
                    &&& *final(self) == (GoogleAuthModel {
                        loading: false,
                        op_state: GoogleAuthOpState::Idle,
                        error_message: err,
                        authenticated: false,
                        ..*old(self)
                    })
                    &&& e == (GoogleAuthEffect { auth_changed: false, auth_completed: false })
                },
            },
    {
        let quiet = GoogleAuthEffect { auth_changed: false, auth_completed: false };
        let result = match result {
            Some(r) => r,
            None => return quiet,
        };
        self.loading = false;
        self.op_state = GoogleAuthOpState::Idle;
        match result {
            Ok(email) => {
                self.error_message = String::new();
                self.authenticated = true;
                self.user_email = email;
                GoogleAuthEffect { auth_changed: true, auth_completed: true }
            },
            Err(err) => {
                self.error_message = err;
                self.authenticated = false;
                quiet
            },
        }
    }

    /// Refresh the authentication flag: signed in when a Google token is
    /// stored, could be read, and has not expired.  `stored_expired` is
    /// whether the stored token has expired, `None` when it could not be
    /// read.
    pub fn check_auth(&mut self, has_token: bool, stored_expired: Option<bool>)
        ensures
            *final(self) == (GoogleAuthModel {
                authenticated: has_token && stored_expired == Some(false),
                ..*old(self)
            }),
    {
        self.authenticated = has_token && match stored_expired {
            Some(expired) => !expired,
            None => false,
        };
    }

    /// Apply the outcome of removing the stored Google token (`Err` carries
    /// the error's user message).  Returns whether the sign-in changed.
    pub fn sign_out(&mut self, result: Result<(), String>) -> (changed: bool)
        ensures
            match result {
                Ok(()) => {
                    &&& changed
                    &&& final(self).user_email@.len() == 0 && final(self).error_message@.len() == 0
                    &&& *final(self) == (GoogleAuthModel {
                        authenticated: false,
                        user_email: final(self).user_email,
                        error_message: final(self).error_message,
                        ..*old(self)
                    })
                },
                Err(msg) => !changed && *final(self) == (GoogleAuthModel { error_message: msg, ..*old(self) }),
            },
    {
        match result {
            Ok(()) => {
                self.authenticated = false;
                self.user_email = String::new();
                self.error_message = String::new();
                true
            },
            Err(msg) => {
                self.error_message = msg;
                false
            },
        }
    }
}

} // verus!
