use vstd::prelude::*;

use crate::text::{join_path, joined_path};

verus! {

/// The user's configuration directory, if the platform has one.
///
/// Calls `dirs::config_dir` and takes the path as text.  The answer depends
/// on the platform and the environment: nothing is stated of it.
#[verifier::external_body]
pub(crate) fn user_config_dir() -> (r: Option<String>) {
    dirs::config_dir().map(|p| p.to_string_lossy().into_owned())
}

/// The application's configuration directory inside `config_dir` (the
/// user's configuration directory, or `.` when there is none).
pub open spec fn myme_dir(config_dir: Option<String>) -> Seq<char> {
    joined_path(
        match config_dir {
            Some(d) => d@,
            None => "."@,
        },
        "myme"@,
    )
}

/// The path of the Google cache file `name` in the application's
/// configuration directory, given the user's configuration directory.
pub fn google_cache_path_in(config_dir: Option<String>, name: &str) -> (r: String)
    ensures
        r@ == joined_path(myme_dir(config_dir), name@),
{
    let base = match config_dir {
        Some(d) => d,
        None => crate::text::owned("."),
    };
    let dir = join_path(base.as_str(), "myme");
    join_path(dir.as_str(), name)
}

/// The path of the Google cache file `name` in the application's
/// configuration directory.
pub fn get_google_cache_path(name: &str) -> (r: String)
    ensures
        exists|d: Option<String>| r@ == joined_path(myme_dir(d), name@),
{
    let d = user_config_dir();
    google_cache_path_in(d, name)
}

/// Seconds between Google syncs when the configuration sets none.
pub const DEFAULT_SYNC_INTERVAL_SECS: u64 = 300;

/// The sync interval in seconds: the one the configuration's `[google]`
/// section sets (`None` when the configuration could not be read or has no
/// such section), else the default.
pub fn sync_interval_secs(configured: Option<u64>) -> (r: u64)
    ensures
        r == match configured {
            Some(n) => n,
            None => DEFAULT_SYNC_INTERVAL_SECS,
        },
{
    match configured {
        Some(n) => n,
        None => DEFAULT_SYNC_INTERVAL_SECS,
    }
}

} // verus!
