use vstd::prelude::*;

use crate::dates::{now_moment, Moment};
use crate::text::{join_path, joined_path};

verus! {

/// Age, in nanoseconds, above which cached weather is stale (15 minutes).
pub const STALE_THRESHOLD_NANOS: i64 = 900_000_000_000;

/// Age, in nanoseconds, above which cached weather is expired (2 hours).
pub const EXPIRED_THRESHOLD_NANOS: i64 = 7_200_000_000_000;

/// An instant as nanoseconds since the Unix epoch.
pub open spec fn moment_nanos(m: Moment) -> int {
    m.secs * 1_000_000_000 + m.nanos
}

/// The time, in nanoseconds, from `fetched_at` to `now`.
pub open spec fn age_nanos(fetched_at: Moment, now: Moment) -> int {
    moment_nanos(now) - moment_nanos(fetched_at)
}

/// Whether data fetched at `fetched_at` is stale at time `now`.
pub open spec fn stale_at(fetched_at: Moment, now: Moment) -> bool {
    age_nanos(fetched_at, now) > STALE_THRESHOLD_NANOS
}

/// Whether data fetched at `fetched_at` is expired at time `now`.
pub open spec fn expired_at(fetched_at: Moment, now: Moment) -> bool {
    age_nanos(fetched_at, now) > EXPIRED_THRESHOLD_NANOS
}

/// Whole minutes elapsed from `fetched_at` to `now`, truncated toward zero.
pub open spec fn age_in_minutes(fetched_at: Moment, now: Moment) -> int {
    let age = age_nanos(fetched_at, now);
    if age >= 0 {
        age / 60_000_000_000
    } else {
        -((-age) / 60_000_000_000)
    }
}

/// The time, in nanoseconds, from `fetched_at` to `now`.
fn age_between(fetched_at: Moment, now: Moment) -> (r: i128)
    ensures
        r == age_nanos(fetched_at, now),
        -0x1_0000_0000_0000_0000 * 1_000_000_001 <= r <= 0x1_0000_0000_0000_0000 * 1_000_000_001,
{
    (now.secs as i128 - fetched_at.secs as i128) * 1_000_000_000 + (now.nanos as i128 - fetched_at.nanos as i128)
}

/// Persistent weather cache: the file it lives in and, when present, the
/// cached data together with the time (an instant) at
/// which it was fetched.
pub struct WeatherCache<D> {
    cache_path: String,
    data: Option<(D, Moment)>,
}

impl<D> WeatherCache<D> {
    /// The path of the cache file.
    pub closed spec fn path(&self) -> Seq<char> {
        self.cache_path@
    }

    /// The cached data with its fetch time, if any.
    pub closed spec fn contents(&self) -> Option<(D, Moment)> {
        self.data
    }

    /// A new, empty cache stored as `weather_cache.json` in `config_dir`.
    pub fn new(config_dir: &str) -> (r: Self)
        ensures
            r.path() == joined_path(config_dir@, "weather_cache.json"@),
            r.contents() is None,
    {
        WeatherCache { cache_path: join_path(config_dir, "weather_cache.json"), data: None }
    }

    /// A cache at the given path holding the given contents (as read back
    /// from disk).
    pub fn with_contents(cache_path: String, data: Option<(D, Moment)>) -> (r: Self)
        ensures
            r.path() == cache_path@,
            r.contents() == data,
    {
        WeatherCache { cache_path, data }
    }

    /// The path of the cache file.
    pub fn cache_path(&self) -> (r: &str)
        ensures
            r@ == self.path(),
    {
        self.cache_path.as_str()
    }

    /// Replace the cached data with `data`, fetched at `fetched_at` (ms).
    pub fn update(&mut self, data: D, fetched_at: Moment)
        ensures
            final(self).path() == old(self).path(),
            final(self).contents() == Some((data, fetched_at)),
    {
        self.data = Some((data, fetched_at));
    }

    /// The cached data, if any.
    pub fn get(&self) -> (r: Option<&D>)
        ensures
            r matches Some(d) ==> self.contents() matches Some(c) && *d == c.0,
            r is None <==> self.contents() is None,
    {
        match &self.data {
            Some(pair) => Some(&pair.0),
            None => None,
        }
    }

    /// The time at which the cached data was fetched, if any.
    pub fn fetched_at(&self) -> (r: Option<Moment>)
        ensures
            r matches Some(t) ==> self.contents() matches Some(c) && t == c.1,
            r is None <==> self.contents() is None,
    {
        match &self.data {
            Some(pair) => Some(pair.1),
            None => None,
        }
    }

    /// Whether the cache holds data.
    pub fn has_data(&self) -> (r: bool)
        ensures
            r == (self.contents() is Some),
    {
        self.data.is_some()
    }

    /// The cache is stale at time `now`: empty, or older than 15 minutes.
    pub open spec fn stale_when(&self, now: Moment) -> bool {
        match self.contents() {
            Some(c) => stale_at(c.1, now),
            None => true,
        }
    }

    /// The cache is expired at time `now`: empty, or older than 2 hours.
    pub open spec fn expired_when(&self, now: Moment) -> bool {
        match self.contents() {
            Some(c) => expired_at(c.1, now),
            None => true,
        }
    }

    /// Whether the cache is stale at time `now`: empty, or older than 15 minutes.
    pub fn is_stale_at(&self, now: Moment) -> (r: bool)
        ensures
            r == match self.contents() {
                Some(c) => stale_at(c.1, now),
                None => true,
            },
    {
        match &self.data {
            Some(pair) => age_between(pair.1, now) > STALE_THRESHOLD_NANOS as i128,
            None => true,
        }
    }

    /// Whether the cache is expired at time `now`: empty, or older than 2 hours.
    pub fn is_expired_at(&self, now: Moment) -> (r: bool)
        ensures
            r == match self.contents() {
                Some(c) => expired_at(c.1, now),
                None => true,
            },
    {
        match &self.data {
            Some(pair) => age_between(pair.1, now) > EXPIRED_THRESHOLD_NANOS as i128,
            None => true,
        }
    }

    /// Age of the cached data in whole minutes at time `now`, if any.
    pub fn age_minutes_at(&self, now: Moment) -> (r: Option<i64>)
        ensures
            r matches Some(m) ==> self.contents() matches Some(c) && m == age_in_minutes(c.1, now),
            r is None <==> self.contents() is None,
    {
        match &self.data {
            Some(pair) => {
                let age: i128 = age_between(pair.1, now);
                let minutes: i128 = age / 60_000_000_000;
                proof {
                    if age < 0 {
                        assert(-((-age) / 60_000_000_000) >= -((0x1_0000_0000_0000_0000int * 1_000_000_001) / 60_000_000_000));
                    } else {
                        assert(age / 60_000_000_000 <= (0x1_0000_0000_0000_0000int * 1_000_000_001) / 60_000_000_000);
                    }
                }
                Some(minutes as i64)
            },
            None => None,
        }
    }

    /// Whether the cache is stale now: the answer of `is_stale_at` at the
    /// moment the machine's clock reads.
    pub fn is_stale(&self) -> (r: bool)
        ensures
            exists|now: Moment| r == #[trigger] self.stale_when(now),
            self.contents() is None ==> r,
    {
        let now = now_moment();
        let r = self.is_stale_at(now);
        assert(r == self.stale_when(now));
        r
    }

    /// Whether the cache is expired now: the answer of `is_expired_at` at
    /// the moment the machine's clock reads.
    pub fn is_expired(&self) -> (r: bool)
        ensures
            exists|now: Moment| r == #[trigger] self.expired_when(now),
            self.contents() is None ==> r,
    {
        let now = now_moment();
        let r = self.is_expired_at(now);
        assert(r == self.expired_when(now));
        r
    }

    /// Age of the cached data in whole minutes now, if any.
    pub fn age_minutes(&self) -> (r: Option<i64>)
        ensures
            r is None <==> self.contents() is None,
    {
        let now = now_moment();
        self.age_minutes_at(now)
    }
}

/// Expired data is also stale: for every fetch time and every moment,
/// a cache that is expired is stale.
pub proof fn law_expired_is_stale(fetched_at: Moment, now: Moment)
    requires
        expired_at(fetched_at, now),
    ensures
        stale_at(fetched_at, now),
{
}

/// Staleness and expiry only grow with time: data stale (or expired) at
/// one moment stays so at every later moment.
pub proof fn law_freshness_only_decays(fetched_at: Moment, earlier: Moment, later: Moment)
    requires
        moment_nanos(earlier) <= moment_nanos(later),
    ensures
        stale_at(fetched_at, earlier) ==> stale_at(fetched_at, later),
        expired_at(fetched_at, earlier) ==> expired_at(fetched_at, later),
{
}

/// Data just fetched is fresh: at its fetch time it is neither stale nor
/// expired, and its age is zero minutes.
pub proof fn law_fresh_when_fetched(fetched_at: Moment)
    ensures
        !stale_at(fetched_at, fetched_at),
        !expired_at(fetched_at, fetched_at),
        age_in_minutes(fetched_at, fetched_at) == 0,
{
}

} // verus!
