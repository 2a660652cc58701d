//! Backing off from polling Spotify for users who have not been active lately.
use vstd::prelude::*;

use crate::text::concat;

verus! {

/// Spaces out polls of a user's player by how long ago the user was last active.
pub struct SpotifyPollingBackoffService {}

/// The pause in seconds for a user idle for `idle` seconds, or `None` when the user has
/// been idle for a week or more and should not be polled at all.
pub open spec fn suspend_spec(idle: i64) -> Option<i64> {
    if idle < 60 {
        Some(6)
    } else if idle < 300 {
        Some(9)
    } else if idle < 600 {
        Some(15)
    } else if idle < 3600 {
        Some(21)
    } else if idle < 86400 {
        Some(30)
    } else if idle < 259200 {
        Some(60)
    } else if idle < 604800 {
        Some(180)
    } else {
        None
    }
}

impl SpotifyPollingBackoffService {
    /// The pause for an idle duration given in seconds: the first of the periods
    /// 1 min, 5 min, 10 min, 1 h, 1 day, 3 days and 1 week that the idle duration is
    /// shorter than picks 6 s, 9 s, 15 s, 21 s, 30 s, 1 min or 3 min; none picks `None`.
    pub fn get_suspend_time(idle_secs: i64) -> (res: Option<i64>)
        ensures
            res == suspend_spec(idle_secs),
    {
        if idle_secs < 60 {
            Some(6)
        } else if idle_secs < 300 {
            Some(9)
        } else if idle_secs < 600 {
            Some(15)
        } else if idle_secs < 3600 {
            Some(21)
        } else if idle_secs < 86400 {
            Some(30)
        } else if idle_secs < 259200 {
            Some(60)
        } else if idle_secs < 604800 {
            Some(180)
        } else {
            None
        }
    }

    /// Seconds elapsed between the last activity and now.
    pub fn get_idle_duration(now: i64, last_activity: i64) -> (idle: i64)
        requires
            -(i64::MAX / 1000) <= now - last_activity <= i64::MAX / 1000,
        ensures
            idle == now - last_activity,
    {
        now - last_activity
    }

    /// The last activity as stored, or `now` when nothing is stored (then `now` is to be
    /// stored as the last activity, which the second component asks for).
    pub fn get_last_activity(stored: Option<i64>, now: i64) -> (res: (i64, bool))
        ensures
            res == match stored {
                Some(t) => (t, false),
                None => (now, true),
            },
    {
        match stored {
            Some(t) => (t, false),
            None => (now, true),
        }
    }

    /// The redis key of a user's last activity.
    pub fn get_key(user_id: &str) -> (key: String)
        ensures
            key@ == "rustify:spotify-polling-backoff:"@ + user_id@,
    {
        concat("rustify:spotify-polling-backoff:", user_id)
    }
}

/// A user idle for longer is never polled more often: if the longer idle duration still
/// gets a pause, the shorter one gets a pause that is no longer.
pub proof fn lemma_backoff_monotone(a: i64, b: i64)
    requires
        a <= b,
    ensures
        suspend_spec(b) is Some ==> suspend_spec(a) is Some && suspend_spec(a)->0 <= suspend_spec(
            b,
        )->0,
        suspend_spec(a) is None ==> suspend_spec(b) is None,
{
}

/// The pause follows the interval table of the polling loop: idle under a minute, 6 s;
/// under 5 minutes, 9 s; under 10 minutes, 15 s; under an hour, 21 s; under a day, 30 s;
/// under 3 days, a minute; under a week, 3 minutes; a week or more, no polling.
pub proof fn lemma_backoff_table(idle: i64)
    ensures
        idle < 60 ==> suspend_spec(idle) == Some(6i64),
        60 <= idle < 5 * 60 ==> suspend_spec(idle) == Some(9i64),
        5 * 60 <= idle < 10 * 60 ==> suspend_spec(idle) == Some(15i64),
        10 * 60 <= idle < 60 * 60 ==> suspend_spec(idle) == Some(21i64),
        60 * 60 <= idle < 24 * 60 * 60 ==> suspend_spec(idle) == Some(30i64),
        24 * 60 * 60 <= idle < 3 * 24 * 60 * 60 ==> suspend_spec(idle) == Some(60i64),
        3 * 24 * 60 * 60 <= idle < 7 * 24 * 60 * 60 ==> suspend_spec(idle) == Some(180i64),
        7 * 24 * 60 * 60 <= idle ==> suspend_spec(idle) is None,
{
}

} // verus!
