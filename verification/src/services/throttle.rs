//! How long to wait before polling an idle user's player again.
use vstd::prelude::*;

use crate::text::concat;

verus! {

/// Slows down polling of users whose player has been idle for a while.
pub struct ThrottleService {}

/// Seconds to wait before the next poll after `count` idle polls in a row:
/// 10 s during the first minute, 15 s for the next ten minutes, 20 s for the
/// next hour, 1 min for the next day, 3 min for the next week and 5 min after that.
pub open spec fn suspend_secs_spec(count: u64) -> i64 {
    if count < 6 {
        10
    } else if count < 46 {
        15
    } else if count < 226 {
        20
    } else if count < 1440 {
        60
    } else if count < 4800 {
        180
    } else {
        300
    }
}

impl ThrottleService {
    /// The pause in seconds before polling again, given the stored idle counter.
    pub fn get_suspend_time(count: u64) -> (secs: i64)
        ensures
            secs == suspend_secs_spec(count),
    {
        if count < 6 {
            10
        } else if count < 46 {
            15
        } else if count < 226 {
            20
        } else if count < 1440 {
            60
        } else if count < 4800 {
            180
        } else {
            300
        }
    }

    /// The idle counter as stored, or 0 when nothing is stored.
    pub fn get_idle(stored: Option<u64>) -> (count: u64)
        ensures
            count == match stored {
                Some(c) => c,
                None => 0,
            },
    {
        match stored {
            Some(c) => c,
            None => 0,
        }
    }

    /// The redis key of a user's idle counter.
    pub fn get_key(user_id: &str) -> (key: String)
        ensures
            key@ == "rustify:spotify-throttle:"@ + user_id@,
    {
        concat("rustify:spotify-throttle:", user_id)
    }
}

/// The longer a player stays idle, the longer the pause between polls: the pause never
/// shrinks as the idle counter grows.
pub proof fn lemma_suspend_time_monotone(a: u64, b: u64)
    requires
        a <= b,
    ensures
        suspend_secs_spec(a) <= suspend_secs_spec(b),
        10 <= suspend_secs_spec(a) <= 300,
{
}

} // verus!
