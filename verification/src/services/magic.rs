//! Remembering which tracks the "magic" playlist cleanup already removed.
use vstd::prelude::*;

use crate::text::concat;

verus! {

/// Marks tracks removed by the magic playlist cleanup for a short while.
pub struct MagicService {}

impl MagicService {
    /// The redis key marking `track_id` as removed for `user_id`.
    pub fn key(user_id: &str, track_id: &str) -> (key: String)
        ensures
            key@ == "rustify:magic:"@ + user_id@ + ":"@ + track_id@,
    {
        let k = concat("rustify:magic:", user_id);
        let k = concat(k.as_str(), ":");
        concat(k.as_str(), track_id)
    }

    /// How long, in seconds, the mark lives: ten minutes.
    pub fn removed_ttl_secs() -> (secs: u64)
        ensures
            secs == 600,
    {
        10 * 60
    }
}

} // verus!
