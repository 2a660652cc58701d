//! Remembering what was already recommended to a user.
use vstd::prelude::*;

use crate::text::concat;

verus! {

/// Keeps the list of tracks already recommended to each user.
pub struct RecommendasionService {}

/// At most this many recommended tracks are kept.
pub const RECOMMENDED_KEEP: usize = 1000;

impl RecommendasionService {
    /// The redis key of a user's recommended tracks.
    pub fn key(user_id: &str) -> (key: String)
        ensures
            key@ == "rustify:recommendasion:"@ + user_id@ + ":recommended"@,
    {
        let k = concat("rustify:recommendasion:", user_id);
        concat(k.as_str(), ":recommended")
    }

    /// The first (at most) 1000 of the recommended tracks, which are the ones kept.
    pub fn kept<T: Copy>(recommended: &[T]) -> (res: Vec<T>)
        ensures
            res@ == recommended@.take(
                if recommended@.len() < RECOMMENDED_KEEP { recommended@.len() as int } else { RECOMMENDED_KEEP as int },
            ),
    {
        let n = if recommended.len() < RECOMMENDED_KEEP { recommended.len() } else { RECOMMENDED_KEEP };
        let mut res: Vec<T> = Vec::new();
        let mut i: usize = 0;
        while i < n
            invariant
                i <= n <= recommended@.len(),
                res@ == recommended@.take(i as int),
            decreases n - i,
        {
            res.push(recommended[i]);
            assert(recommended@.take(i + 1) =~= recommended@.take(i as int).push(recommended@[i as int]));
            i += 1;
        }
        res
    }

    /// How long, in seconds, the list lives: thirty days.
    pub fn ttl_secs() -> (secs: u64)
        ensures
            secs == 2592000,
    {
        30 * 24 * 60 * 60
    }
}

} // verus!
