//! Counters kept in redis for the metrics exporters.
use vstd::prelude::*;

verus! {

/// Names the counters that the metrics exporters read.
pub struct MetricsService {}

impl MetricsService {
    /// The redis key that counts Spotify 429 responses.
    pub fn spotify_429_key() -> (key: &'static str)
        ensures
            key@ == "rustify:metrics:spotify-429"@,
    {
        "rustify:metrics:spotify-429"
    }

    /// The stored count, or 0 when nothing is stored.
    pub fn spotify_429_get(stored: Option<u64>) -> (count: u64)
        ensures
            count == match stored {
                Some(c) => c,
                None => 0,
            },
    {
        match stored {
            Some(c) => c,
            None => 0,
        }
    }
}

} // verus!
