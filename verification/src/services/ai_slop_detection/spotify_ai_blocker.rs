//! The "Spotify AI Music Blocker" list of AI artists.
use vstd::prelude::*;

use super::AISlopDetectionPrediction;
use crate::text::concat;

verus! {

/// Checks artists against the "Spotify AI Music Blocker" list, mirrored in redis.
pub struct SpotifyAIBlockerProvider {}

impl SpotifyAIBlockerProvider {
    /// The redis key marking the list as mirrored.
    pub fn populated_key() -> (key: &'static str)
        ensures
            key@ == "rustify:ai_slop:spotify_ai_blocker:populated"@,
    {
        "rustify:ai_slop:spotify_ai_blocker:populated"
    }

    /// The mirror is refreshed ten minutes before its entries expire: after 23 h 50 min.
    pub fn populated_ttl_secs() -> (secs: u64)
        ensures
            secs == 85800,
    {
        24 * 60 * 60 - 10 * 60
    }

    /// Each mirrored artist lives for a day.
    pub fn artist_ttl_secs() -> (secs: u64)
        ensures
            secs == 86400,
    {
        24 * 60 * 60
    }

    /// The redis key marking an artist, by Spotify id, as AI.
    pub fn artist_key(artist_id: &str) -> (key: String)
        ensures
            key@ == "rustify:ai_slop:spotify_ai_blocker:artist:"@ + artist_id@,
    {
        concat("rustify:ai_slop:spotify_ai_blocker:artist:", artist_id)
    }

    /// An artist on the list makes the track pure AI.
    pub fn detect(listed: bool) -> (res: AISlopDetectionPrediction)
        ensures
            res == if listed { AISlopDetectionPrediction::PureAI } else { AISlopDetectionPrediction::HumanMade },
    {
        if listed {
            AISlopDetectionPrediction::PureAI
        } else {
            AISlopDetectionPrediction::HumanMade
        }
    }
}

} // verus!
