//! The "Soul Over AI" list of AI artists.
use vstd::prelude::*;

use super::AISlopDetectionPrediction;
use crate::text::concat;

verus! {

/// Checks artists against the "Soul Over AI" list, mirrored in redis.
pub struct SoulOverAIProvider {}

/// The artist key prefix of this provider.
pub open spec fn artist_prefix() -> Seq<char> {
    "rustify:ai_slop:soul_over_ai:artist:"@
}

/// The keys to set for a downloaded list: one per artist that has a Spotify id, in order.
pub open spec fn listing_keys_spec(spotify_ids: Seq<Option<String>>) -> Seq<Seq<char>>
    decreases spotify_ids.len(),
{
    if spotify_ids.len() == 0 {
        Seq::empty()
    } else {
        let rest = listing_keys_spec(spotify_ids.drop_last());
        match spotify_ids.last() {
            Some(id) => rest.push(artist_prefix() + id@),
            None => rest,
        }
    }
}

impl SoulOverAIProvider {
    /// The redis key marking the list as mirrored.
    pub fn populated_key() -> (key: &'static str)
        ensures
            key@ == "rustify:ai_slop:soul_over_ai:populated"@,
    {
        "rustify:ai_slop:soul_over_ai:populated"
    }

    /// The mirror is refreshed ten minutes before its entries expire: after 23 h 50 min.
    pub fn populated_ttl_secs() -> (secs: u64)
        ensures
            secs == 85800,
    {
        24 * 60 * 60 - 10 * 60
    }

    /// Each mirrored artist lives for a day.
    pub fn artist_ttl_secs() -> (secs: u64)
        ensures
            secs == 86400,
    {
        24 * 60 * 60
    }

    /// The redis key marking an artist, by Spotify id, as AI.
    pub fn artist_key(artist_id: &str) -> (key: String)
        ensures
            key@ == artist_prefix() + artist_id@,
    {
        concat("rustify:ai_slop:soul_over_ai:artist:", artist_id)
    }

    /// The keys to set for a downloaded list; artists without a Spotify id are skipped.
    pub fn listing_keys(spotify_ids: &Vec<Option<String>>) -> (keys: Vec<String>)
        ensures
            keys@.map_values(|k: String| k@) == listing_keys_spec(spotify_ids@),
    {
        let mut keys: Vec<String> = Vec::new();
        let mut i: usize = 0;
        assert(spotify_ids@.take(0) =~= Seq::<Option<String>>::empty());
        while i < spotify_ids.len()
            invariant
                i <= spotify_ids@.len(),
                keys@.map_values(|k: String| k@) == listing_keys_spec(spotify_ids@.take(i as int)),
            decreases spotify_ids@.len() - i,
        {
            assert(spotify_ids@.take(i + 1).drop_last() =~= spotify_ids@.take(i as int));
            if let Some(id) = &spotify_ids[i] {
                let k = Self::artist_key(id.as_str());
                keys.push(k);
            }
            assert(keys@.map_values(|k: String| k@) =~= listing_keys_spec(spotify_ids@.take(i + 1)));
            i += 1;
        }
        assert(spotify_ids@.take(spotify_ids@.len() as int) =~= spotify_ids@);
        keys
    }

    /// An artist on the list makes the track pure AI.
    pub fn detect(listed: bool) -> (res: AISlopDetectionPrediction)
        ensures
            res == if listed { AISlopDetectionPrediction::PureAI } else { AISlopDetectionPrediction::HumanMade },
    {
        if listed {
            AISlopDetectionPrediction::PureAI
        } else {
            AISlopDetectionPrediction::HumanMade
        }
    }
}

/// Why mirroring the list failed while another worker was doing it.
#[derive(PartialEq, Eq, Structural, Clone, Copy, Debug)]
pub enum PopulateFailure {
    /// The other worker finished without mirroring the list.
    ByOther,
    /// The other worker did not finish in time.
    Timeout,
}

/// The next step of making sure the list is mirrored.
#[derive(PartialEq, Eq, Structural, Clone, Copy, Debug)]
pub enum PopulateStep {
    /// The list is mirrored.
    Done,
    /// Download and mirror the list here (and then mark it mirrored).
    Populate,
    /// Another worker is mirroring: wait a little and look again.
    Wait,
    Fail(PopulateFailure),
}

impl SoulOverAIProvider {
    /// The first step: nothing to do when the list is mirrored; the worker that
    /// raises the "populating" flag mirrors it; any other waits.
    pub fn start_step(populated: bool, won_flag: bool) -> (res: PopulateStep)
        ensures
            populated ==> res == PopulateStep::Done,
            !populated && won_flag ==> res == PopulateStep::Populate,
            !populated && !won_flag ==> res == PopulateStep::Wait,
    {
        if populated {
            PopulateStep::Done
        } else if won_flag {
            PopulateStep::Populate
        } else {
            PopulateStep::Wait
        }
    }

    /// A step of waiting for another worker, after a pause: past the deadline it
    /// fails; while the flag is up it waits on; once it is down the list is
    /// mirrored or the other worker failed.
    pub fn wait_step(before_deadline: bool, populating: bool, populated: bool) -> (res: PopulateStep)
        ensures
            !before_deadline ==> res == PopulateStep::Fail(PopulateFailure::Timeout),
            before_deadline && populating ==> res == PopulateStep::Wait,
            before_deadline && !populating && populated ==> res == PopulateStep::Done,
            before_deadline && !populating && !populated ==> res == PopulateStep::Fail(
                PopulateFailure::ByOther,
            ),
    {
        if !before_deadline {
            PopulateStep::Fail(PopulateFailure::Timeout)
        } else if populating {
            PopulateStep::Wait
        } else if populated {
            PopulateStep::Done
        } else {
            PopulateStep::Fail(PopulateFailure::ByOther)
        }
    }
}

} // verus!
