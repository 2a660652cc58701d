//! The SubmitHub AI song checker.
use vstd::prelude::*;

use super::AISlopDetectionPrediction;
use crate::text::concat;

verus! {

/// SubmitHub's prediction for a track.
#[derive(PartialEq, Eq, Structural, Clone, Copy, Debug)]
pub enum Prediction {
    HumanMade,
    PureAI,
    PureAIGenerated,
    ProcessedAI,
    ProcessedAIGenerated,
}

/// How many requests SubmitHub still allows.
#[derive(PartialEq, Eq, Structural, Clone, Copy, Debug)]
pub struct Usage {
    pub daily_remaining: i64,
    pub monthly_remaining: i64,
}

pub open spec fn to_detection_spec(p: Prediction) -> AISlopDetectionPrediction {
    match p {
        Prediction::HumanMade => AISlopDetectionPrediction::HumanMade,
        Prediction::PureAI | Prediction::PureAIGenerated => AISlopDetectionPrediction::PureAI,
        Prediction::ProcessedAI | Prediction::ProcessedAIGenerated => AISlopDetectionPrediction::ProcessedAI,
    }
}

/// Pause in seconds after being rate limited, `now` being seconds since midnight:
/// until midnight (at least a second), but an hour at most.
pub open spec fn rate_limit_pause_spec(seconds_from_midnight: u32) -> u64 {
    let until_midnight: int = if 86400 - seconds_from_midnight >= 1 { 86400 - seconds_from_midnight } else { 1 };
    if until_midnight < 3600 { until_midnight as u64 } else { 3600 }
}

/// Talks to SubmitHub's AI song checker.
pub struct SHLabsProvider {}

impl SHLabsProvider {
    /// The redis key that marks SubmitHub as rate limited.
    pub fn rate_limited_key() -> (key: &'static str)
        ensures
            key@ == "rustify:ai_slop:shlabs:rate_limited"@,
    {
        "rustify:ai_slop:shlabs:rate_limited"
    }

    /// The redis key that caches SubmitHub's answer for a track.
    pub fn track_key(track_id: &str) -> (key: String)
        ensures
            key@ == "rustify:ai_slop:shlabs:track:"@ + track_id@,
    {
        concat("rustify:ai_slop:shlabs:track:", track_id)
    }

    /// How long, in seconds, to pause after a rate limit (see [`rate_limit_pause_spec`]).
    pub fn rate_limit_pause(seconds_from_midnight: u32) -> (secs: u64)
        ensures
            secs == rate_limit_pause_spec(seconds_from_midnight),
            1 <= secs <= 3600,
    {
        let until_midnight: i64 = 86400 - seconds_from_midnight as i64;
        let until_midnight: i64 = if until_midnight >= 1 { until_midnight } else { 1 };
        if until_midnight < 3600 {
            until_midnight as u64
        } else {
            3600
        }
    }

    /// A cached answer is kept for a year.
    pub fn cache_ttl_secs() -> (secs: u64)
        ensures
            secs == 31536000,
    {
        365 * 24 * 60 * 60
    }

    /// After an answer, SubmitHub is paused when no request is left for the day.
    pub fn should_pause(usage: &Usage) -> (res: bool)
        ensures
            res == (usage.daily_remaining == 0),
    {
        usage.daily_remaining == 0
    }

    /// The detection that a SubmitHub answer amounts to; no answer counts as human made.
    pub fn detect(answer: Option<Prediction>) -> (res: AISlopDetectionPrediction)
        ensures
            res == match answer {
                Some(p) => to_detection_spec(p),
                None => AISlopDetectionPrediction::HumanMade,
            },
    {
        match answer {
            None => AISlopDetectionPrediction::default(),
            Some(Prediction::HumanMade) => AISlopDetectionPrediction::HumanMade,
            Some(Prediction::PureAI) | Some(Prediction::PureAIGenerated) => AISlopDetectionPrediction::PureAI,
            Some(Prediction::ProcessedAI) | Some(Prediction::ProcessedAIGenerated) => {
                AISlopDetectionPrediction::ProcessedAI
            },
        }
    }
}

} // verus!
