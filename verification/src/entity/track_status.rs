//! Track statuses.
use vstd::prelude::*;

use super::UnknownValue;
use crate::text::str_eq;

verus! {

/// What a user decided about a track.
#[derive(PartialEq, Eq, Structural, Clone, Copy, Debug)]
pub enum TrackStatus {
    Disliked,
    Ignore,
    NoStatus,
}

/// The value stored for each variant.
pub open spec fn value_spec(s: TrackStatus) -> Seq<char> {
    match s {
        TrackStatus::Disliked => "disliked"@,
        TrackStatus::Ignore => "ignore"@,
        TrackStatus::NoStatus => "none"@,
    }
}

impl TrackStatus {
    /// The stored value.
    pub fn to_value(&self) -> (res: &'static str)
        ensures
            res@ == value_spec(*self),
    {
        match self {
            TrackStatus::Disliked => "disliked",
            TrackStatus::Ignore => "ignore",
            TrackStatus::NoStatus => "none",
        }
    }

    /// The variant whose stored value is `value`.
    pub fn from_value(value: &str) -> (res: Result<TrackStatus, UnknownValue>)
        ensures
            match res {
                Ok(s) => value_spec(s) == value@,
                Err(e) => e.value@ == value@ && forall|s: TrackStatus| value_spec(s) != value@,
            },
    {
        if str_eq(value, "disliked") {
            Ok(TrackStatus::Disliked)
        } else if str_eq(value, "ignore") {
            Ok(TrackStatus::Ignore)
        } else if str_eq(value, "none") {
            Ok(TrackStatus::NoStatus)
        } else {
            Err(UnknownValue { value: value.to_owned() })
        }
    }
}

impl Default for TrackStatus {
    fn default() -> (s: Self)
        ensures
            s == TrackStatus::NoStatus,
    {
        TrackStatus::NoStatus
    }
}

/// Different variants are stored as different values, so reading back a stored value
/// gives the variant that was stored.
pub proof fn lemma_value_round_trip(s: TrackStatus, t: TrackStatus)
    requires
        value_spec(s) == value_spec(t),
    ensures
        s == t,
{
    reveal_strlit("disliked");
    assert(value_spec(TrackStatus::Disliked).len() == 8);
    reveal_strlit("ignore");
    assert(value_spec(TrackStatus::Ignore).len() == 6);
    reveal_strlit("none");
    assert(value_spec(TrackStatus::NoStatus).len() == 4);
}

} // verus!
