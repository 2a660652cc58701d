//! Booleans stored as integers.
use vstd::prelude::*;

verus! {

/// Any non-zero integer is `true`.
pub fn deserialize(v: u8) -> (b: bool)
    ensures
        b == (v != 0),
{
    v != 0
}

/// `true` is 1 and `false` is 0.
pub fn serialize(b: bool) -> (v: u8)
    ensures
        v == if b { 1u8 } else { 0u8 },
{
    if b {
        1
    } else {
        0
    }
}

/// Serializing then deserializing gives the boolean back.
pub proof fn lemma_round_trip(b: bool, v: u8, back: bool)
    requires
        v == (if b { 1u8 } else { 0u8 }),
        back == (v != 0),
    ensures
        back == b,
{
}

} // verus!
