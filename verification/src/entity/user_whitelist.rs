//! Whitelist statuses.
use vstd::prelude::*;

use super::UnknownValue;
use crate::text::str_eq;

verus! {

/// Where a user stands with the whitelist.
#[derive(PartialEq, Eq, Structural, Clone, Copy, Debug)]
pub enum UserWhitelistStatus {
    Allowed,
    Denied,
    Pending,
}

/// The value stored for each variant.
pub open spec fn value_spec(s: UserWhitelistStatus) -> Seq<char> {
    match s {
        UserWhitelistStatus::Allowed => "allowed"@,
        UserWhitelistStatus::Denied => "denied"@,
        UserWhitelistStatus::Pending => "pending"@,
    }
}

impl UserWhitelistStatus {
    /// The stored value.
    pub fn to_value(&self) -> (res: &'static str)
        ensures
            res@ == value_spec(*self),
    {
        match self {
            UserWhitelistStatus::Allowed => "allowed",
            UserWhitelistStatus::Denied => "denied",
            UserWhitelistStatus::Pending => "pending",
        }
    }

    /// The variant whose stored value is `value`.
    pub fn from_value(value: &str) -> (res: Result<UserWhitelistStatus, UnknownValue>)
        ensures
            match res {
                Ok(s) => value_spec(s) == value@,
                Err(e) => e.value@ == value@ && forall|s: UserWhitelistStatus| value_spec(s) != value@,
            },
    {
        if str_eq(value, "allowed") {
            Ok(UserWhitelistStatus::Allowed)
        } else if str_eq(value, "denied") {
            Ok(UserWhitelistStatus::Denied)
        } else if str_eq(value, "pending") {
            Ok(UserWhitelistStatus::Pending)
        } else {
            Err(UnknownValue { value: value.to_owned() })
        }
    }
}

impl Default for UserWhitelistStatus {
    fn default() -> (s: Self)
        ensures
            s == UserWhitelistStatus::Pending,
    {
        UserWhitelistStatus::Pending
    }
}

/// Different variants are stored as different values, so reading back a stored value
/// gives the variant that was stored.
pub proof fn lemma_value_round_trip(s: UserWhitelistStatus, t: UserWhitelistStatus)
    requires
        value_spec(s) == value_spec(t),
    ensures
        s == t,
{
    reveal_strlit("allowed");
    assert(value_spec(UserWhitelistStatus::Allowed).len() == 7);
    reveal_strlit("denied");
    assert(value_spec(UserWhitelistStatus::Denied).len() == 6);
    reveal_strlit("pending");
    assert(value_spec(UserWhitelistStatus::Pending).len() == 7);
    assert(value_spec(UserWhitelistStatus::Allowed)[0] == 'a');
    assert(value_spec(UserWhitelistStatus::Pending)[0] == 'p');
}

} // verus!
