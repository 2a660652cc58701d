//! User statuses and locales.
use vstd::prelude::*;

use super::UnknownValue;
use crate::text::str_eq;

verus! {

/// The state of a user's account.
#[derive(PartialEq, Eq, Structural, Clone, Copy, Debug)]
pub enum UserStatus {
    Active,
    Blocked,
    Forbidden,
    TokenInvalid,
    NoStatus,
}

/// The value stored for each variant.
pub open spec fn value_spec(s: UserStatus) -> Seq<char> {
    match s {
        UserStatus::Active => "active"@,
        UserStatus::Blocked => "blocked"@,
        UserStatus::Forbidden => "forbidden"@,
        UserStatus::TokenInvalid => "token_invalid"@,
        UserStatus::NoStatus => "none"@,
    }
}

impl UserStatus {
    /// The stored value.
    pub fn to_value(&self) -> (res: &'static str)
        ensures
            res@ == value_spec(*self),
    {
        match self {
            UserStatus::Active => "active",
            UserStatus::Blocked => "blocked",
            UserStatus::Forbidden => "forbidden",
            UserStatus::TokenInvalid => "token_invalid",
            UserStatus::NoStatus => "none",
        }
    }

    /// The variant whose stored value is `value`.
    pub fn from_value(value: &str) -> (res: Result<UserStatus, UnknownValue>)
        ensures
            match res {
                Ok(s) => value_spec(s) == value@,
                Err(e) => e.value@ == value@ && forall|s: UserStatus| value_spec(s) != value@,
            },
    {
        if str_eq(value, "active") {
            Ok(UserStatus::Active)
        } else if str_eq(value, "blocked") {
            Ok(UserStatus::Blocked)
        } else if str_eq(value, "forbidden") {
            Ok(UserStatus::Forbidden)
        } else if str_eq(value, "token_invalid") {
            Ok(UserStatus::TokenInvalid)
        } else if str_eq(value, "none") {
            Ok(UserStatus::NoStatus)
        } else {
            Err(UnknownValue { value: value.to_owned() })
        }
    }
}

impl Default for UserStatus {
    fn default() -> (s: Self)
        ensures
            s == UserStatus::NoStatus,
    {
        UserStatus::NoStatus
    }
}

/// Different variants are stored as different values, so reading back a stored value
/// gives the variant that was stored.
pub proof fn lemma_value_round_trip(s: UserStatus, t: UserStatus)
    requires
        value_spec(s) == value_spec(t),
    ensures
        s == t,
{
    reveal_strlit("active");
    assert(value_spec(UserStatus::Active).len() == 6);
    reveal_strlit("blocked");
    assert(value_spec(UserStatus::Blocked).len() == 7);
    reveal_strlit("forbidden");
    assert(value_spec(UserStatus::Forbidden).len() == 9);
    reveal_strlit("token_invalid");
    assert(value_spec(UserStatus::TokenInvalid).len() == 13);
    reveal_strlit("none");
    assert(value_spec(UserStatus::NoStatus).len() == 4);
}

/// The language a user talks to the bot in.
#[derive(PartialEq, Eq, Structural, Clone, Copy, Debug)]
pub enum Locale {
    Russian,
    English,
}

/// The stored code of each locale.
pub open spec fn locale_code(l: Locale) -> Seq<char> {
    match l {
        Locale::Russian => "ru"@,
        Locale::English => "en"@,
    }
}

impl Locale {
    /// The name of the locale's language.
    pub fn language(&self) -> (res: &'static str)
        ensures
            res@ == match *self {
                Locale::Russian => "Russian"@,
                Locale::English => "English"@,
            },
    {
        match self {
            Self::Russian => "Russian",
            Self::English => "English",
        }
    }

    /// The locale's code, which is also what is stored.
    pub fn as_str(&self) -> (res: &'static str)
        ensures
            res@ == locale_code(*self),
    {
        match self {
            Self::Russian => "ru",
            Self::English => "en",
        }
    }

    /// The locale whose code is `value`.
    pub fn from_value(value: &str) -> (res: Result<Locale, UnknownValue>)
        ensures
            match res {
                Ok(l) => locale_code(l) == value@,
                Err(e) => e.value@ == value@ && forall|l: Locale| locale_code(l) != value@,
            },
    {
        if str_eq(value, "ru") {
            Ok(Locale::Russian)
        } else if str_eq(value, "en") {
            Ok(Locale::English)
        } else {
            Err(UnknownValue { value: value.to_owned() })
        }
    }
}

impl Default for Locale {
    fn default() -> (l: Self)
        ensures
            l == Locale::English,
    {
        Locale::English
    }
}

/// Different locales have different codes.
pub proof fn lemma_locale_round_trip(a: Locale, b: Locale)
    requires
        locale_code(a) == locale_code(b),
    ensures
        a == b,
{
    reveal_strlit("ru");
    reveal_strlit("en");
    assert(locale_code(Locale::Russian)[0] == 'r');
    assert(locale_code(Locale::English)[0] == 'e');
}

} // verus!
