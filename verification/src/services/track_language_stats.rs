//! How many of a user's tracks were in each language.
use vstd::prelude::*;

use crate::language::{iso639_3_language, lookup_639_3};

verus! {

/// Counting the languages of checked tracks; the database is driven by the caller.
pub struct TrackLanguageStatsService {}

/// The row that counts one more track of a language for a user; a stored row
/// for the same user and language gets its count raised by this one.
#[derive(Debug, Clone, PartialEq, Eq)]
pub struct LanguageCount {
    pub user_id: String,
    /// The language's ISO 639-3 code, `None` when no lyrics were found.
    pub language: Option<String>,
    pub count: i32,
}

/// A stored language code, looked up: `None` when there is none or `isolang`
/// does not know it.
pub open spec fn decoded_language(code: Option<Seq<char>>) -> Option<Seq<char>> {
    match code {
        Some(c) => iso639_3_language(c),
        None => None,
    }
}

impl TrackLanguageStatsService {
    /// The row for one more track of `language` (see [`LanguageCount`]).
    pub fn increment(user_id: &str, language: Option<String>) -> (r: LanguageCount)
        ensures
            r.user_id@ == user_id@,
            r.language == language,
            r.count == 1,
    {
        LanguageCount { user_id: user_id.to_owned(), language, count: 1 }
    }

    /// How a language is labelled in logs and metrics: its code, or "none".
    pub fn label(language: &Option<String>) -> (res: String)
        ensures
            res@ == match language {
                Some(l) => l@,
                None => "none"@,
            },
    {
        match language {
            Some(l) => l.as_str().to_owned(),
            None => String::from_str("none"),
        }
    }

    /// Stored counts with their language codes looked up, in the same order.
    pub fn decode<T: Copy>(rows: &Vec<(Option<String>, T)>) -> (res: Vec<(Option<String>, T)>)
        ensures
            res@.len() == rows@.len(),
            forall|i: int|
                0 <= i < rows@.len() ==> (#[trigger] res@[i]).1 == rows@[i].1 && match res@[i].0 {
                    Some(l) => decoded_language(
                        match rows@[i].0 {
                            Some(c) => Some(c@),
                            None => None,
                        },
                    ) == Some(l@),
                    None => decoded_language(
                        match rows@[i].0 {
                            Some(c) => Some(c@),
                            None => None,
                        },
                    ) is None,
                },
    {
        let mut res: Vec<(Option<String>, T)> = Vec::new();
        let mut i: usize = 0;
        while i < rows.len()
            invariant
                i <= rows@.len(),
                res@.len() == i,
                forall|k: int|
                    0 <= k < i ==> (#[trigger] res@[k]).1 == rows@[k].1 && match res@[k].0 {
                        Some(l) => decoded_language(
                            match rows@[k].0 {
                                Some(c) => Some(c@),
                                None => None,
                            },
                        ) == Some(l@),
                        None => decoded_language(
                            match rows@[k].0 {
                                Some(c) => Some(c@),
                                None => None,
                            },
                        ) is None,
                    },
            decreases rows@.len() - i,
        {
            let language = match &rows[i].0 {
                Some(code) => lookup_639_3(code.as_str()),
                None => None,
            };
            res.push((language, rows[i].1));
            i += 1;
        }
        res
    }
}

} // verus!
