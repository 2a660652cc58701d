//! The words each user allowed: they are not reported again.
use vstd::prelude::*;

use crate::text::{lowercase_spec, strings_view, to_lowercase, StringSet};

verus! {

/// The allowed words of users; the database is driven by the caller.
pub struct UserWordWhitelistService;

/// How the insertion of an allowed word ended.
#[derive(Debug, Clone, PartialEq, Eq)]
pub enum InsertOutcome {
    Inserted,
    /// The user had already allowed the word.
    AlreadyThere,
    /// The database failed, with this message.
    Failed(String),
}

impl UserWordWhitelistService {
    /// The form in which a word is stored and looked up: lower case.
    pub fn stored_word(word: &str) -> (res: String)
        ensures
            res@ == lowercase_spec(word@),
    {
        to_lowercase(word)
    }

    /// The allowed words of a user, each once, from the stored rows.
    pub fn ok_words(rows: &Vec<String>) -> (res: StringSet)
        ensures
            res@.no_duplicates(),
            res@.to_set() == strings_view(rows@).to_set(),
    {
        let mut res = StringSet::new();
        let mut i: usize = 0;
        while i < rows.len()
            invariant
                i <= rows@.len(),
                res@.no_duplicates(),
                res@.to_set() == strings_view(rows@).take(i as int).to_set(),
            decreases rows@.len() - i,
        {
            res.insert(rows[i].as_str().to_owned());
            proof {
                let t = strings_view(rows@);
                assert(t.take(i + 1) =~= t.take(i as int).push(t[i as int]));
                t.take(i as int).lemma_push_to_set_commute(t[i as int]);
            }
            i += 1;
        }
        assert(strings_view(rows@).take(i as int) =~= strings_view(rows@));
        res
    }

    /// Whether a word was added: yes when inserted, no when it was there
    /// already; a failure of the database is passed on.
    pub fn added(outcome: InsertOutcome) -> (res: Result<bool, String>)
        ensures
            match outcome {
                InsertOutcome::Inserted => res == Ok::<bool, String>(true),
                InsertOutcome::AlreadyThere => res == Ok::<bool, String>(false),
                InsertOutcome::Failed(m) => res == Err::<bool, String>(m),
            },
    {
        match outcome {
            InsertOutcome::Inserted => Ok(true),
            InsertOutcome::AlreadyThere => Ok(false),
            InsertOutcome::Failed(m) => Err(m),
        }
    }

    /// Whether a word was removed: some row was deleted.
    pub fn removed(rows_affected: u64) -> (res: bool)
        ensures
            res == (rows_affected > 0),
    {
        rows_affected > 0
    }
}

} // verus!
