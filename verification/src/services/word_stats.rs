//! How often each profane word came up, and its stored definitions.
use vstd::prelude::*;


verus! {

/// The word statistics; the database is driven by the caller.
pub struct WordStatsService {}

/// A row of word statistics: how often the word was found in a check, asked
/// about for details, and analysed.
#[derive(Debug, Clone, PartialEq, Eq)]
pub struct WordStatsRow {
    pub word: String,
    pub details_occurrences: i32,
    pub check_occurrences: i32,
    pub analyze_occurrences: i32,
}

/// A word's statistics with its definition in a locale, when there is one.
#[derive(Debug, Clone, PartialEq, Eq)]
pub struct StatsWithDefinition {
    pub word: String,
    pub locale: String,
    pub definition: Option<String>,
    pub check_occurrences: i32,
    pub details_occurrences: i32,
    pub analyze_occurrences: i32,
}

/// Which counter an occurrence raises.
#[derive(PartialEq, Eq, Structural, Clone, Copy, Debug)]
pub enum Occurrence {
    Check,
    Details,
    Analyze,
}

/// The increments `(details, check, analyze)` of one occurrence.
pub open spec fn increments_spec(o: Occurrence) -> (i32, i32, i32) {
    match o {
        Occurrence::Check => (0, 1, 0),
        Occurrence::Details => (1, 0, 0),
        Occurrence::Analyze => (0, 0, 1),
    }
}

/// The definition of `word` among `(word, definition)` pairs: the first that matches.
pub open spec fn definition_of(word: Seq<char>, defs: Seq<(Seq<char>, Seq<char>)>) -> Option<Seq<char>>
    decreases defs.len(),
{
    if defs.len() == 0 {
        None
    } else if defs[0].0 == word {
        Some(defs[0].1)
    } else {
        definition_of(word, defs.drop_first())
    }
}

/// Pairs of strings as plain values.
pub open spec fn defs_view(v: Seq<(String, String)>) -> Seq<(Seq<char>, Seq<char>)> {
    v.map_values(|p: (String, String)| (p.0@, p.1@))
}

fn find_definition(word: &String, defs: &Vec<(String, String)>) -> (res: Option<String>)
    ensures
        match res {
            Some(d) => definition_of(word@, defs_view(defs@)) == Some(d@),
            None => definition_of(word@, defs_view(defs@)) is None,
        },
{
    let ghost all = defs_view(defs@);
    let mut i: usize = 0;
    assert(all.skip(0) =~= all);
    while i < defs.len()
        invariant
            i <= defs@.len(),
            all == defs_view(defs@),
            definition_of(word@, all) == definition_of(word@, all.skip(i as int)),
        decreases defs@.len() - i,
    {
        let ghost rest = all.skip(i as int);
        assert(rest[0] == (defs@[i as int].0@, defs@[i as int].1@));
        assert(rest.drop_first() =~= all.skip(i + 1));
        if defs[i].0 == *word {
            return Some(defs[i].1.as_str().to_owned());
        }
        i += 1;
    }
    assert(all.skip(i as int).len() == 0);
    None
}

impl WordStatsService {
    /// The increments of one occurrence (see [`increments_spec`]).
    pub fn increments(o: Occurrence) -> (res: (i32, i32, i32))
        ensures
            res == increments_spec(o),
    {
        match o {
            Occurrence::Check => (0, 1, 0),
            Occurrence::Details => (1, 0, 0),
            Occurrence::Analyze => (0, 0, 1),
        }
    }

    /// The rows that count one occurrence of each word; a stored row for the
    /// same word gets its counters raised by these.  No words, no rows.
    pub fn occurrence_rows(words: &Vec<String>, o: Occurrence) -> (res: Vec<WordStatsRow>)
        ensures
            res@.len() == words@.len(),
            forall|i: int|
                0 <= i < words@.len() ==> (#[trigger] res@[i]).word@ == words@[i]@ && (
                res@[i].details_occurrences,
                res@[i].check_occurrences,
                res@[i].analyze_occurrences,
            ) == increments_spec(o),
    {
        let (details, check, analyze) = Self::increments(o);
        let mut res: Vec<WordStatsRow> = Vec::new();
        let mut i: usize = 0;
        while i < words.len()
            invariant
                i <= words@.len(),
                res@.len() == i,
                (details, check, analyze) == increments_spec(o),
                forall|k: int|
                    0 <= k < i ==> (#[trigger] res@[k]).word@ == words@[k]@ && (
                        res@[k].details_occurrences,
                        res@[k].check_occurrences,
                        res@[k].analyze_occurrences,
                    ) == increments_spec(o),
            decreases words@.len() - i,
        {
            res.push(
                WordStatsRow {
                    word: words[i].as_str().to_owned(),
                    details_occurrences: details,
                    check_occurrences: check,
                    analyze_occurrences: analyze,
                },
            );
            i += 1;
        }
        res
    }

    /// The number of rows skipped before page `page` of `page_size` rows.
    pub fn page_offset(page: usize, page_size: usize) -> (res: usize)
        requires
            page * page_size <= usize::MAX,
        ensures
            res == page * page_size,
    {
        page * page_size
    }

    /// The statistics of a page with the definitions found for them in
    /// `locale` (given as `(word, definition)` pairs), in the same order.
    pub fn with_definitions(
        stats: &Vec<WordStatsRow>,
        definitions: &Vec<(String, String)>,
        locale: &str,
    ) -> (res: Vec<StatsWithDefinition>)
        ensures
            res@.len() == stats@.len(),
            forall|i: int|
                0 <= i < stats@.len() ==> {
                    let r = #[trigger] res@[i];
                    let s = stats@[i];
                    &&& r.word@ == s.word@
                    &&& r.locale@ == locale@
                    &&& r.check_occurrences == s.check_occurrences
                    &&& r.details_occurrences == s.details_occurrences
                    &&& r.analyze_occurrences == s.analyze_occurrences
                    &&& match r.definition {
                        Some(d) => definition_of(s.word@, defs_view(definitions@)) == Some(d@),
                        None => definition_of(s.word@, defs_view(definitions@)) is None,
                    }
                },
    {
        let mut res: Vec<StatsWithDefinition> = Vec::new();
        let mut i: usize = 0;
        while i < stats.len()
            invariant
                i <= stats@.len(),
                res@.len() == i,
                forall|k: int|
                    0 <= k < i ==> {
                        let r = #[trigger] res@[k];
                        let s = stats@[k];
                        &&& r.word@ == s.word@
                        &&& r.locale@ == locale@
                        &&& r.check_occurrences == s.check_occurrences
                        &&& r.details_occurrences == s.details_occurrences
                        &&& r.analyze_occurrences == s.analyze_occurrences
                        &&& match r.definition {
                            Some(d) => definition_of(s.word@, defs_view(definitions@)) == Some(d@),
                            None => definition_of(s.word@, defs_view(definitions@)) is None,
                        }
                    },
            decreases stats@.len() - i,
        {
            let s = &stats[i];
            let definition = find_definition(&s.word, definitions);
            res.push(
                StatsWithDefinition {
                    word: s.word.as_str().to_owned(),
                    locale: locale.to_owned(),
                    definition,
                    check_occurrences: s.check_occurrences,
                    details_occurrences: s.details_occurrences,
                    analyze_occurrences: s.analyze_occurrences,
                },
            );
            i += 1;
        }
        res
    }
}

} // verus!
