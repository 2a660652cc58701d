//! Lyrics of a track, looked up with several providers in turn.
use vstd::prelude::*;

use crate::language::language_of_639_1_spec;
use crate::text::{decimal_spec, strings_view, u64_to_string};

pub mod azlyrics;
pub mod genius;
pub mod lrclib;
pub mod musixmatch;
pub mod utils;

verus! {

/// A lyrics provider.
#[derive(PartialEq, Eq, Structural, Clone, Copy, Debug)]
pub enum Provider {
    Musixmatch,
    Genius,
    LrcLib,
}

/// The name of a provider, as it is displayed.
pub open spec fn provider_name_spec(p: Provider) -> Seq<char> {
    match p {
        Provider::Musixmatch => "Musixmatch"@,
        Provider::Genius => "Genius"@,
        Provider::LrcLib => "LrcLib"@,
    }
}

impl Provider {
    /// The provider's displayed name (see [`provider_name_spec`]).
    pub fn name(&self) -> (res: String)
        ensures
            res@ == provider_name_spec(*self),
    {
        match self {
            Provider::Musixmatch => String::from_str("Musixmatch"),
            Provider::Genius => String::from_str("Genius"),
            Provider::LrcLib => String::from_str("LrcLib"),
        }
    }
}

/// The number of a line counted from one: the name of line `index` when a
/// provider knows nothing better.
pub open spec fn default_line_index_spec(index: int) -> Seq<char> {
    decimal_spec((index + 1) as nat)
}

/// `(index + 1).to_string()`.
pub fn default_line_index_name(index: usize) -> (res: String)
    requires
        index < usize::MAX,
    ensures
        res@ == default_line_index_spec(index as int),
{
    u64_to_string((index + 1) as u64)
}


/// The order in which providers are asked for lyrics.
pub open spec fn priority_spec() -> Seq<Provider> {
    seq![Provider::LrcLib, Provider::Genius, Provider::Musixmatch]
}

/// The providers in the order they are asked (see [`priority_spec`]).
pub fn provider_priority() -> (res: Vec<Provider>)
    ensures
        res@ == priority_spec(),
{
    let res = vec![Provider::LrcLib, Provider::Genius, Provider::Musixmatch];
    assert(res@ =~= priority_spec());
    res
}

/// The key under which the lyrics found for a track are cached: `"rustify:lyrics:{id}"`.
pub open spec fn track_cache_key_spec(track_id: Seq<char>) -> Seq<char> {
    "rustify:lyrics:"@ + track_id
}

/// See [`track_cache_key_spec`].
pub fn track_cache_key(track_id: &str) -> (res: String)
    ensures
        res@ == track_cache_key_spec(track_id@),
{
    let mut res = String::from_str("rustify:lyrics:");
    res.append(track_id);
    res
}

/// How asking one provider ended.
#[derive(PartialEq, Eq, Structural, Clone, Copy, Debug)]
pub enum ProviderOutcome {
    /// The provider found lyrics.
    Found,
    /// The provider found none.
    NotFound,
    /// Asking the provider failed; the failure is logged and the search goes on.
    Failed,
}

/// What the search for a track's lyrics does next.
#[derive(PartialEq, Eq, Structural, Clone, Copy, Debug)]
pub enum SearchAction {
    /// Ask this provider.
    Ask(Provider),
    /// Cache what this provider found and answer with it.
    Keep(Provider),
    /// No provider found lyrics.
    GiveUp,
}

/// The next step of a search, after `asked` providers were asked in priority
/// order and the last of them ended with `last`.
pub open spec fn next_action_spec(asked: int, last: Option<ProviderOutcome>) -> SearchAction {
    if last == Some(ProviderOutcome::Found) {
        SearchAction::Keep(priority_spec()[asked - 1])
    } else if asked < 3 {
        SearchAction::Ask(priority_spec()[asked])
    } else {
        SearchAction::GiveUp
    }
}

/// The next step of a search (see [`next_action_spec`]): the first provider
/// that finds lyrics wins, a failing provider is passed over like one that
/// finds nothing.
pub fn next_action(asked: usize, last: Option<ProviderOutcome>) -> (res: SearchAction)
    requires
        asked <= 3,
        (asked == 0) == (last is None),
    ensures
        res == next_action_spec(asked as int, last),
{
    let priority = provider_priority();
    if last == Some(ProviderOutcome::Found) {
        SearchAction::Keep(priority[asked - 1])
    } else if asked < 3 {
        SearchAction::Ask(priority[asked])
    } else {
        SearchAction::GiveUp
    }
}

/// What a provider found for a track, whichever provider it was.
#[derive(Debug, Clone)]
pub enum SearchResultData {
    Musixmatch(musixmatch::Lyrics),
    Genius(genius::SearchResult),
    LrcLib(lrclib::SearchResult),
}

/// The lines of the lyrics found.
pub open spec fn data_lyrics_spec(d: SearchResultData) -> Seq<Seq<char>> {
    match d {
        SearchResultData::Musixmatch(l) => musixmatch::lyrics_lines_spec(l),
        SearchResultData::Genius(r) => strings_view(r.lyrics@),
        SearchResultData::LrcLib(r) => strings_view(r.lyrics@),
    }
}

/// The link to the lyrics' source.
pub open spec fn data_link_spec(d: SearchResultData) -> Seq<char> {
    match d {
        SearchResultData::Musixmatch(l) => l.backlink_url@,
        SearchResultData::Genius(r) => r.url@,
        SearchResultData::LrcLib(r) => lrclib::link_spec(r.artist_name@, r.track_name@),
    }
}

/// The label of the link.
pub open spec fn data_link_text_spec(d: SearchResultData, full: bool) -> Seq<char> {
    match d {
        SearchResultData::Musixmatch(l) => musixmatch::link_text_spec(full),
        SearchResultData::Genius(r) => genius::link_text_spec(full, r.confidence@, r.title@),
        SearchResultData::LrcLib(r) => lrclib::link_text_spec(
            full,
            r.confidence@,
            r.artist_name@,
            r.track_name@,
        ),
    }
}

/// The lyrics' language, as an ISO 639-3 code.
pub open spec fn data_language_spec(d: SearchResultData) -> Seq<char> {
    match d {
        SearchResultData::Musixmatch(l) => language_of_639_1_spec(l.language@),
        SearchResultData::Genius(r) => r.language@,
        SearchResultData::LrcLib(r) => r.language@,
    }
}

/// The name of line `index`.
pub open spec fn data_line_index_name_spec(d: SearchResultData, index: int) -> Seq<char> {
    match d {
        SearchResultData::Musixmatch(l) => musixmatch::line_index_name_spec(l, index),
        SearchResultData::Genius(r) => default_line_index_spec(index),
        SearchResultData::LrcLib(r) => if index < r.indexes@.len() {
            r.indexes@[index]@
        } else {
            decimal_spec(index as nat)
        },
    }
}

fn copy_lines(v: &Vec<String>) -> (res: Vec<String>)
    ensures
        strings_view(res@) == strings_view(v@),
{
    let mut res: Vec<String> = Vec::new();
    let mut i: usize = 0;
    while i < v.len()
        invariant
            i <= v@.len(),
            strings_view(res@) == strings_view(v@).take(i as int),
        decreases v@.len() - i,
    {
        let line = v[i].as_str().to_owned();
        let ghost before = strings_view(res@);
        res.push(line);
        assert(strings_view(res@) =~= before.push(v@[i as int]@));
        assert(strings_view(res@) =~= strings_view(v@).take(i + 1));
        i += 1;
    }
    assert(strings_view(v@).take(i as int) =~= strings_view(v@));
    res
}

impl SearchResultData {
    /// The provider that found the lyrics.
    pub fn provider(&self) -> (res: Provider)
        ensures
            res == match *self {
                SearchResultData::Musixmatch(_) => Provider::Musixmatch,
                SearchResultData::Genius(_) => Provider::Genius,
                SearchResultData::LrcLib(_) => Provider::LrcLib,
            },
    {
        match self {
            SearchResultData::Musixmatch(_) => Provider::Musixmatch,
            SearchResultData::Genius(_) => Provider::Genius,
            SearchResultData::LrcLib(_) => Provider::LrcLib,
        }
    }

    /// The lines of the lyrics (see [`data_lyrics_spec`]).
    pub fn lyrics(&self) -> (res: Vec<String>)
        ensures
            strings_view(res@) == data_lyrics_spec(*self),
    {
        match self {
            SearchResultData::Musixmatch(l) => l.lyrics(),
            SearchResultData::Genius(r) => copy_lines(r.lyrics()),
            SearchResultData::LrcLib(r) => copy_lines(r.lyrics()),
        }
    }

    /// The link to the lyrics' source (see [`data_link_spec`]).
    pub fn link(&self) -> (res: String)
        ensures
            res@ == data_link_spec(*self),
    {
        match self {
            SearchResultData::Musixmatch(l) => l.link(),
            SearchResultData::Genius(r) => r.link(),
            SearchResultData::LrcLib(r) => r.link(),
        }
    }

    /// The label of the link (see [`data_link_text_spec`]).
    pub fn link_text(&self, full: bool) -> (res: String)
        ensures
            res@ == data_link_text_spec(*self, full),
    {
        match self {
            SearchResultData::Musixmatch(l) => l.link_text(full),
            SearchResultData::Genius(r) => r.link_text(full),
            SearchResultData::LrcLib(r) => r.link_text(full),
        }
    }

    /// The lyrics' language (see [`data_language_spec`]).
    pub fn language(&self) -> (res: String)
        ensures
            res@ == data_language_spec(*self),
    {
        match self {
            SearchResultData::Musixmatch(l) => l.language(),
            SearchResultData::Genius(r) => r.language(),
            SearchResultData::LrcLib(r) => r.language(),
        }
    }

    /// The name of line `index` (see [`data_line_index_name_spec`]).
    pub fn line_index_name(&self, index: usize) -> (res: String)
        requires
            *self is LrcLib || index < usize::MAX,
        ensures
            res@ == data_line_index_name_spec(*self, index as int),
    {
        match self {
            SearchResultData::Musixmatch(l) => l.line_index_name(index),
            SearchResultData::Genius(_) => default_line_index_name(index),
            SearchResultData::LrcLib(r) => r.line_index_name(index),
        }
    }
}

/// The first search hit that fits the track well enough (`fits[i]` says whether hit `i`
/// does), as the Genius and AZLyrics searches take it; `None` when none fits.
pub fn first_confident(fits: &Vec<bool>) -> (res: Option<usize>)
    ensures
        match res {
            Some(i) => i < fits@.len() && fits@[i as int] && forall|j: int| 0 <= j < i ==> !#[trigger] fits@[j],
            None => forall|j: int| 0 <= j < fits@.len() ==> !#[trigger] fits@[j],
        },
{
    let mut i: usize = 0;
    while i < fits.len()
        invariant
            i <= fits@.len(),
            forall|j: int| 0 <= j < i ==> !#[trigger] fits@[j],
        decreases fits@.len() - i,
    {
        if fits[i] {
            return Some(i);
        }
        i += 1;
    }
    None
}

} // verus!
