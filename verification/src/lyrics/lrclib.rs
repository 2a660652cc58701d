//! Lyrics from LrcLib: the hits it answers with, how their lines are
//! numbered, and the result shown to the user.
use vstd::prelude::*;

use crate::format::{pair, pairs_view};
use crate::language::{text_language, text_language_spec};
use crate::patterns::{regex_captures_all, regex_captures_all_spec};
use crate::text::{
    decimal_spec,
    join_newline,
    join_newline_spec,
    lines,
    lines_spec,
    strings_view,
    trim,
    trim_spec,
    u64_to_string,
};
use crate::urls::{url_join, url_join_spec, url_with_query, url_with_query_spec};

verus! {

/// One hit of a LrcLib search.
#[derive(Debug, Clone, PartialEq)]
pub struct Lyrics {
    pub id: i64,
    pub track_name: String,
    pub artist_name: String,
    pub album_name: String,
    pub instrumental: bool,
    pub plain_lyrics: Option<String>,
    pub synced_lyrics: Option<String>,
}

impl Default for Lyrics {
    fn default() -> (r: Self)
        ensures
            r.id == 0,
            r.track_name@.len() == 0 && r.artist_name@.len() == 0 && r.album_name@.len() == 0,
            !r.instrumental,
            r.plain_lyrics is None && r.synced_lyrics is None,
    {
        Lyrics {
            id: 0,
            track_name: String::new(),
            artist_name: String::new(),
            album_name: String::new(),
            instrumental: false,
            plain_lyrics: None,
            synced_lyrics: None,
        }
    }
}

/// A synchronised line: `[mm:ss.xx]text`; the first group is the time without
/// its hundredths, the second the text.
pub open spec fn synced_pattern() -> Seq<char> {
    "^\\[(.*?)\\.\\d{2}\\](.*)$"@
}

/// The text of group `g` of a match, empty when the group took no part.
pub open spec fn group_text(m: Seq<Option<Seq<char>>>, g: int) -> Seq<char> {
    if 0 <= g < m.len() && m[g] is Some {
        m[g]->0
    } else {
        Seq::empty()
    }
}

/// The name and text of synchronised line `index`: the time and the trimmed
/// text when the line has the synchronised form, else the line's number
/// (counted from zero) and the line as it is.
pub open spec fn synced_entry_spec(index: int, line: Seq<char>) -> (Seq<char>, Seq<char>) {
    match regex_captures_all_spec(synced_pattern(), line) {
        Some(ms) => if ms.len() > 0 {
            (group_text(ms[0], 1), trim_spec(group_text(ms[0], 2)))
        } else {
            (decimal_spec(index as nat), line)
        },
        None => (decimal_spec(index as nat), line),
    }
}

/// The named lines of a hit: its synchronised lyrics when it has them, else its
/// plain lyrics numbered from zero, else nothing.
pub open spec fn index_lyrics_spec(synced: Option<Seq<char>>, plain: Option<Seq<char>>) -> Option<
    Seq<(Seq<char>, Seq<char>)>,
> {
    match synced {
        Some(s) => Some(
            Seq::new(lines_spec(s).len(), |i: int| synced_entry_spec(i, lines_spec(s)[i])),
        ),
        None => match plain {
            Some(p) => Some(
                Seq::new(lines_spec(p).len(), |i: int| (decimal_spec(i as nat), lines_spec(p)[i])),
            ),
            None => None,
        },
    }
}

fn group_or_empty(m: &Vec<Option<String>>, g: usize) -> (res: String)
    ensures
        res@ == group_text(m@.map_values(|o: Option<String>| match o {
            Some(s) => Some(s@),
            None => None,
        }), g as int),
{
    if g < m.len() {
        match &m[g] {
            Some(s) => s.as_str().to_owned(),
            None => String::new(),
        }
    } else {
        String::new()
    }
}

/// The name and text of one synchronised line (see [`synced_entry_spec`]).
pub fn synced_entry(index: usize, line: &str) -> (res: (String, String))
    ensures
        (res.0@, res.1@) == synced_entry_spec(index as int, line@),
{
    match regex_captures_all("^\\[(.*?)\\.\\d{2}\\](.*)$", line) {
        Some(ms) => {
            if ms.len() > 0 {
                let time = group_or_empty(&ms[0], 1);
                let text = group_or_empty(&ms[0], 2);
                (time, trim(text.as_str()))
            } else {
                (u64_to_string(index as u64), line.to_owned())
            }
        },
        None => (u64_to_string(index as u64), line.to_owned()),
    }
}

/// The names and texts of the lines of a hit (see [`index_lyrics_spec`]),
/// as two lists of the same length.
pub fn index_lyrics(hit: &Lyrics) -> (res: Option<(Vec<String>, Vec<String>)>)
    ensures
        match res {
            Some((names, texts)) => {
                let e = index_lyrics_spec(
                    match hit.synced_lyrics {
                        Some(s) => Some(s@),
                        None => None,
                    },
                    match hit.plain_lyrics {
                        Some(p) => Some(p@),
                        None => None,
                    },
                );
                &&& e is Some
                &&& names@.len() == e->0.len()
                &&& texts@.len() == e->0.len()
                &&& forall|i: int|
                    0 <= i < e->0.len() ==> (#[trigger] names@[i])@ == e->0[i].0 && texts@[i]@
                        == e->0[i].1
            },
            None => hit.synced_lyrics is None && hit.plain_lyrics is None,
        },
{
    match &hit.synced_lyrics {
        Some(s) => {
            let ls = lines(s.as_str());
            let ghost ld = lines_spec(s@);
            let mut names: Vec<String> = Vec::new();
            let mut texts: Vec<String> = Vec::new();
            let mut i: usize = 0;
            while i < ls.len()
                invariant
                    i <= ls@.len(),
                    strings_view(ls@) == ld,
                    names@.len() == i && texts@.len() == i,
                    forall|k: int|
                        0 <= k < i ==> (#[trigger] names@[k])@ == synced_entry_spec(k, ld[k]).0
                            && texts@[k]@ == synced_entry_spec(k, ld[k]).1,
                decreases ls@.len() - i,
            {
                assert(ld[i as int] == ls@[i as int]@);
                let (n, t) = synced_entry(i, ls[i].as_str());
                names.push(n);
                texts.push(t);
                i += 1;
            }
            Some((names, texts))
        },
        None => match &hit.plain_lyrics {
            Some(p) => {
                let ls = lines(p.as_str());
                let ghost ld = lines_spec(p@);
                let mut names: Vec<String> = Vec::new();
                let mut texts: Vec<String> = Vec::new();
                let mut i: usize = 0;
                while i < ls.len()
                    invariant
                        i <= ls@.len(),
                        strings_view(ls@) == ld,
                        names@.len() == i && texts@.len() == i,
                        forall|k: int|
                            0 <= k < i ==> (#[trigger] names@[k])@ == decimal_spec(k as nat)
                                && texts@[k]@ == ld[k],
                    decreases ls@.len() - i,
                {
                    assert(ld[i as int] == ls@[i as int]@);
                    names.push(u64_to_string(i as u64));
                    texts.push(ls[i].as_str().to_owned());
                    i += 1;
                }
                Some((names, texts))
            },
            None => None,
        },
    }
}

/// The query of a search: the artist, the track and the album.
pub open spec fn search_params_spec(artist: Seq<char>, track: Seq<char>, album: Seq<char>) -> Seq<
    (Seq<char>, Seq<char>),
> {
    seq![("artist_name"@, artist), ("track_name"@, track), ("album_name"@, album)]
}

/// The query parameters of a search (see [`search_params_spec`]).
pub fn search_params(artist: &str, track: &str, album: &str) -> (res: Vec<(String, String)>)
    ensures
        pairs_view(res@) == search_params_spec(artist@, track@, album@),
{
    let mut res: Vec<(String, String)> = Vec::new();
    res.push(pair("artist_name", artist));
    res.push(pair("track_name", track));
    res.push(pair("album_name", album));
    assert(pairs_view(res@) =~= search_params_spec(artist@, track@, album@));
    res
}

/// The lyrics of a hit that was found fitting, as shown to the user.
#[derive(Debug, Clone)]
pub struct SearchResult {
    /// How well the hit fits, in percent, as it is displayed.
    pub confidence: String,
    pub lyrics: Vec<String>,
    pub indexes: Vec<String>,
    /// The ISO 639-3 code of the lyrics' language.
    pub language: String,
    pub artist_name: String,
    pub track_name: String,
}

/// The search page of LrcLib that links to the lyrics.
pub open spec fn search_base() -> Seq<char> {
    "https://lrclib.net/search/"@
}

/// The link to the lyrics: the search page joined with "{artist} {track}", or
/// LrcLib's front page when that is no URL.
pub open spec fn link_spec(artist: Seq<char>, track: Seq<char>) -> Seq<char> {
    match url_join_spec(search_base(), artist + seq![' '] + track) {
        Some(u) => u,
        None => "https://lrclib.net/"@,
    }
}

/// The label of the link: "{text} (with {confidence}% confidence)" and, on a
/// second line, "{artist} - {track}".
pub open spec fn link_text_spec(full: bool, confidence: Seq<char>, artist: Seq<char>, track: Seq<char>) -> Seq<char> {
    (if full {
        "LrcLib"@
    } else {
        "Text truncated. Full lyrics can be searched at LrcLib"@
    }) + " (with "@ + confidence + "% confidence)\n"@ + artist + " - "@ + track
}

impl SearchResult {
    /// A result for the given lines, whose language is detected in the lines
    /// joined by newlines.
    pub fn new(
        confidence: String,
        indexes: Vec<String>,
        lyrics: Vec<String>,
        artist_name: &str,
        track_name: &str,
    ) -> (r: Self)
        ensures
            r.confidence@ == confidence@,
            r.indexes@ == indexes@,
            r.lyrics@ == lyrics@,
            r.language@ == text_language_spec(join_newline_spec(strings_view(lyrics@))),
            r.artist_name@ == artist_name@,
            r.track_name@ == track_name@,
    {
        let joined = join_newline(&lyrics);
        let language = text_language(joined.as_str());
        SearchResult {
            confidence,
            lyrics,
            indexes,
            language,
            artist_name: artist_name.to_owned(),
            track_name: track_name.to_owned(),
        }
    }

    /// The name of line `index`: the name the hit gave it, else its number
    /// counted from zero.
    pub fn line_index_name(&self, index: usize) -> (res: String)
        ensures
            res@ == if index < self.indexes@.len() {
                self.indexes@[index as int]@
            } else {
                decimal_spec(index as nat)
            },
    {
        if index < self.indexes.len() {
            self.indexes[index].as_str().to_owned()
        } else {
            u64_to_string(index as u64)
        }
    }

    /// The link to the lyrics (see [`link_spec`]).
    pub fn link(&self) -> (res: String)
        ensures
            res@ == link_spec(self.artist_name@, self.track_name@),
    {
        let mut q = self.artist_name.as_str().to_owned();
        q.append(" ");
        q.append(self.track_name.as_str());
        proof {
            reveal_strlit(" ");
        }
        assert(q@ =~= self.artist_name@ + seq![' '] + self.track_name@);
        match url_join("https://lrclib.net/search/", q.as_str()) {
            Some(u) => u,
            None => String::from_str("https://lrclib.net/"),
        }
    }

    /// The label of the link (see [`link_text_spec`]).
    pub fn link_text(&self, full: bool) -> (res: String)
        ensures
            res@ == link_text_spec(full, self.confidence@, self.artist_name@, self.track_name@),
    {
        let mut res = if full {
            String::from_str("LrcLib")
        } else {
            String::from_str("Text truncated. Full lyrics can be searched at LrcLib")
        };
        res.append(" (with ");
        res.append(self.confidence.as_str());
        res.append("% confidence)\n");
        res.append(self.artist_name.as_str());
        res.append(" - ");
        res.append(self.track_name.as_str());
        res
    }

    /// The lines of the lyrics.
    pub fn lyrics(&self) -> (res: &Vec<String>)
        ensures
            res@ == self.lyrics@,
    {
        &self.lyrics
    }

    /// The lyrics' language.
    pub fn language(&self) -> (res: String)
        ensures
            res@ == self.language@,
    {
        self.language.as_str().to_owned()
    }
}

/// Whether a hit has lyrics of either kind.
pub open spec fn has_lyrics(hit: Lyrics) -> bool {
    hit.synced_lyrics is Some || hit.plain_lyrics is Some
}

/// The first hit that has lyrics and fits the track well enough (`fits[i]`
/// says whether hit `i` does); hits without lyrics are passed over.
pub fn first_fitting(hits: &Vec<Lyrics>, fits: &Vec<bool>) -> (res: Option<usize>)
    requires
        hits@.len() == fits@.len(),
    ensures
        match res {
            Some(i) => i < hits@.len() && has_lyrics(hits@[i as int]) && fits@[i as int] && forall|
                j: int,
            | 0 <= j < i ==> !(has_lyrics(#[trigger] hits@[j]) && fits@[j]),
            None => forall|j: int|
                0 <= j < hits@.len() ==> !(has_lyrics(#[trigger] hits@[j]) && fits@[j]),
        },
{
    let mut i: usize = 0;
    while i < hits.len()
        invariant
            i <= hits@.len() == fits@.len(),
            forall|j: int| 0 <= j < i ==> !(has_lyrics(#[trigger] hits@[j]) && fits@[j]),
        decreases hits@.len() - i,
    {
        if (hits[i].synced_lyrics.is_some() || hits[i].plain_lyrics.is_some()) && fits[i] {
            return Some(i);
        }
        i += 1;
    }
    None
}

/// How many times a failed request is sent again.
pub const MAX_RETRIES: u32 = 3;

/// One second, doubled `failures` times, in milliseconds.
pub open spec fn doubled_delay_ms(failures: nat) -> nat
    decreases failures,
{
    if failures == 0 {
        1000
    } else {
        2 * doubled_delay_ms((failures - 1) as nat)
    }
}

/// The pause before sending a request again after `failures` failed tries,
/// in milliseconds: one second, doubled after each failure; `None` once
/// [`MAX_RETRIES`] retries were made, when the last error is returned.
pub fn retry_delay_ms(failures: u32) -> (res: Option<u64>)
    ensures
        failures < MAX_RETRIES ==> res == Some(doubled_delay_ms(failures as nat) as u64),
        failures >= MAX_RETRIES ==> res is None,
{
    if failures >= MAX_RETRIES {
        return None;
    }
    let mut delay: u64 = 1000;
    let mut i: u32 = 0;
    while i < failures
        invariant
            i <= failures < MAX_RETRIES,
            delay == doubled_delay_ms(i as nat),
            delay == (if i == 0 { 1000u64 } else if i == 1 { 2000u64 } else { 4000u64 }),
        decreases failures - i,
    {
        delay = delay * 2;
        i = i + 1;
    }
    Some(delay)
}

/// LrcLib's search endpoint.
pub open spec fn search_endpoint() -> Seq<char> {
    "https://lrclib.net/api/search"@
}

/// The URL of a search request: the endpoint with [`search_params`] as its query.
pub fn search_url(artist: &str, track: &str, album: &str) -> (res: Result<String, url::ParseError>)
    ensures
        match res {
            Ok(u) => url_with_query_spec(search_endpoint(), search_params_spec(artist@, track@, album@))
                == Some(u@),
            Err(_) => url_with_query_spec(search_endpoint(), search_params_spec(artist@, track@, album@)) is None,
        },
{
    let params = search_params(artist, track, album);
    url_with_query("https://lrclib.net/api/search", &params)
}

} // verus!
