//! Lyrics from a Genius search service: the hits it answers with, the entry
//! that fits best, and the lyrics fetched for it.
use vstd::prelude::*;
use vstd::string::*;

use crate::language::{text_language, text_language_spec, undetermined};
use crate::profanity::{is_effectively_whitespace, is_whitespace};
use crate::text::{
    chars_of,
    join_newline,
    join_newline_spec,
    lines,
    lines_spec,
    push_char,
    strings_view,
    trim,
    trim_spec,
    u64_to_string,
    decimal_spec,
};

verus! {

/// One hit of a search: the song's id, page, titles and primary artist.
#[derive(Debug, Clone)]
pub struct GeniusHit {
    pub id: u32,
    pub url: String,
    pub full_title: String,
    pub title: String,
    pub primary_artist: String,
}

/// The entry found for a track, and its lyrics once fetched.
#[derive(Debug, Clone)]
pub struct SearchResult {
    pub id: u32,
    pub url: String,
    pub title: String,
    /// How well the hit fits, in percent, as it is displayed.
    pub confidence: String,
    pub lyrics: Vec<String>,
    /// The ISO 639-3 code of the lyrics' language.
    pub language: String,
}

/// `s` with every character that rustrict takes for whitespace made a space.
pub open spec fn spaced_spec(s: Seq<char>) -> Seq<char> {
    s.map_values(|c: char| if is_effectively_whitespace(c) { ' ' } else { c })
}

/// The title shown for a hit: its full title with whitespace made plain
/// spaces, trimmed.
pub open spec fn display_title_spec(full_title: Seq<char>) -> Seq<char> {
    trim_spec(spaced_spec(full_title))
}

/// The title shown for a hit (see [`display_title_spec`]).
pub fn display_title(full_title: &str) -> (res: String)
    ensures
        res@ == display_title_spec(full_title@),
{
    let v = chars_of(full_title);
    let mut spaced = String::new();
    let mut i: usize = 0;
    while i < v.len()
        invariant
            i <= v@.len(),
            v@ == full_title@,
            spaced@ == spaced_spec(v@.take(i as int)),
        decreases v@.len() - i,
    {
        let c = v[i];
        let d = if is_whitespace(c) { ' ' } else { c };
        push_char(&mut spaced, d);
        assert(spaced_spec(v@.take(i + 1)) =~= spaced_spec(v@.take(i as int)).push(d));
        i += 1;
    }
    assert(v@.take(i as int) =~= v@);
    trim(spaced.as_str())
}

/// The query of a search: a name variant, a space, and the artist.
pub fn search_query(name: &str, artist: &str) -> (res: String)
    ensures
        res@ == name@ + seq![' '] + artist@,
{
    let mut res = name.to_owned();
    push_char(&mut res, ' ');
    res.append(artist);
    res
}

/// The path of the lyrics of song `id` on the service: `"/{id}/lyrics"`.
pub fn lyrics_path(id: u32) -> (res: String)
    ensures
        res@ == seq!['/'] + decimal_spec(id as nat) + "/lyrics"@,
{
    let mut res = String::new();
    push_char(&mut res, '/');
    res.append(u64_to_string(id as u64).as_str());
    res.append("/lyrics");
    res
}

/// The answer of the service to a request for lyrics.
#[derive(Debug, Clone, PartialEq, Eq)]
pub enum LyricsResponse {
    /// The service has no lyrics for the song (404).
    NotFound,
    /// The lyrics text of a successful answer.
    Found(String),
}

/// The lines of the lyrics in an answer: none when the song is not found, an
/// error when a successful answer holds no text.
pub fn lyrics_from_response(id: u32, response: &LyricsResponse) -> (res: Result<Vec<String>, String>)
    ensures
        match response {
            LyricsResponse::NotFound => res matches Ok(v) && v@.len() == 0,
            LyricsResponse::Found(text) => if text@.len() == 0 {
                res matches Err(m) && m@ == "Cannot get lyrics, for some reason for "@ + decimal_spec(
                    id as nat,
                )
            } else {
                res matches Ok(v) && strings_view(v@) == lines_spec(text@)
            },
        },
{
    match response {
        LyricsResponse::NotFound => Ok(Vec::new()),
        LyricsResponse::Found(text) => {
            if text.as_str().unicode_len() == 0 {
                let mut m = String::from_str("Cannot get lyrics, for some reason for ");
                m.append(u64_to_string(id as u64).as_str());
                Err(m)
            } else {
                Ok(lines(text.as_str()))
            }
        },
    }
}

/// The label of the link: "{text} (with {confidence}% confidence)", the title
/// on a second line, and a final newline.
pub open spec fn link_text_spec(full: bool, confidence: Seq<char>, title: Seq<char>) -> Seq<char> {
    (if full {
        "Genius Source"@
    } else {
        "Text truncated. Full lyrics can be found at Genius"@
    }) + " (with "@ + confidence + "% confidence)\n"@ + title + "\n"@
}

impl SearchResult {
    /// The entry for a fitting hit, without lyrics yet and of undetermined language.
    pub fn from_hit(hit: &GeniusHit, confidence: String) -> (r: Self)
        ensures
            r.id == hit.id,
            r.url@ == hit.url@,
            r.title@ == display_title_spec(hit.full_title@),
            r.confidence@ == confidence@,
            r.lyrics@.len() == 0,
            r.language@ == undetermined(),
    {
        SearchResult {
            id: hit.id,
            url: hit.url.as_str().to_owned(),
            title: display_title(hit.full_title.as_str()),
            confidence,
            lyrics: Vec::new(),
            language: String::from_str("und"),
        }
    }

    /// The entry with its lyrics and their detected language; `None` when there
    /// are no lines.
    pub fn with_lyrics(self, lyrics: Vec<String>) -> (r: Option<Self>)
        ensures
            lyrics@.len() == 0 ==> r is None,
            lyrics@.len() > 0 ==> (r matches Some(e) && e.id == self.id && e.url == self.url
                && e.title == self.title && e.confidence == self.confidence && e.lyrics@ == lyrics@
                && e.language@ == text_language_spec(join_newline_spec(strings_view(lyrics@)))),
    {
        if lyrics.len() == 0 {
            return None;
        }
        let joined = join_newline(&lyrics);
        let language = text_language(joined.as_str());
        Some(SearchResult { lyrics, language, ..self })
    }

    /// The page of the song.
    pub fn link(&self) -> (res: String)
        ensures
            res@ == self.url@,
    {
        self.url.as_str().to_owned()
    }

    /// The label of the link (see [`link_text_spec`]).
    pub fn link_text(&self, full: bool) -> (res: String)
        ensures
            res@ == link_text_spec(full, self.confidence@, self.title@),
    {
        let mut res = if full {
            String::from_str("Genius Source")
        } else {
            String::from_str("Text truncated. Full lyrics can be found at Genius")
        };
        res.append(" (with ");
        res.append(self.confidence.as_str());
        res.append("% confidence)\n");
        res.append(self.title.as_str());
        res.append("\n");
        res
    }

    /// The lines of the lyrics.
    pub fn lyrics(&self) -> (res: &Vec<String>)
        ensures
            res@ == self.lyrics@,
    {
        &self.lyrics
    }

    /// The lyrics' language.
    pub fn language(&self) -> (res: String)
        ensures
            res@ == self.language@,
    {
        self.language.as_str().to_owned()
    }
}

} // verus!
