//! Lyrics from an AZLyrics search service: how hits are compared with the
//! track, and the result shown to the user.
use vstd::prelude::*;

use crate::language::{text_language, text_language_spec};
use crate::text::{
    lines,
    lines_spec,
    lowercase_spec,
    push_char,
    replace_spec,
    replace_str,
    strings_view,
    to_lowercase,
    trim,
    trim_spec,
};

verus! {

/// One hit of a search: the page's title and its link.
#[derive(Debug, Clone, PartialEq)]
pub struct AZLyricsHit {
    pub title: String,
    pub link: String,
}

impl Default for AZLyricsHit {
    fn default() -> (r: Self)
        ensures
            r.title@.len() == 0,
            r.link@.len() == 0,
    {
        AZLyricsHit { title: String::new(), link: String::new() }
    }
}

/// The lyrics of a hit that was found fitting.
#[derive(Debug, Clone)]
pub struct SearchResult {
    /// How well the hit fits, in percent, as it is displayed.
    pub confidence: String,
    pub lyrics: Vec<String>,
    /// The ISO 639-3 code of the lyrics' language.
    pub language: String,
    pub title: String,
    pub url: String,
}

/// The artist to search by: the track's first artist, else "Unknown".
pub fn artist_or_unknown(first_artist: Option<&str>) -> (res: String)
    ensures
        res@ == match first_artist {
            Some(a) => a@,
            None => "Unknown"@,
        },
{
    match first_artist {
        Some(a) => a.to_owned(),
        None => String::from_str("Unknown"),
    }
}

/// The query of a search: the artist, a space, and the track's name.
pub fn search_query(artist: &str, track: &str) -> (res: String)
    ensures
        res@ == artist@ + seq![' '] + track@,
{
    let mut res = artist.to_owned();
    push_char(&mut res, ' ');
    res.append(track);
    res
}

/// The title a fitting hit is expected to have: `"artist" - track lyrics`, in
/// lower case.
pub open spec fn expected_title_spec(artist: Seq<char>, track: Seq<char>) -> Seq<char> {
    seq!['"'] + lowercase_spec(artist) + "\" - "@ + lowercase_spec(track) + " lyrics"@
}

/// See [`expected_title_spec`].
pub fn expected_title(artist: &str, track: &str) -> (res: String)
    ensures
        res@ == expected_title_spec(artist@, track@),
{
    let mut res = String::new();
    push_char(&mut res, '"');
    res.append(to_lowercase(artist).as_str());
    res.append("\" - ");
    res.append(to_lowercase(track).as_str());
    res.append(" lyrics");
    res
}

/// A hit's title as it is compared: in lower case, without `|`, `-`,
/// "azlyrics.com" and "azlyrics", trimmed.
pub open spec fn compared_title_spec(title: Seq<char>) -> Seq<char> {
    trim_spec(
        replace_spec(
            replace_spec(
                replace_spec(replace_spec(lowercase_spec(title), "|"@, Seq::empty()), "-"@, Seq::empty()),
                "azlyrics.com"@,
                Seq::empty(),
            ),
            "azlyrics"@,
            Seq::empty(),
        ),
    )
}

/// See [`compared_title_spec`].
pub fn compared_title(title: &str) -> (res: String)
    ensures
        res@ == compared_title_spec(title@),
{
    let lower = to_lowercase(title);
    let a = replace_str(lower.as_str(), "|", "");
    let b = replace_str(a.as_str(), "-", "");
    let c = replace_str(b.as_str(), "azlyrics.com", "");
    let d = replace_str(c.as_str(), "azlyrics", "");
    proof {
        reveal_strlit("");
    }
    assert(""@ =~= Seq::<char>::empty());
    trim(d.as_str())
}

/// The link shown with the lyrics: an HTML link to the page labelled
/// "{text} (with {confidence}% confidence)".
pub open spec fn tg_link_spec(full: bool, url: Seq<char>, confidence: Seq<char>) -> Seq<char> {
    "<a href=\""@ + url + "\">"@ + (if full {
        "AZLyrics"@
    } else {
        "Text truncated. Full lyrics can be searched at AZLyrics"@
    }) + " (with "@ + confidence + "% confidence)</a>"@
}

impl SearchResult {
    /// The result for a fitting hit and the lyrics text fetched for it; the
    /// language is detected in the whole text.
    pub fn new(confidence: String, text: &str, hit: AZLyricsHit) -> (r: Self)
        ensures
            r.confidence@ == confidence@,
            strings_view(r.lyrics@) == lines_spec(text@),
            r.language@ == text_language_spec(text@),
            r.title@ == hit.title@,
            r.url@ == hit.link@,
    {
        SearchResult {
            confidence,
            lyrics: lines(text),
            language: text_language(text),
            title: hit.title,
            url: hit.link,
        }
    }

    /// See [`tg_link_spec`].
    pub fn tg_link(&self, full: bool) -> (res: String)
        ensures
            res@ == tg_link_spec(full, self.url@, self.confidence@),
    {
        let mut res = String::from_str("<a href=\"");
        res.append(self.url.as_str());
        res.append("\">");
        if full {
            res.append("AZLyrics");
        } else {
            res.append("Text truncated. Full lyrics can be searched at AZLyrics");
        }
        res.append(" (with ");
        res.append(self.confidence.as_str());
        res.append("% confidence)</a>");
        res
    }

    /// The lines of the lyrics.
    pub fn lyrics(&self) -> (res: &Vec<String>)
        ensures
            res@ == self.lyrics@,
    {
        &self.lyrics
    }

    /// The lyrics' language.
    pub fn language(&self) -> (res: String)
        ensures
            res@ == self.language@,
    {
        self.language.as_str().to_owned()
    }
}

} // verus!
