//! Lyrics from Musixmatch: the record it answers with, the rotation of user
//! tokens, and the parameters of a search.
use vstd::prelude::*;

use super::{default_line_index_name, default_line_index_spec};
use crate::format::{join_with, join_with_spec, pad2, pad2_spec, pair, pairs_view};
use crate::language::{language_of_639_1, language_of_639_1_spec};
use crate::text::{decimal_spec, strings_view, u64_to_string};
use crate::urls::{url_with_query, url_with_query_spec};

verus! {

/// One timed line of synchronised lyrics: when it starts and what it says.
#[derive(Debug, Clone, PartialEq, Eq)]
pub struct SubtitleLine {
    pub secs: u64,
    pub nanos: u32,
    pub text: String,
}

/// The lyrics record of Musixmatch, with the synchronised lines when there are any.
#[derive(Debug, Clone, PartialEq, Eq)]
pub struct Lyrics {
    pub verified: bool,
    pub restricted: bool,
    pub instrumental: bool,
    pub explicit: bool,
    pub lyrics: Vec<String>,
    pub subtitle: Option<Vec<SubtitleLine>>,
    /// The ISO 639-1 code of the lyrics' language.
    pub language: String,
    pub language_description: String,
    pub backlink_url: String,
}

impl Default for Lyrics {
    fn default() -> (r: Self)
        ensures
            !r.verified && !r.restricted && !r.instrumental && !r.explicit,
            r.lyrics@.len() == 0,
            r.subtitle is None,
            r.language@.len() == 0,
            r.language_description@.len() == 0,
            r.backlink_url@.len() == 0,
    {
        Lyrics {
            verified: false,
            restricted: false,
            instrumental: false,
            explicit: false,
            lyrics: Vec::new(),
            subtitle: None,
            language: String::new(),
            language_description: String::new(),
            backlink_url: String::new(),
        }
    }
}

/// The texts of timed lines.
pub open spec fn subtitle_texts(s: Seq<SubtitleLine>) -> Seq<Seq<char>> {
    s.map_values(|l: SubtitleLine| l.text@)
}

/// The lines shown to the user: the synchronised ones when there are any.
pub open spec fn lyrics_lines_spec(l: Lyrics) -> Seq<Seq<char>> {
    match l.subtitle {
        Some(s) => subtitle_texts(s@),
        None => strings_view(l.lyrics@),
    }
}

/// `"{m}:{ss}"` for a line that starts `secs` seconds in.
pub open spec fn timestamp_spec(secs: nat) -> Seq<char> {
    decimal_spec(secs / 60) + seq![':'] + pad2_spec(secs % 60)
}

/// The name of line `index`: its start time when the line is synchronised,
/// else its number counted from one.
pub open spec fn line_index_name_spec(l: Lyrics, index: int) -> Seq<char> {
    match l.subtitle {
        Some(s) => if index < s@.len() {
            timestamp_spec(s@[index].secs as nat)
        } else {
            default_line_index_spec(index)
        },
        None => default_line_index_spec(index),
    }
}

/// The label of the link to the lyrics' source.
pub open spec fn link_text_spec(full: bool) -> Seq<char> {
    if full {
        "Musixmatch Source"@
    } else {
        "Text truncated. Full lyrics can be found at Musixmatch"@
    }
}

impl Lyrics {
    /// The lines of the lyrics (see [`lyrics_lines_spec`]).
    pub fn lyrics(&self) -> (res: Vec<String>)
        ensures
            strings_view(res@) == lyrics_lines_spec(*self),
    {
        let mut res: Vec<String> = Vec::new();
        match &self.subtitle {
            Some(s) => {
                let mut i: usize = 0;
                while i < s.len()
                    invariant
                        i <= s@.len(),
                        strings_view(res@) == subtitle_texts(s@).take(i as int),
                    decreases s@.len() - i,
                {
                    let line = s[i].text.as_str().to_owned();
                    let ghost before = strings_view(res@);
                    res.push(line);
                    assert(strings_view(res@) =~= before.push(s@[i as int].text@));
                    assert(strings_view(res@) =~= subtitle_texts(s@).take(i + 1));
                    i += 1;
                }
                assert(subtitle_texts(s@).take(i as int) =~= subtitle_texts(s@));
            },
            None => {
                let mut i: usize = 0;
                while i < self.lyrics.len()
                    invariant
                        i <= self.lyrics@.len(),
                        strings_view(res@) == strings_view(self.lyrics@).take(i as int),
                    decreases self.lyrics@.len() - i,
                {
                    let line = self.lyrics[i].as_str().to_owned();
                    let ghost before = strings_view(res@);
                    res.push(line);
                    assert(strings_view(res@) =~= before.push(self.lyrics@[i as int]@));
                    assert(strings_view(res@) =~= strings_view(self.lyrics@).take(i + 1));
                    i += 1;
                }
                assert(strings_view(self.lyrics@).take(i as int) =~= strings_view(self.lyrics@));
            },
        }
        res
    }

    /// The page of the lyrics on Musixmatch.
    pub fn link(&self) -> (res: String)
        ensures
            res@ == self.backlink_url@,
    {
        self.backlink_url.as_str().to_owned()
    }

    /// The label of the link (see [`link_text_spec`]).
    pub fn link_text(&self, full: bool) -> (res: String)
        ensures
            res@ == link_text_spec(full),
    {
        if full {
            String::from_str("Musixmatch Source")
        } else {
            String::from_str("Text truncated. Full lyrics can be found at Musixmatch")
        }
    }

    /// The name of line `index` (see [`line_index_name_spec`]).
    pub fn line_index_name(&self, index: usize) -> (res: String)
        requires
            index < usize::MAX,
        ensures
            res@ == line_index_name_spec(*self, index as int),
    {
        match &self.subtitle {
            Some(s) => {
                if index < s.len() {
                    let secs = s[index].secs;
                    let mut res = u64_to_string(secs / 60);
                    res.append(":");
                    proof {
                        reveal_strlit(":");
                    }
                    let ss = pad2(secs % 60);
                    res.append(ss.as_str());
                    res
                } else {
                    default_line_index_name(index)
                }
            },
            None => default_line_index_name(index),
        }
    }

    /// The lyrics' language, looked up by its ISO 639-1 code, as an ISO 639-3
    /// code (undetermined when the code is unknown).
    pub fn language(&self) -> (res: String)
        ensures
            res@ == language_of_639_1_spec(self.language@),
    {
        language_of_639_1(self.language.as_str())
    }

    /// Whether the lyrics may be shown: neither restricted nor instrumental.
    pub fn usable(&self) -> (res: bool)
        ensures
            res == (!self.restricted && !self.instrumental),
    {
        !self.restricted && !self.instrumental
    }
}

/// The user tokens to query Musixmatch with, used in turn.
pub struct TokenQueue {
    tokens: Vec<String>,
}

impl View for TokenQueue {
    type V = Seq<Seq<char>>;

    closed spec fn view(&self) -> Seq<Seq<char>> {
        strings_view(self.tokens@)
    }
}

impl TokenQueue {
    /// A queue of the given tokens, in order.
    pub fn new(tokens: Vec<String>) -> (q: Self)
        ensures
            q@ == strings_view(tokens@),
    {
        TokenQueue { tokens }
    }

    /// The number of tokens.
    pub fn len(&self) -> (n: usize)
        ensures
            n == self@.len(),
    {
        self.tokens.len()
    }

    /// Moves the first token to the back and hands out the token that is now
    /// first (`rotate_left(1)` followed by `front`).
    pub fn next_token(&mut self) -> (t: String)
        requires
            old(self)@.len() > 0,
        ensures
            final(self)@ == old(self)@.drop_first().push(old(self)@[0]),
            t@ == final(self)@[0],
    {
        let first = self.tokens.remove(0);
        self.tokens.push(first);
        assert(strings_view(self.tokens@) =~= old(self)@.drop_first().push(old(self)@[0]));
        self.tokens[0].as_str().to_owned()
    }
}

/// The query of a lyrics search: four fixed parameters, then the track's
/// album, first artist, all artists joined by commas, name, Spotify id and
/// duration (twice), and the user token.
pub open spec fn search_params_spec(
    album: Seq<char>,
    first_artist: Seq<char>,
    artists: Seq<Seq<char>>,
    track_name: Seq<char>,
    track_id: Seq<char>,
    duration_secs: nat,
    token: Seq<char>,
) -> Seq<(Seq<char>, Seq<char>)> {
    seq![
        ("format"@, "json"@),
        ("namespace"@, "lyrics_synched"@),
        ("subtitle_format"@, "mxm"@),
        ("app_id"@, "web-desktop-app-v1.0"@),
        ("q_album"@, album),
        ("q_artist"@, first_artist),
        ("q_artists"@, join_with_spec(artists, ","@)),
        ("q_track"@, track_name),
        ("track_spotify_id"@, track_id),
        ("q_duration"@, decimal_spec(duration_secs)),
        ("f_subtitle_length"@, decimal_spec(duration_secs)),
        ("usertoken"@, token),
    ]
}

/// The query parameters of a lyrics search (see [`search_params_spec`]).
pub fn search_params(
    album: &str,
    first_artist: &str,
    artists: &Vec<String>,
    track_name: &str,
    track_id: &str,
    duration_secs: u64,
    token: &str,
) -> (res: Vec<(String, String)>)
    ensures
        pairs_view(res@) == search_params_spec(
            album@,
            first_artist@,
            strings_view(artists@),
            track_name@,
            track_id@,
            duration_secs as nat,
            token@,
        ),
{
    let joined = join_with(artists, ",");
    let duration = u64_to_string(duration_secs);
    let mut res: Vec<(String, String)> = Vec::new();
    res.push(pair("format", "json"));
    res.push(pair("namespace", "lyrics_synched"));
    res.push(pair("subtitle_format", "mxm"));
    res.push(pair("app_id", "web-desktop-app-v1.0"));
    res.push(pair("q_album", album));
    res.push(pair("q_artist", first_artist));
    res.push(pair("q_artists", joined.as_str()));
    res.push(pair("q_track", track_name));
    res.push(pair("track_spotify_id", track_id));
    res.push(pair("q_duration", duration.as_str()));
    res.push(pair("f_subtitle_length", duration.as_str()));
    res.push(pair("usertoken", token));
    assert(pairs_view(res@) =~= search_params_spec(
        album@,
        first_artist@,
        strings_view(artists@),
        track_name@,
        track_id@,
        duration_secs as nat,
        token@,
    ));
    res
}

/// What became of the synchronised lines of an answer.
#[derive(Debug, Clone, PartialEq, Eq)]
pub enum SubtitleOutcome {
    /// The answer holds no subtitle text.
    Missing,
    /// The subtitle text is empty.
    Empty,
    /// The subtitle text is no list of lines.
    Unparsable,
    /// The lines that carry both a text and a start time.
    Lines(Vec<SubtitleLine>),
}

/// The lyrics a search answers with: none when the answer holds no lyrics
/// record or the record may not be shown; else the record, with the
/// synchronised lines when there are any to attach.
pub fn finish_search(lyrics: Option<Lyrics>, subtitle: SubtitleOutcome) -> (res: Option<Lyrics>)
    ensures
        match lyrics {
            None => res is None,
            Some(l) => if l.restricted || l.instrumental {
                res is None
            } else {
                match subtitle {
                    SubtitleOutcome::Lines(v) => res == Some(Lyrics { subtitle: Some(v), ..l }),
                    _ => res == Some(l),
                }
            },
        },
{
    match lyrics {
        None => None,
        Some(l) => {
            if !l.usable() {
                return None;
            }
            match subtitle {
                SubtitleOutcome::Lines(v) => Some(Lyrics { subtitle: Some(v), ..l }),
                _ => Some(l),
            }
        },
    }
}

/// One turn of the token queue, as [`TokenQueue::next_token`] makes it.
pub open spec fn rotate_once(s: Seq<Seq<char>>) -> Seq<Seq<char>> {
    s.drop_first().push(s[0])
}

/// The queue after `k` turns.
pub open spec fn rotate_times(s: Seq<Seq<char>>, k: nat) -> Seq<Seq<char>>
    decreases k,
{
    if k == 0 {
        s
    } else {
        rotate_once(rotate_times(s, (k - 1) as nat))
    }
}

/// The tokens are used in turn: after `k` turns the queue starts at token
/// `k mod n` of the starting order (so that turn `k` hands out that token), and
/// after `n` turns it is back as it was.
pub proof fn lemma_tokens_used_in_turn(s: Seq<Seq<char>>, k: nat)
    requires
        s.len() > 0,
    ensures
        rotate_times(s, k) == s.subrange((k % s.len()) as int, s.len() as int) + s.subrange(
            0,
            (k % s.len()) as int,
        ),
        rotate_times(s, k)[0] == s[(k % s.len()) as int],
        rotate_times(s, s.len()) == s,
    decreases k,
{
    let n = s.len();
    if k == 0 {
        assert(s.subrange(0, n as int) + s.subrange(0, 0) =~= s);
    } else {
        lemma_tokens_used_in_turn(s, (k - 1) as nat);
        let ni = n as int;
        let ki = k as int;
        let j = (ki - 1) % ni;
        let prev = rotate_times(s, (k - 1) as nat);
        assert(prev == s.subrange(j, ni) + s.subrange(0, j));
        vstd::arithmetic::div_mod::lemma_mod_pos_bound(ki - 1, ni);
        vstd::arithmetic::div_mod::lemma_add_mod_noop(ki - 1, 1, ni);
        assert(prev[0] == s[j]);
        if ni == 1 {
            vstd::arithmetic::div_mod::lemma_mod_self_0(1);
            vstd::arithmetic::div_mod::lemma_small_mod(0, 1);
            assert(j == 0);
            assert(ki % ni == 0);
            assert(rotate_once(prev) =~= s.subrange(0, ni) + s.subrange(0, 0));
        } else {
            vstd::arithmetic::div_mod::lemma_small_mod(1, n);
            assert(ki % ni == (j + 1) % ni);
            if j + 1 < ni {
                vstd::arithmetic::div_mod::lemma_small_mod((j + 1) as nat, n);
                assert(rotate_once(prev) =~= s.subrange(j + 1, ni) + s.subrange(0, j + 1));
            } else {
                vstd::arithmetic::div_mod::lemma_mod_self_0(ni);
                assert(rotate_once(prev) =~= s.subrange(0, ni) + s.subrange(0, 0));
            }
        }
    }
    lemma_full_turn(s);
}

/// After as many turns as there are tokens the queue is as it was.
proof fn lemma_full_turn(s: Seq<Seq<char>>)
    requires
        s.len() > 0,
    ensures
        rotate_times(s, s.len()) == s,
{
    lemma_rotate_prefix(s, s.len());
    assert(s.subrange(s.len() as int, s.len() as int) + s.subrange(0, s.len() as int) =~= s);
}

/// For `k <= n`, after `k` turns the first `k` tokens have moved to the back.
proof fn lemma_rotate_prefix(s: Seq<Seq<char>>, k: nat)
    requires
        s.len() > 0,
        k <= s.len(),
    ensures
        rotate_times(s, k) == s.subrange(k as int, s.len() as int) + s.subrange(0, k as int),
    decreases k,
{
    if k == 0 {
        assert(s.subrange(0, s.len() as int) + s.subrange(0, 0) =~= s);
    } else {
        lemma_rotate_prefix(s, (k - 1) as nat);
        let prev = rotate_times(s, (k - 1) as nat);
        assert(prev[0] == s[k - 1]);
        assert(rotate_once(prev) =~= s.subrange(k as int, s.len() as int) + s.subrange(0, k as int));
    }
}

/// Musixmatch's subtitles endpoint.
pub open spec fn search_endpoint() -> Seq<char> {
    "https://apic-desktop.musixmatch.com/ws/1.1/macro.subtitles.get"@
}

/// The URL of a search request: the endpoint with [`search_params`] as its query.
pub fn search_url(
    album: &str,
    first_artist: &str,
    artists: &Vec<String>,
    track_name: &str,
    track_id: &str,
    duration_secs: u64,
    token: &str,
) -> (res: Result<String, url::ParseError>)
    ensures
        match res {
            Ok(u) => url_with_query_spec(
                search_endpoint(),
                search_params_spec(
                    album@,
                    first_artist@,
                    strings_view(artists@),
                    track_name@,
                    track_id@,
                    duration_secs as nat,
                    token@,
                ),
            ) == Some(u@),
            Err(_) => url_with_query_spec(
                search_endpoint(),
                search_params_spec(
                    album@,
                    first_artist@,
                    strings_view(artists@),
                    track_name@,
                    track_id@,
                    duration_secs as nat,
                    token@,
                ),
            ) is None,
        },
{
    let params = search_params(album, first_artist, artists, track_name, track_id, duration_secs, token);
    url_with_query("https://apic-desktop.musixmatch.com/ws/1.1/macro.subtitles.get", &params)
}

} // verus!
