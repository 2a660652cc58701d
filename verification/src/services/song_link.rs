//! Links to a track on other streaming platforms, from the song.link API.
use vstd::prelude::*;

use crate::format::{pair, pairs_view};
use crate::text::str_eq;
use crate::urls::{url_with_query, url_with_query_spec};

verus! {

/// A platform that song.link knows.
#[derive(PartialEq, Eq, Structural, Clone, Copy, Debug, Hash)]
pub enum SongLinkPlatform {
    Spotify,
    Itunes,
    AppleMusic,
    Youtube,
    YoutubeMusic,
    Google,
    GoogleStore,
    Pandora,
    Deezer,
    Tidal,
    AmazonStore,
    AmazonMusic,
    Soundcloud,
    Napster,
    Yandex,
    Spinrilla,
    Audius,
    Audiomack,
    Anghami,
    Boomplay,
    Bandcamp,
}

/// The name of a platform, as it is shown.
pub open spec fn platform_name_spec(p: SongLinkPlatform) -> Seq<char> {
    match p {
        SongLinkPlatform::Spotify => "Spotify"@,
        SongLinkPlatform::Itunes => "iTunes"@,
        SongLinkPlatform::AppleMusic => "Apple Music"@,
        SongLinkPlatform::Youtube => "YouTube"@,
        SongLinkPlatform::YoutubeMusic => "YouTube Music"@,
        SongLinkPlatform::Google => "Google"@,
        SongLinkPlatform::GoogleStore => "Google Store"@,
        SongLinkPlatform::Pandora => "Pandora"@,
        SongLinkPlatform::Deezer => "Deezer"@,
        SongLinkPlatform::Tidal => "Tidal"@,
        SongLinkPlatform::AmazonStore => "Amazon Store"@,
        SongLinkPlatform::AmazonMusic => "Amazon Music"@,
        SongLinkPlatform::Soundcloud => "SoundCloud"@,
        SongLinkPlatform::Napster => "Napster"@,
        SongLinkPlatform::Yandex => "Yandex"@,
        SongLinkPlatform::Spinrilla => "Spinrilla"@,
        SongLinkPlatform::Audius => "Audius"@,
        SongLinkPlatform::Audiomack => "Audiomack"@,
        SongLinkPlatform::Anghami => "Anghami"@,
        SongLinkPlatform::Boomplay => "Boomplay"@,
        SongLinkPlatform::Bandcamp => "Bandcamp"@,
    }
}

/// The key of a platform in the API's answers (camel case).
pub open spec fn platform_key_spec(p: SongLinkPlatform) -> Seq<char> {
    match p {
        SongLinkPlatform::Spotify => "spotify"@,
        SongLinkPlatform::Itunes => "itunes"@,
        SongLinkPlatform::AppleMusic => "appleMusic"@,
        SongLinkPlatform::Youtube => "youtube"@,
        SongLinkPlatform::YoutubeMusic => "youtubeMusic"@,
        SongLinkPlatform::Google => "google"@,
        SongLinkPlatform::GoogleStore => "googleStore"@,
        SongLinkPlatform::Pandora => "pandora"@,
        SongLinkPlatform::Deezer => "deezer"@,
        SongLinkPlatform::Tidal => "tidal"@,
        SongLinkPlatform::AmazonStore => "amazonStore"@,
        SongLinkPlatform::AmazonMusic => "amazonMusic"@,
        SongLinkPlatform::Soundcloud => "soundcloud"@,
        SongLinkPlatform::Napster => "napster"@,
        SongLinkPlatform::Yandex => "yandex"@,
        SongLinkPlatform::Spinrilla => "spinrilla"@,
        SongLinkPlatform::Audius => "audius"@,
        SongLinkPlatform::Audiomack => "audiomack"@,
        SongLinkPlatform::Anghami => "anghami"@,
        SongLinkPlatform::Boomplay => "boomplay"@,
        SongLinkPlatform::Bandcamp => "bandcamp"@,
    }
}

impl SongLinkPlatform {
    /// The name of the platform (see [`platform_name_spec`]).
    pub fn name(&self) -> (res: String)
        ensures
            res@ == platform_name_spec(*self),
    {
        match self {
            SongLinkPlatform::Spotify => String::from_str("Spotify"),
            SongLinkPlatform::Itunes => String::from_str("iTunes"),
            SongLinkPlatform::AppleMusic => String::from_str("Apple Music"),
            SongLinkPlatform::Youtube => String::from_str("YouTube"),
            SongLinkPlatform::YoutubeMusic => String::from_str("YouTube Music"),
            SongLinkPlatform::Google => String::from_str("Google"),
            SongLinkPlatform::GoogleStore => String::from_str("Google Store"),
            SongLinkPlatform::Pandora => String::from_str("Pandora"),
            SongLinkPlatform::Deezer => String::from_str("Deezer"),
            SongLinkPlatform::Tidal => String::from_str("Tidal"),
            SongLinkPlatform::AmazonStore => String::from_str("Amazon Store"),
            SongLinkPlatform::AmazonMusic => String::from_str("Amazon Music"),
            SongLinkPlatform::Soundcloud => String::from_str("SoundCloud"),
            SongLinkPlatform::Napster => String::from_str("Napster"),
            SongLinkPlatform::Yandex => String::from_str("Yandex"),
            SongLinkPlatform::Spinrilla => String::from_str("Spinrilla"),
            SongLinkPlatform::Audius => String::from_str("Audius"),
            SongLinkPlatform::Audiomack => String::from_str("Audiomack"),
            SongLinkPlatform::Anghami => String::from_str("Anghami"),
            SongLinkPlatform::Boomplay => String::from_str("Boomplay"),
            SongLinkPlatform::Bandcamp => String::from_str("Bandcamp"),
        }
    }

    /// The key of the platform (see [`platform_key_spec`]).
    pub fn key(&self) -> (res: String)
        ensures
            res@ == platform_key_spec(*self),
    {
        match self {
            SongLinkPlatform::Spotify => String::from_str("spotify"),
            SongLinkPlatform::Itunes => String::from_str("itunes"),
            SongLinkPlatform::AppleMusic => String::from_str("appleMusic"),
            SongLinkPlatform::Youtube => String::from_str("youtube"),
            SongLinkPlatform::YoutubeMusic => String::from_str("youtubeMusic"),
            SongLinkPlatform::Google => String::from_str("google"),
            SongLinkPlatform::GoogleStore => String::from_str("googleStore"),
            SongLinkPlatform::Pandora => String::from_str("pandora"),
            SongLinkPlatform::Deezer => String::from_str("deezer"),
            SongLinkPlatform::Tidal => String::from_str("tidal"),
            SongLinkPlatform::AmazonStore => String::from_str("amazonStore"),
            SongLinkPlatform::AmazonMusic => String::from_str("amazonMusic"),
            SongLinkPlatform::Soundcloud => String::from_str("soundcloud"),
            SongLinkPlatform::Napster => String::from_str("napster"),
            SongLinkPlatform::Yandex => String::from_str("yandex"),
            SongLinkPlatform::Spinrilla => String::from_str("spinrilla"),
            SongLinkPlatform::Audius => String::from_str("audius"),
            SongLinkPlatform::Audiomack => String::from_str("audiomack"),
            SongLinkPlatform::Anghami => String::from_str("anghami"),
            SongLinkPlatform::Boomplay => String::from_str("boomplay"),
            SongLinkPlatform::Bandcamp => String::from_str("bandcamp"),
        }
    }

    /// Every platform, in the order they are declared.
    pub fn all() -> (res: Vec<SongLinkPlatform>)
        ensures
            res@.len() == 21,
            forall|p: SongLinkPlatform| res@.contains(p),
    {
        let res = vec![
            SongLinkPlatform::Spotify,
            SongLinkPlatform::Itunes,
            SongLinkPlatform::AppleMusic,
            SongLinkPlatform::Youtube,
            SongLinkPlatform::YoutubeMusic,
            SongLinkPlatform::Google,
            SongLinkPlatform::GoogleStore,
            SongLinkPlatform::Pandora,
            SongLinkPlatform::Deezer,
            SongLinkPlatform::Tidal,
            SongLinkPlatform::AmazonStore,
            SongLinkPlatform::AmazonMusic,
            SongLinkPlatform::Soundcloud,
            SongLinkPlatform::Napster,
            SongLinkPlatform::Yandex,
            SongLinkPlatform::Spinrilla,
            SongLinkPlatform::Audius,
            SongLinkPlatform::Audiomack,
            SongLinkPlatform::Anghami,
            SongLinkPlatform::Boomplay,
            SongLinkPlatform::Bandcamp,
        ];
        proof {
            assert forall|p: SongLinkPlatform| res@.contains(p) by {
                match p {
                    SongLinkPlatform::Spotify => assert(res@[0] == p),
                    SongLinkPlatform::Itunes => assert(res@[1] == p),
                    SongLinkPlatform::AppleMusic => assert(res@[2] == p),
                    SongLinkPlatform::Youtube => assert(res@[3] == p),
                    SongLinkPlatform::YoutubeMusic => assert(res@[4] == p),
                    SongLinkPlatform::Google => assert(res@[5] == p),
                    SongLinkPlatform::GoogleStore => assert(res@[6] == p),
                    SongLinkPlatform::Pandora => assert(res@[7] == p),
                    SongLinkPlatform::Deezer => assert(res@[8] == p),
                    SongLinkPlatform::Tidal => assert(res@[9] == p),
                    SongLinkPlatform::AmazonStore => assert(res@[10] == p),
                    SongLinkPlatform::AmazonMusic => assert(res@[11] == p),
                    SongLinkPlatform::Soundcloud => assert(res@[12] == p),
                    SongLinkPlatform::Napster => assert(res@[13] == p),
                    SongLinkPlatform::Yandex => assert(res@[14] == p),
                    SongLinkPlatform::Spinrilla => assert(res@[15] == p),
                    SongLinkPlatform::Audius => assert(res@[16] == p),
                    SongLinkPlatform::Audiomack => assert(res@[17] == p),
                    SongLinkPlatform::Anghami => assert(res@[18] == p),
                    SongLinkPlatform::Boomplay => assert(res@[19] == p),
                    SongLinkPlatform::Bandcamp => assert(res@[20] == p),
                }
            }
        }
        res
    }

    /// The platform with the given key, if there is one.
    pub fn from_key(key: &str) -> (res: Option<SongLinkPlatform>)
        ensures
            match res {
                Some(p) => platform_key_spec(p) == key@,
                None => forall|p: SongLinkPlatform| platform_key_spec(p) != key@,
            },
    {
        let all = Self::all();
        let mut i: usize = 0;
        while i < all.len()
            invariant
                i <= all@.len(),
                forall|p: SongLinkPlatform| all@.contains(p),
                forall|j: int| 0 <= j < i ==> platform_key_spec(#[trigger] all@[j]) != key@,
            decreases all@.len() - i,
        {
            let k = all[i].key();
            if str_eq(k.as_str(), key) {
                return Some(all[i]);
            }
            i += 1;
        }
        proof {
            assert forall|p: SongLinkPlatform| platform_key_spec(p) != key@ by {
                assert(all@.contains(p));
                let j = choose|j: int| 0 <= j < all@.len() && all@[j] == p;
                assert(platform_key_spec(all@[j]) != key@);
            }
        }
        None
    }
}

/// No two platforms share a key, so reading a platform's key back gives the platform.
pub proof fn lemma_platform_key_round_trip(p: SongLinkPlatform, q: SongLinkPlatform)
    ensures
        platform_key_spec(p) == platform_key_spec(q) ==> p == q,
{
    reveal_strlit("spotify");
    reveal_strlit("itunes");
    reveal_strlit("appleMusic");
    reveal_strlit("youtube");
    reveal_strlit("youtubeMusic");
    reveal_strlit("google");
    reveal_strlit("googleStore");
    reveal_strlit("pandora");
    reveal_strlit("deezer");
    reveal_strlit("tidal");
    reveal_strlit("amazonStore");
    reveal_strlit("amazonMusic");
    reveal_strlit("soundcloud");
    reveal_strlit("napster");
    reveal_strlit("yandex");
    reveal_strlit("spinrilla");
    reveal_strlit("audius");
    reveal_strlit("audiomack");
    reveal_strlit("anghami");
    reveal_strlit("boomplay");
    reveal_strlit("bandcamp");
    if platform_key_spec(p) == platform_key_spec(q) && p != q {
        let a = platform_key_spec(p);
        let b = platform_key_spec(q);
        assert(a.len() == b.len());
        assert(a[0] == b[0] && a[1] == b[1] && a[2] == b[2] && a[3] == b[3] && a[4] == b[4]);
        assert(a[a.len() - 1] == b[b.len() - 1]);
    }
}

/// The link to a track on one platform.
#[derive(Debug, Clone, PartialEq, Eq)]
pub struct SongLinkPlatformLink {
    pub entity_unique_id: String,
    pub url: String,
    pub native_app_uri_mobile: Option<String>,
    pub native_app_uri_desktop: Option<String>,
}

/// The answer of song.link: the track's page and its links by platform.
#[derive(Debug, Clone)]
pub struct SongLinkResponse {
    pub entity_unique_id: String,
    pub user_country: String,
    pub page_url: String,
    /// The links, each platform at most once.
    pub links_by_platform: Vec<(SongLinkPlatform, SongLinkPlatformLink)>,
}

impl SongLinkResponse {
    /// No platform has two links.
    pub open spec fn well_formed(&self) -> bool {
        distinct_platforms(self.links_by_platform@)
    }

    /// The link to the track on a platform, if the answer has one.
    pub fn link_for(&self, platform: SongLinkPlatform) -> (res: Option<&SongLinkPlatformLink>)
        ensures
            match res {
                Some(l) => exists|i: int|
                    0 <= i < self.links_by_platform@.len() && (#[trigger] self.links_by_platform@[i]).0
                        == platform && self.links_by_platform@[i].1 == *l,
                None => forall|i: int|
                    0 <= i < self.links_by_platform@.len() ==> (#[trigger] self.links_by_platform@[i]).0
                        != platform,
            },
    {
        let mut i: usize = 0;
        while i < self.links_by_platform.len()
            invariant
                i <= self.links_by_platform@.len(),
                forall|k: int| 0 <= k < i ==> (#[trigger] self.links_by_platform@[k]).0 != platform,
            decreases self.links_by_platform@.len() - i,
        {
            if self.links_by_platform[i].0 == platform {
                return Some(&self.links_by_platform[i].1);
            }
            i += 1;
        }
        None
    }
}

/// No platform occurs twice among the links.
pub open spec fn distinct_platforms(links: Seq<(SongLinkPlatform, SongLinkPlatformLink)>) -> bool {
    forall|i: int, j: int|
        0 <= i < j < links.len() ==> (#[trigger] links[i]).0 != (#[trigger] links[j]).0
}

/// No key occurs twice among the keyed links.
pub open spec fn distinct_keys(links: Seq<(String, SongLinkPlatformLink)>) -> bool {
    forall|i: int, j: int|
        0 <= i < j < links.len() ==> (#[trigger] links[i]).0@ != (#[trigger] links[j]).0@
}

/// Whether `key` names a platform.
pub open spec fn is_platform_key(key: Seq<char>) -> bool {
    exists|p: SongLinkPlatform| platform_key_spec(p) == key
}

/// The links of an answer, each under the platform its key names, in the
/// same order; `None` when a key names no platform. Keys that were distinct
/// give distinct platforms.
pub fn links_by_platform(links: Vec<(String, SongLinkPlatformLink)>) -> (res: Option<
    Vec<(SongLinkPlatform, SongLinkPlatformLink)>,
>)
    ensures
        res is Some <==> forall|i: int| 0 <= i < links@.len() ==> is_platform_key(#[trigger] links@[i].0@),
        match res {
            Some(v) => {
                &&& v@.len() == links@.len()
                &&& forall|i: int|
                    0 <= i < v@.len() ==> platform_key_spec((#[trigger] v@[i]).0) == links@[i].0@
                        && v@[i].1 == links@[i].1
                &&& distinct_keys(links@) ==> distinct_platforms(v@)
            },
            None => true,
        },
{
    let ghost input = links@;
    let mut rest = links;
    let mut res: Vec<(SongLinkPlatform, SongLinkPlatformLink)> = Vec::new();
    while rest.len() > 0
        invariant
            res@.len() + rest@.len() == input.len(),
            input == links@,
            rest@ == input.subrange(res@.len() as int, input.len() as int),
            forall|i: int| 0 <= i < res@.len() ==> is_platform_key(#[trigger] input[i].0@),
            forall|i: int|
                0 <= i < res@.len() ==> platform_key_spec((#[trigger] res@[i]).0) == input[i].0@
                    && res@[i].1 == input[i].1,
        decreases rest@.len(),
    {
        let ghost done = res@.len() as int;
        let (key, link) = rest.remove(0);
        assert(input[done] == (key, link));
        match SongLinkPlatform::from_key(key.as_str()) {
            Some(p) => {
                res.push((p, link));
            },
            None => {
                assert(!is_platform_key(input[done].0@));
                assert(!(forall|i: int| 0 <= i < input.len() ==> is_platform_key(#[trigger] input[i].0@)));
                return None;
            },
        }
        assert(rest@ =~= input.subrange(res@.len() as int, input.len() as int));
    }
    assert forall|i: int, j: int| distinct_keys(input) && 0 <= i < j < res@.len() implies (
    #[trigger] res@[i]).0 != (#[trigger] res@[j]).0 by {
        assert(input[i].0@ != input[j].0@);
    }
    Some(res)
}


/// The query asking for the links of a track: its URL, preferring the song
/// over a single's album.
pub open spec fn query_spec(track_url: Seq<char>) -> Seq<(Seq<char>, Seq<char>)> {
    seq![("url"@, track_url), ("songIfSingle"@, "true"@)]
}

/// See [`query_spec`].
pub fn query_params(track_url: &str) -> (res: Vec<(String, String)>)
    ensures
        pairs_view(res@) == query_spec(track_url@),
{
    let mut res: Vec<(String, String)> = Vec::new();
    res.push(pair("url", track_url));
    res.push(pair("songIfSingle", "true"));
    assert(pairs_view(res@) =~= query_spec(track_url@));
    res
}

/// The error when an answer is no valid JSON of the expected shape.
pub fn parse_failure_message(body: &str) -> (res: String)
    ensures
        res@ == "Failed parsing json response:\n"@ + body@,
{
    let mut res = String::from_str("Failed parsing json response:\n");
    res.append(body);
    res
}

/// The song.link endpoint that gives a track's links.
pub open spec fn links_endpoint() -> Seq<char> {
    "https://api.song.link/v1-alpha.1/links"@
}

/// The URL asking for the links of a track: the endpoint with [`query_params`] as its query.
pub fn links_url(track_url: &str) -> (res: Result<String, url::ParseError>)
    ensures
        match res {
            Ok(u) => url_with_query_spec(links_endpoint(), query_spec(track_url@)) == Some(u@),
            Err(_) => url_with_query_spec(links_endpoint(), query_spec(track_url@)) is None,
        },
{
    let params = query_params(track_url);
    url_with_query("https://api.song.link/v1-alpha.1/links", &params)
}

} // verus!
