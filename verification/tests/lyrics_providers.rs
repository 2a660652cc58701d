use rustify::lyrics::azlyrics::{self, AZLyricsHit};
use rustify::lyrics::genius::{self, GeniusHit, LyricsResponse};
use rustify::lyrics::lrclib;
use rustify::lyrics::musixmatch::{self, SubtitleLine, SubtitleOutcome, TokenQueue};
use rustify::lyrics::{
    default_line_index_name,
    first_confident,
    next_action,
    provider_priority,
    track_cache_key,
    Provider,
    ProviderOutcome,
    SearchAction,
    SearchResultData,
};
use rustify::lyrics_cache::{self, LyricsCacheManager};

fn mxm_lyrics() -> musixmatch::Lyrics {
    musixmatch::Lyrics {
        verified: true,
        restricted: false,
        instrumental: false,
        explicit: false,
        lyrics: vec!["one".to_string(), "two".to_string()],
        subtitle: None,
        language: "en".to_string(),
        language_description: "English".to_string(),
        backlink_url: "https://www.musixmatch.com/lyrics/x".to_string(),
    }
}

#[test]
fn provider_names_and_priority() {
    assert_eq!(Provider::Musixmatch.name(), "Musixmatch");
    assert_eq!(Provider::Genius.name(), "Genius");
    assert_eq!(Provider::LrcLib.name(), "LrcLib");
    assert_eq!(provider_priority(), vec![Provider::LrcLib, Provider::Genius, Provider::Musixmatch]);
    assert_eq!(lyrics_cache::Provider::Genius.name(), "Genius");
}

#[test]
fn cache_keys() {
    assert_eq!(track_cache_key("abc"), "rustify:lyrics:abc");
    assert_eq!(LyricsCacheManager::cache_prefix("musixmatch"), "rustify:lyrics:musixmatch:");
    let m = LyricsCacheManager::new();
    assert_eq!(m.lyrics_cache_ttl, 86400);
    assert_eq!(m.redis_url, "");
    let m = LyricsCacheManager::init("redis://r".to_string(), 5);
    assert_eq!(m.lyrics_cache_ttl, 5);
}

#[test]
fn search_goes_through_providers_in_order() {
    assert_eq!(next_action(0, None), SearchAction::Ask(Provider::LrcLib));
    assert_eq!(next_action(1, Some(ProviderOutcome::NotFound)), SearchAction::Ask(Provider::Genius));
    assert_eq!(next_action(2, Some(ProviderOutcome::Failed)), SearchAction::Ask(Provider::Musixmatch));
    assert_eq!(next_action(2, Some(ProviderOutcome::Found)), SearchAction::Keep(Provider::Genius));
    assert_eq!(next_action(3, Some(ProviderOutcome::NotFound)), SearchAction::GiveUp);
    assert_eq!(next_action(3, Some(ProviderOutcome::Found)), SearchAction::Keep(Provider::Musixmatch));
}

#[test]
fn default_line_names_count_from_one() {
    assert_eq!(default_line_index_name(0), "1");
    assert_eq!(default_line_index_name(41), "42");
}

#[test]
fn musixmatch_lyrics_and_timestamps() {
    let mut l = mxm_lyrics();
    assert_eq!(l.lyrics(), vec!["one".to_string(), "two".to_string()]);
    assert_eq!(l.line_index_name(0), "1");
    assert_eq!(l.link(), "https://www.musixmatch.com/lyrics/x");
    assert_eq!(l.link_text(true), "Musixmatch Source");
    assert_eq!(l.link_text(false), "Text truncated. Full lyrics can be found at Musixmatch");
    assert_eq!(l.language(), "eng");
    l.language = "zz".to_string();
    assert_eq!(l.language(), "und");
    l.subtitle = Some(vec![
        SubtitleLine { secs: 5, nanos: 0, text: "first".to_string() },
        SubtitleLine { secs: 75, nanos: 500, text: "second".to_string() },
    ]);
    assert_eq!(l.lyrics(), vec!["first".to_string(), "second".to_string()]);
    assert_eq!(l.line_index_name(0), "0:05");
    assert_eq!(l.line_index_name(1), "1:15");
    assert_eq!(l.line_index_name(2), "3");
}

#[test]
fn musixmatch_finish_search() {
    assert!(musixmatch::finish_search(None, SubtitleOutcome::Missing).is_none());
    let mut restricted = mxm_lyrics();
    restricted.restricted = true;
    assert!(musixmatch::finish_search(Some(restricted), SubtitleOutcome::Missing).is_none());
    let mut instrumental = mxm_lyrics();
    instrumental.instrumental = true;
    assert!(!instrumental.usable());
    assert!(musixmatch::finish_search(Some(instrumental), SubtitleOutcome::Empty).is_none());
    let kept = musixmatch::finish_search(Some(mxm_lyrics()), SubtitleOutcome::Unparsable).unwrap();
    assert!(kept.subtitle.is_none());
    let line = SubtitleLine { secs: 1, nanos: 0, text: "x".to_string() };
    let with = musixmatch::finish_search(Some(mxm_lyrics()), SubtitleOutcome::Lines(vec![line.clone()])).unwrap();
    assert_eq!(with.subtitle, Some(vec![line]));
}

#[test]
fn musixmatch_tokens_rotate() {
    let mut q = TokenQueue::new(vec!["a".to_string(), "b".to_string(), "c".to_string()]);
    assert_eq!(q.len(), 3);
    assert_eq!(q.next_token(), "b");
    assert_eq!(q.next_token(), "c");
    assert_eq!(q.next_token(), "a");
    assert_eq!(q.next_token(), "b");
    let mut single = TokenQueue::new(vec!["only".to_string()]);
    assert_eq!(single.next_token(), "only");
    assert_eq!(single.next_token(), "only");
}

#[test]
fn musixmatch_search_params() {
    let artists = vec!["A".to_string(), "B".to_string()];
    let p = musixmatch::search_params("Album", "A", &artists, "Song", "id1", 215, "tok");
    let expect: Vec<(String, String)> = [
        ("format", "json"),
        ("namespace", "lyrics_synched"),
        ("subtitle_format", "mxm"),
        ("app_id", "web-desktop-app-v1.0"),
        ("q_album", "Album"),
        ("q_artist", "A"),
        ("q_artists", "A,B"),
        ("q_track", "Song"),
        ("track_spotify_id", "id1"),
        ("q_duration", "215"),
        ("f_subtitle_length", "215"),
        ("usertoken", "tok"),
    ]
    .iter()
    .map(|(k, v)| (k.to_string(), v.to_string()))
    .collect();
    assert_eq!(p, expect);
}

fn hit(synced: Option<&str>, plain: Option<&str>) -> lrclib::Lyrics {
    lrclib::Lyrics {
        id: 1,
        track_name: "Song".to_string(),
        artist_name: "Artist".to_string(),
        album_name: "Album".to_string(),
        instrumental: false,
        plain_lyrics: plain.map(str::to_string),
        synced_lyrics: synced.map(str::to_string),
    }
}

#[test]
fn lrclib_indexes_synced_lines() {
    let (names, texts) =
        lrclib::index_lyrics(&hit(Some("[00:12.34] Hello \n[01:02.00]World\nplain line"), Some("ignored")))
            .unwrap();
    assert_eq!(names, vec!["00:12".to_string(), "01:02".to_string(), "2".to_string()]);
    assert_eq!(texts, vec!["Hello".to_string(), "World".to_string(), "plain line".to_string()]);
    assert_eq!(lrclib::synced_entry(7, "[xx.9]no"), ("7".to_string(), "[xx.9]no".to_string()));
}

#[test]
fn lrclib_indexes_plain_lines() {
    let (names, texts) = lrclib::index_lyrics(&hit(None, Some("a\r\nb\n"))).unwrap();
    assert_eq!(names, vec!["0".to_string(), "1".to_string()]);
    assert_eq!(texts, vec!["a".to_string(), "b".to_string()]);
    assert!(lrclib::index_lyrics(&hit(None, None)).is_none());
}

#[test]
fn lrclib_first_fitting_hit() {
    let hits = vec![hit(None, None), hit(None, Some("x")), hit(Some("y"), None)];
    assert_eq!(lrclib::first_fitting(&hits, &vec![true, false, true]), Some(2));
    assert_eq!(lrclib::first_fitting(&hits, &vec![true, true, true]), Some(1));
    assert_eq!(lrclib::first_fitting(&hits, &vec![true, false, false]), None);
}

#[test]
fn lrclib_result() {
    let r = lrclib::SearchResult::new(
        "87".to_string(),
        vec!["00:01".to_string()],
        vec!["Hello there, how are you doing today? I am fine, thank you very much.".to_string()],
        "Some Artist",
        "Some Song",
    );
    assert_eq!(r.language(), "eng");
    assert_eq!(r.line_index_name(0), "00:01");
    assert_eq!(r.line_index_name(5), "5");
    assert_eq!(r.link(), "https://lrclib.net/search/Some%20Artist%20Some%20Song");
    assert_eq!(r.link_text(true), "LrcLib (with 87% confidence)\nSome Artist - Some Song");
    assert_eq!(
        r.link_text(false),
        "Text truncated. Full lyrics can be searched at LrcLib (with 87% confidence)\nSome Artist - Some Song"
    );
    let p = lrclib::search_params("a", "t", "al");
    assert_eq!(p[0], ("artist_name".to_string(), "a".to_string()));
    assert_eq!(p[2], ("album_name".to_string(), "al".to_string()));
}

#[test]
fn genius_entries() {
    assert_eq!(genius::display_title("  Song\u{a0}by\tArtist  "), "Song by Artist");
    assert_eq!(genius::search_query("Song", "Artist"), "Song Artist");
    assert_eq!(genius::lyrics_path(42), "/42/lyrics");
    let h = GeniusHit {
        id: 42,
        url: "https://genius.com/x".to_string(),
        full_title: "Song by\u{2003}Artist".to_string(),
        title: "Song".to_string(),
        primary_artist: "Artist".to_string(),
    };
    let e = genius::SearchResult::from_hit(&h, "90".to_string());
    assert_eq!(e.title, "Song by Artist");
    assert_eq!(e.language(), "und");
    assert_eq!(e.link(), "https://genius.com/x");
    assert_eq!(e.link_text(true), "Genius Source (with 90% confidence)\nSong by Artist\n");
    assert!(e.clone().with_lyrics(vec![]).is_none());
    let full = e
        .with_lyrics(vec!["Hello there, how are you doing today? I am fine, thank you very much.".to_string()])
        .unwrap();
    assert_eq!(full.language(), "eng");
    assert_eq!(full.lyrics().len(), 1);
}

#[test]
fn genius_lyrics_responses() {
    assert_eq!(genius::lyrics_from_response(3, &LyricsResponse::NotFound), Ok(vec![]));
    assert_eq!(
        genius::lyrics_from_response(3, &LyricsResponse::Found(String::new())),
        Err("Cannot get lyrics, for some reason for 3".to_string())
    );
    assert_eq!(
        genius::lyrics_from_response(3, &LyricsResponse::Found("a\nb".to_string())),
        Ok(vec!["a".to_string(), "b".to_string()])
    );
}

#[test]
fn azlyrics_titles_and_links() {
    assert_eq!(azlyrics::artist_or_unknown(None), "Unknown");
    assert_eq!(azlyrics::artist_or_unknown(Some("X")), "X");
    assert_eq!(azlyrics::search_query("Artist", "Song"), "Artist Song");
    assert_eq!(azlyrics::expected_title("The Artist", "My Song"), "\"the artist\" - my song lyrics");
    assert_eq!(
        azlyrics::compared_title("\"The Artist\" - My Song Lyrics | AZLyrics.com"),
        "\"the artist\"  my song lyrics"
    );
    let hit = AZLyricsHit { title: "T".to_string(), link: "https://az/x".to_string() };
    assert_eq!(AZLyricsHit::default().title, "");
    let r = azlyrics::SearchResult::new("70".to_string(), "line one\nline two", hit);
    assert_eq!(r.lyrics().len(), 2);
    assert_eq!(r.tg_link(true), "<a href=\"https://az/x\">AZLyrics (with 70% confidence)</a>");
    assert_eq!(
        r.tg_link(false),
        "<a href=\"https://az/x\">Text truncated. Full lyrics can be searched at AZLyrics (with 70% confidence)</a>"
    );
}

#[test]
fn search_result_data_dispatch() {
    let d = SearchResultData::Musixmatch(mxm_lyrics());
    assert_eq!(d.provider(), Provider::Musixmatch);
    assert_eq!(d.lyrics(), vec!["one".to_string(), "two".to_string()]);
    assert_eq!(d.language(), "eng");
    assert_eq!(d.line_index_name(1), "2");
    let g = genius::SearchResult {
        id: 1,
        url: "u".to_string(),
        title: "t".to_string(),
        confidence: "1".to_string(),
        lyrics: vec!["l".to_string()],
        language: "deu".to_string(),
    };
    let d = SearchResultData::Genius(g);
    assert_eq!(d.provider(), Provider::Genius);
    assert_eq!(d.link(), "u");
    assert_eq!(d.language(), "deu");
    assert_eq!(d.line_index_name(0), "1");
}

#[test]
fn lrclib_retry_pauses_double() {
    assert_eq!(lrclib::retry_delay_ms(0), Some(1000));
    assert_eq!(lrclib::retry_delay_ms(1), Some(2000));
    assert_eq!(lrclib::retry_delay_ms(2), Some(4000));
    assert_eq!(lrclib::retry_delay_ms(3), None);
    assert_eq!(lrclib::retry_delay_ms(u32::MAX), None);
}

#[test]
fn first_confident_hit() {
    assert_eq!(first_confident(&vec![false, true, true]), Some(1));
    assert_eq!(first_confident(&vec![true]), Some(0));
    assert_eq!(first_confident(&vec![false, false]), None);
    assert_eq!(first_confident(&Vec::new()), None);
}

#[test]
fn lrclib_search_url() {
    assert_eq!(
        lrclib::search_url("A B", "t", "al").unwrap(),
        "https://lrclib.net/api/search?artist_name=A+B&track_name=t&album_name=al"
    );
}

#[test]
fn musixmatch_search_url() {
    let url = musixmatch::search_url("al", "a", &vec!["a".to_string(), "b".to_string()], "t", "id", 61, "tok").unwrap();
    assert!(url.starts_with("https://apic-desktop.musixmatch.com/ws/1.1/macro.subtitles.get?format=json&"));
    assert!(url.contains("&q_artists=a%2Cb&"));
    assert!(url.ends_with("&q_duration=61&f_subtitle_length=61&usertoken=tok"));
}
