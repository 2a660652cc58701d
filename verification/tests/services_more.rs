use rustify::entity::track_status::TrackStatus;
use rustify::services::notification::{JoinedUser, NotificationService};
use rustify::services::song_link::{links_by_platform, links_url, parse_failure_message, query_params, SongLinkPlatform, SongLinkPlatformLink, SongLinkResponse};
use rustify::services::track_language_stats::TrackLanguageStatsService;
use rustify::services::track_status::{TrackStatusQueryBuilder, TrackStatusRow, TrackStatusService};
use rustify::services::user_word_whitelist::{InsertOutcome, UserWordWhitelistService};
use rustify::services::word_definition::{DefinitionError, DefinitionSource, WordDefinitionService};
use rustify::services::word_stats::{Occurrence, WordStatsRow, WordStatsService};
use rustify::skippage_service::SkippageService;

#[test]
fn skippage_keys_and_decisions() {
    assert_eq!(SkippageService::playing_key("u1"), "rustify:skippage:u1:playing");
    assert_eq!(SkippageService::track_key("u1", "t9"), "rustify:skippage:u1:t9");
    assert_eq!(SkippageService::user_pattern("u1"), "rustify:skippage:u1:*");
    assert_eq!(SkippageService::current_playing(None), "nothing");
    assert_eq!(SkippageService::current_playing(Some("t".to_string())), "t");
    assert!(SkippageService::shortens(100, 60));
    assert!(!SkippageService::shortens(60, 60));
    assert!(!SkippageService::shortens(-1, 60));
    assert!(SkippageService::scan_continues(5));
    assert!(!SkippageService::scan_continues(0));
}

#[test]
fn song_link_platforms() {
    assert_eq!(SongLinkPlatform::Itunes.name(), "iTunes");
    assert_eq!(SongLinkPlatform::YoutubeMusic.name(), "YouTube Music");
    assert_eq!(SongLinkPlatform::AppleMusic.key(), "appleMusic");
    for p in SongLinkPlatform::all() {
        assert_eq!(SongLinkPlatform::from_key(&p.key()), Some(p));
    }
    assert_eq!(SongLinkPlatform::all().len(), 21);
    assert_eq!(SongLinkPlatform::from_key("AppleMusic"), None);
    assert_eq!(
        query_params("https://open.spotify.com/track/x"),
        vec![
            ("url".to_string(), "https://open.spotify.com/track/x".to_string()),
            ("songIfSingle".to_string(), "true".to_string())
        ]
    );
    assert_eq!(parse_failure_message("{}"), "Failed parsing json response:\n{}");
}

#[test]
fn language_stats() {
    let r = TrackLanguageStatsService::increment("u", Some("eng".to_string()));
    assert_eq!(r.count, 1);
    assert_eq!(TrackLanguageStatsService::label(&None), "none");
    assert_eq!(TrackLanguageStatsService::label(&Some("fra".to_string())), "fra");
    let decoded = TrackLanguageStatsService::decode(&vec![
        (Some("eng".to_string()), 5i64),
        (Some("xyz1".to_string()), 2),
        (None, 1),
    ]);
    assert_eq!(decoded, vec![(Some("eng".to_string()), 5), (None, 2), (None, 1)]);
}

#[test]
fn allowed_words() {
    assert_eq!(UserWordWhitelistService::stored_word("HeLLo"), "hello");
    let set = UserWordWhitelistService::ok_words(&vec!["a".to_string(), "b".to_string(), "a".to_string()]);
    assert_eq!(set.to_vec(), vec!["a".to_string(), "b".to_string()]);
    assert_eq!(UserWordWhitelistService::added(InsertOutcome::Inserted), Ok(true));
    assert_eq!(UserWordWhitelistService::added(InsertOutcome::AlreadyThere), Ok(false));
    assert_eq!(UserWordWhitelistService::added(InsertOutcome::Failed("db".to_string())), Err("db".to_string()));
    assert!(UserWordWhitelistService::removed(1));
    assert!(!UserWordWhitelistService::removed(0));
}

#[test]
fn admin_notifications() {
    let u = JoinedUser { id: 42, first_name: "Ann".to_string(), last_name: None, username: Some("ann".to_string()) };
    assert_eq!(
        NotificationService::user_joined_message(&Some(u.clone()), &None),
        "🆕 <b>New user joined</b>\n\n<code>42</code> <a href=\"tg://user?id=42\">link</a> Ann  (@ann)\nRef Code: <i>None</i>"
    );
    assert_eq!(
        NotificationService::user_joined_message(&Some(u), &Some("abc".to_string())),
        "🆕 <b>New user joined</b>\n\n<code>42</code> <a href=\"tg://user?id=42\">link</a> Ann  (@ann)\nRef Code: <code>abc</code>"
    );
    assert_eq!(NotificationService::user_joined_message(&None, &None), "🆕 <b>New user joined</b>\n\nUnknown");
    assert_eq!(
        NotificationService::spotify_connected_message("7", "Bo"),
        "✅ <b>User connected Spotify</b>\n\nName: Bo\nID: <code>7</code> <a href=\"tg://user?id=7\">link</a>"
    );
}

#[test]
fn word_statistics() {
    assert_eq!(WordStatsService::increments(Occurrence::Check), (0, 1, 0));
    assert_eq!(WordStatsService::increments(Occurrence::Details), (1, 0, 0));
    assert_eq!(WordStatsService::increments(Occurrence::Analyze), (0, 0, 1));
    let rows = WordStatsService::occurrence_rows(&vec!["x".to_string()], Occurrence::Analyze);
    assert_eq!(rows, vec![WordStatsRow { word: "x".to_string(), details_occurrences: 0, check_occurrences: 0, analyze_occurrences: 1 }]);
    assert!(WordStatsService::occurrence_rows(&vec![], Occurrence::Check).is_empty());
    assert_eq!(WordStatsService::page_offset(3, 10), 30);
    let stats = vec![
        WordStatsRow { word: "a".to_string(), details_occurrences: 1, check_occurrences: 2, analyze_occurrences: 3 },
        WordStatsRow { word: "b".to_string(), details_occurrences: 0, check_occurrences: 0, analyze_occurrences: 0 },
    ];
    let defs = vec![("a".to_string(), "first".to_string()), ("a".to_string(), "second".to_string())];
    let out = WordStatsService::with_definitions(&stats, &defs, "en");
    assert_eq!(out[0].definition.as_deref(), Some("first"));
    assert_eq!(out[0].locale, "en");
    assert_eq!(out[0].analyze_occurrences, 3);
    assert_eq!(out[1].definition, None);
}

#[test]
fn word_definitions() {
    assert_eq!(WordDefinitionService::source(Some("d".to_string())), DefinitionSource::Stored("d".to_string()));
    assert_eq!(WordDefinitionService::source(None), DefinitionSource::Ask);
    assert_eq!(WordDefinitionService::system_message(), "You are a helpful assistant.");
    assert_eq!(WordDefinitionService::first_content(&vec![]), Err(DefinitionError::NoChoice));
    assert_eq!(WordDefinitionService::first_content(&vec![None, Some("x".to_string())]), Err(DefinitionError::NoContent));
    assert_eq!(WordDefinitionService::first_content(&vec![Some("x".to_string())]), Ok("x".to_string()));
}

#[test]
fn track_status_queries() {
    let rows = vec![
        TrackStatusRow { user_id: "u1".to_string(), track_id: "t1".to_string(), status: TrackStatus::Disliked, skips: 1 },
        TrackStatusRow { user_id: "u1".to_string(), track_id: "t2".to_string(), status: TrackStatus::Ignore, skips: 0 },
        TrackStatusRow { user_id: "u2".to_string(), track_id: "t1".to_string(), status: TrackStatus::Disliked, skips: 3 },
    ];
    let q = TrackStatusQueryBuilder::new().user_id(Some("u1")).track_id(None).status(None);
    assert_eq!(TrackStatusService::select(&q, &rows).len(), 2);
    let q1 = TrackStatusQueryBuilder::new().user_id(Some("u1")).status(Some(TrackStatus::Disliked));
    let q2 = TrackStatusQueryBuilder::new().status(Some(TrackStatus::Disliked)).user_id(Some("u1"));
    assert_eq!(q1, q2);
    assert_eq!(TrackStatusService::select(&q1, &rows), vec![rows[0].clone()]);
    assert_eq!(TrackStatusService::select(&TrackStatusQueryBuilder::new(), &rows).len(), 3);
    assert_eq!(TrackStatusService::status_or_none(None), TrackStatus::NoStatus);
    assert_eq!(TrackStatusService::status_or_none(Some(TrackStatus::Ignore)), TrackStatus::Ignore);
    assert_eq!(TrackStatusService::skips_total(None), 0);
    assert_eq!(TrackStatusService::skips_total(Some(None)), 0);
    assert_eq!(TrackStatusService::skips_total(Some(Some(9))), 9);
}

#[test]
fn song_link_lookup() {
    let link = |url: &str| SongLinkPlatformLink {
        entity_unique_id: "e".to_string(),
        url: url.to_string(),
        native_app_uri_mobile: None,
        native_app_uri_desktop: None,
    };
    let r = SongLinkResponse {
        entity_unique_id: "x".to_string(),
        user_country: "US".to_string(),
        page_url: "https://song.link/x".to_string(),
        links_by_platform: vec![(SongLinkPlatform::Deezer, link("d")), (SongLinkPlatform::Tidal, link("t"))],
    };
    assert_eq!(r.link_for(SongLinkPlatform::Tidal).map(|l| l.url.as_str()), Some("t"));
    assert!(r.link_for(SongLinkPlatform::Spotify).is_none());
}

#[test]
fn song_link_keys_to_platforms() {
    let link = |url: &str| SongLinkPlatformLink {
        entity_unique_id: "e".to_string(),
        url: url.to_string(),
        native_app_uri_mobile: None,
        native_app_uri_desktop: None,
    };
    let keyed = vec![("appleMusic".to_string(), link("a")), ("youtubeMusic".to_string(), link("y"))];
    let links = links_by_platform(keyed).unwrap();
    assert_eq!(links.len(), 2);
    assert_eq!(links[0].0, SongLinkPlatform::AppleMusic);
    assert_eq!(links[0].1.url, "a");
    assert_eq!(links[1].0, SongLinkPlatform::YoutubeMusic);
    assert!(links_by_platform(vec![("myspace".to_string(), link("m"))]).is_none());
    assert!(links_by_platform(Vec::new()).unwrap().is_empty());
}

#[test]
fn song_link_request_url() {
    assert_eq!(
        links_url("https://open.spotify.com/track/x").unwrap(),
        "https://api.song.link/v1-alpha.1/links?url=https%3A%2F%2Fopen.spotify.com%2Ftrack%2Fx&songIfSingle=true"
    );
}
