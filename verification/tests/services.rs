use rustify::infrastructure::cache::CacheManager;
use rustify::services::ai_slop_detection::shlabs::{Prediction, SHLabsProvider, Usage};
use rustify::services::ai_slop_detection::soul_over_ai::SoulOverAIProvider;
use rustify::services::ai_slop_detection::spot_the_ai::SpotTheAIProvider;
use rustify::services::ai_slop_detection::spotify_ai_blocker::SpotifyAIBlockerProvider;
use rustify::services::ai_slop_detection::{AISlopDetectionPrediction, AISlopDetectionService, Provider};
use rustify::services::magic::MagicService;
use rustify::services::metrics::MetricsService;
use rustify::services::rate_limit::{RateLimitAction, RateLimitOutput, RateLimitService};
use rustify::services::recommendasion::RecommendasionService;
use rustify::services::spotify_polling_backoff::SpotifyPollingBackoffService;
use rustify::services::throttle::ThrottleService;

#[test]
fn throttle_steps() {
    assert_eq!(ThrottleService::get_suspend_time(0), 10);
    assert_eq!(ThrottleService::get_suspend_time(5), 10);
    assert_eq!(ThrottleService::get_suspend_time(6), 15);
    assert_eq!(ThrottleService::get_suspend_time(226), 60);
    assert_eq!(ThrottleService::get_suspend_time(4799), 180);
    assert_eq!(ThrottleService::get_suspend_time(u64::MAX), 300);
    assert_eq!(ThrottleService::get_idle(None), 0);
    assert_eq!(ThrottleService::get_idle(Some(4)), 4);
    assert_eq!(ThrottleService::get_key("7"), "rustify:spotify-throttle:7");
}

#[test]
fn polling_backoff_steps() {
    assert_eq!(SpotifyPollingBackoffService::get_suspend_time(0), Some(6));
    assert_eq!(SpotifyPollingBackoffService::get_suspend_time(59), Some(6));
    assert_eq!(SpotifyPollingBackoffService::get_suspend_time(60), Some(9));
    assert_eq!(SpotifyPollingBackoffService::get_suspend_time(86400), Some(60));
    assert_eq!(SpotifyPollingBackoffService::get_suspend_time(604799), Some(180));
    assert_eq!(SpotifyPollingBackoffService::get_suspend_time(604800), None);
    assert_eq!(SpotifyPollingBackoffService::get_idle_duration(1000, 400), 600);
    assert_eq!(SpotifyPollingBackoffService::get_last_activity(None, 5), (5, true));
    assert_eq!(SpotifyPollingBackoffService::get_last_activity(Some(3), 5), (3, false));
    assert_eq!(SpotifyPollingBackoffService::get_key("u"), "rustify:spotify-polling-backoff:u");
}

#[test]
fn rate_limits() {
    assert_eq!(RateLimitAction::Analyze.config(), ("analyze", 1, 300));
    assert_eq!(RateLimitAction::Dislike.config(), ("dislike", 2, 20));
    assert_eq!(RateLimitAction::Magic.config(), ("magic", 1, 21600));
    assert_eq!(RateLimitService::key("u", "like"), "rustify:ratelimit:u:like");
    let first = RateLimitService::enforce_limit(1, 2);
    assert!(first.set_expiry && !first.over_limit);
    let second = RateLimitService::enforce_limit(2, 2);
    assert!(!second.set_expiry && !second.over_limit);
    let third = RateLimitService::enforce_limit(3, 2);
    assert!(third.over_limit);
    assert_eq!(RateLimitService::need_to_wait(12), RateLimitOutput::NeedToWait(12));
    assert_eq!(RateLimitService::need_to_wait(-2), RateLimitOutput::NeedToWait(0));
}

#[test]
fn small_services() {
    assert_eq!(MagicService::key("u", "t"), "rustify:magic:u:t");
    assert_eq!(MagicService::removed_ttl_secs(), 600);
    assert_eq!(MetricsService::spotify_429_key(), "rustify:metrics:spotify-429");
    assert_eq!(MetricsService::spotify_429_get(None), 0);
    assert_eq!(MetricsService::spotify_429_get(Some(9)), 9);
    assert_eq!(RecommendasionService::key("u"), "rustify:recommendasion:u:recommended");
    assert_eq!(RecommendasionService::kept(&[1, 2, 3]), vec![1, 2, 3]);
    let many: Vec<u32> = (0..1500).collect();
    let kept = RecommendasionService::kept(&many);
    assert_eq!(kept.len(), 1000);
    assert_eq!(kept[999], 999);
    assert_eq!(RecommendasionService::ttl_secs(), 2592000);
    assert_eq!(CacheManager::key_prefix("spotify"), "rustify:spotify:");
}

#[test]
fn ai_detection_providers() {
    assert_eq!(Provider::SoulOverAI.name(), "Soul Over AI");
    assert_eq!(Provider::SHLabs.link(), "https://www.submithub.com/ai-song-checker");
    assert_eq!(
        Provider::SpotifyAIBlocker.tg_link(),
        "<a href=\"https://github.com/CennoxX/spotify-ai-blocker\">Spotify AI Music Blocker</a>"
    );
    assert_eq!(AISlopDetectionService::providers(false), vec![Provider::SoulOverAI, Provider::SpotifyAIBlocker]);
    assert_eq!(AISlopDetectionService::providers(true).len(), 3);
    assert!(!AISlopDetectionPrediction::HumanMade.is_track_ai());
    assert!(AISlopDetectionPrediction::PureAI.is_track_ai());
    assert_eq!(AISlopDetectionPrediction::default(), AISlopDetectionPrediction::HumanMade);
}

#[test]
fn ai_detection_verdict() {
    let answers = vec![
        (Provider::SoulOverAI, None),
        (Provider::SpotifyAIBlocker, Some(AISlopDetectionPrediction::HumanMade)),
        (Provider::SHLabs, Some(AISlopDetectionPrediction::ProcessedAI)),
    ];
    let r = AISlopDetectionService::is_track_ai(&answers);
    assert_eq!(r.provider, Some(Provider::SHLabs));
    assert_eq!(r.prediction, AISlopDetectionPrediction::ProcessedAI);
    let r = AISlopDetectionService::is_track_ai(&answers[..2].to_vec());
    assert_eq!(r.provider, None);
    assert_eq!(r.prediction, AISlopDetectionPrediction::HumanMade);
}

#[test]
fn submithub_checker() {
    assert_eq!(SHLabsProvider::rate_limited_key(), "rustify:ai_slop:shlabs:rate_limited");
    assert_eq!(SHLabsProvider::track_key("t"), "rustify:ai_slop:shlabs:track:t");
    assert_eq!(SHLabsProvider::rate_limit_pause(0), 3600);
    assert_eq!(SHLabsProvider::rate_limit_pause(86000), 400);
    assert_eq!(SHLabsProvider::rate_limit_pause(86400), 1);
    assert_eq!(SHLabsProvider::cache_ttl_secs(), 31536000);
    assert!(SHLabsProvider::should_pause(&Usage { daily_remaining: 0, monthly_remaining: 5 }));
    assert!(!SHLabsProvider::should_pause(&Usage { daily_remaining: 1, monthly_remaining: 0 }));
    assert_eq!(SHLabsProvider::detect(None), AISlopDetectionPrediction::HumanMade);
    assert_eq!(SHLabsProvider::detect(Some(Prediction::PureAIGenerated)), AISlopDetectionPrediction::PureAI);
    assert_eq!(SHLabsProvider::detect(Some(Prediction::ProcessedAI)), AISlopDetectionPrediction::ProcessedAI);
}

#[test]
fn artist_lists() {
    assert_eq!(SoulOverAIProvider::artist_key("a1"), "rustify:ai_slop:soul_over_ai:artist:a1");
    assert_eq!(
        SoulOverAIProvider::listing_keys(&vec![Some("a".to_string()), None, Some("b".to_string())]),
        vec!["rustify:ai_slop:soul_over_ai:artist:a".to_string(), "rustify:ai_slop:soul_over_ai:artist:b".to_string()]
    );
    assert_eq!(SoulOverAIProvider::detect(true), AISlopDetectionPrediction::PureAI);
    assert_eq!(SpotifyAIBlockerProvider::detect(false), AISlopDetectionPrediction::HumanMade);
    assert_eq!(
        SpotTheAIProvider::artist_key("Artist"),
        "rustify:ai_slop:spot_the_ai:artist:4047c5607db6be8e0081725f0d164309"
    );
}
