pub mod ai_slop_detection;
pub mod magic;
pub mod metrics;
pub mod notification;
pub mod rate_limit;
pub mod recommendasion;
pub mod song_link;
pub mod spotify_polling_backoff;
pub mod throttle;
pub mod track_language_stats;
pub mod track_status;
pub mod user_word_whitelist;
pub mod word_definition;
pub mod word_stats;
