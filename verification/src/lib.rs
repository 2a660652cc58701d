//! Verified core of a Telegram bot that watches what its users play on
//! Spotify, finds lyrics, and flags profanity in them.
use vstd::prelude::*;

pub mod bot;
pub mod cli;
pub mod commands;
pub mod entity;
pub mod error_handler;
pub mod errors;
pub mod format;
pub mod genius;
pub mod highlight;
pub mod infrastructure;
pub mod keyboards;
pub mod language;
pub mod logger;
pub mod lyrics;
pub mod lyrics_cache;
pub mod metrics;
pub mod numeric;
pub mod patterns;
pub mod profanity;
pub mod queue;
pub mod rickroll;
pub mod serde_utils;
pub mod skippage_service;
pub mod services;
pub mod settings;
pub mod text;
pub mod urls;

verus! {
}
