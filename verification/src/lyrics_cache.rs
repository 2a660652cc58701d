//! The two-provider lyrics setup (Musixmatch, then Genius), and the settings
//! of the Redis cache that each provider keeps its answers in.
use vstd::prelude::*;

verus! {

/// A lyrics provider of the two-provider setup.
#[derive(PartialEq, Eq, Structural, Clone, Copy, Debug)]
pub enum Provider {
    Musixmatch,
    Genius,
}

impl Provider {
    /// The provider's displayed name.
    pub fn name(&self) -> (res: String)
        ensures
            res@ == match *self {
                Provider::Musixmatch => "Musixmatch"@,
                Provider::Genius => "Genius"@,
            },
    {
        match self {
            Provider::Musixmatch => String::from_str("Musixmatch"),
            Provider::Genius => String::from_str("Genius"),
        }
    }
}

/// How long cached lyrics are kept unless told otherwise: a day, in seconds.
pub const DEFAULT_LYRICS_CACHE_TTL: u64 = 86400;

/// Where the per-provider caches live and how long they keep an answer.
#[derive(Debug, Clone)]
pub struct LyricsCacheManager {
    pub redis_url: String,
    pub lyrics_cache_ttl: u64,
}

/// The key prefix of a provider's cache: `"rustify:lyrics:{provider}:"`.
pub open spec fn cache_prefix_spec(provider: Seq<char>) -> Seq<char> {
    "rustify:lyrics:"@ + provider + seq![':']
}

impl LyricsCacheManager {
    /// Settings before `init`: no Redis URL and a day's lifetime.
    pub fn new() -> (r: Self)
        ensures
            r.redis_url@.len() == 0,
            r.lyrics_cache_ttl == DEFAULT_LYRICS_CACHE_TTL,
    {
        LyricsCacheManager { redis_url: String::new(), lyrics_cache_ttl: DEFAULT_LYRICS_CACHE_TTL }
    }

    /// Settings with the given Redis URL and lifetime.
    pub fn init(redis_url: String, lyrics_cache_ttl: u64) -> (r: Self)
        ensures
            r.redis_url == redis_url,
            r.lyrics_cache_ttl == lyrics_cache_ttl,
    {
        LyricsCacheManager { redis_url, lyrics_cache_ttl }
    }

    /// The key prefix of a provider's cache (see [`cache_prefix_spec`]); the
    /// provider is named by its module, such as `musixmatch`.
    pub fn cache_prefix(provider: &str) -> (res: String)
        ensures
            res@ == cache_prefix_spec(provider@),
    {
        let mut res = String::from_str("rustify:lyrics:");
        res.append(provider);
        res.append(":");
        proof {
            reveal_strlit(":");
        }
        res
    }
}

} // verus!
