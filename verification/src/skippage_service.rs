//! Remembering, per user, which track plays now and which tracks were played
//! recently, in Redis.
use vstd::prelude::*;

verus! {

/// Keys and decisions of the skippage bookkeeping; Redis is driven by the caller.
pub struct SkippageService {}

/// The key of the track a user plays now: `"rustify:skippage:{user}:playing"`.
pub open spec fn playing_key_spec(user_id: Seq<char>) -> Seq<char> {
    "rustify:skippage:"@ + user_id + ":playing"@
}

/// The key marking that a user played a track: `"rustify:skippage:{user}:{track}"`.
pub open spec fn track_key_spec(user_id: Seq<char>, track_id: Seq<char>) -> Seq<char> {
    "rustify:skippage:"@ + user_id + seq![':'] + track_id
}

/// The pattern of all of a user's keys: `"rustify:skippage:{user}:*"`.
pub open spec fn user_pattern_spec(user_id: Seq<char>) -> Seq<char> {
    "rustify:skippage:"@ + user_id + ":*"@
}

impl SkippageService {
    /// See [`playing_key_spec`].
    pub fn playing_key(user_id: &str) -> (res: String)
        ensures
            res@ == playing_key_spec(user_id@),
    {
        let mut res = String::from_str("rustify:skippage:");
        res.append(user_id);
        res.append(":playing");
        res
    }

    /// See [`track_key_spec`].
    pub fn track_key(user_id: &str, track_id: &str) -> (res: String)
        ensures
            res@ == track_key_spec(user_id@, track_id@),
    {
        let mut res = String::from_str("rustify:skippage:");
        res.append(user_id);
        res.append(":");
        proof {
            reveal_strlit(":");
        }
        res.append(track_id);
        res
    }

    /// See [`user_pattern_spec`].
    pub fn user_pattern(user_id: &str) -> (res: String)
        ensures
            res@ == user_pattern_spec(user_id@),
    {
        let mut res = String::from_str("rustify:skippage:");
        res.append(user_id);
        res.append(":*");
        res
    }

    /// The track a user plays now, from what is stored: "nothing" when nothing is.
    pub fn current_playing(stored: Option<String>) -> (res: String)
        ensures
            res@ == match stored {
                Some(s) => s@,
                None => "nothing"@,
            },
    {
        match stored {
            Some(s) => s,
            None => String::from_str("nothing"),
        }
    }

    /// Whether a key that lives `ttl` more seconds is cut down to the
    /// skippage window of `skippage_secs`: only when it would outlive it.
    pub fn shortens(ttl: i64, skippage_secs: i64) -> (res: bool)
        ensures
            res == (ttl > skippage_secs),
    {
        ttl > skippage_secs
    }

    /// Whether the scan of a user's keys goes on after a batch that returned
    /// this cursor: it ends when the cursor comes back to zero.
    pub fn scan_continues(cursor: u64) -> (res: bool)
        ensures
            res == (cursor != 0),
    {
        cursor != 0
    }
}

} // verus!
