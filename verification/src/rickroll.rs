//! Queueing one particular song for a user, once a month at most.
use vstd::prelude::*;

verus! {

/// The Spotify id of the song.
pub open spec fn song_id_spec() -> Seq<char> {
    "4PTG3Z6ehGkBFwjybzWkR8"@
}

/// How long a user is left alone afterwards: thirty days, in seconds.
pub const RICKROLL_TTL_SECS: u64 = 2592000;

/// The key marking that a user got the song: `"rustify:rickroll:{user}"`.
pub fn key(user_id: &str) -> (res: String)
    ensures
        res@ == "rustify:rickroll:"@ + user_id@,
{
    let mut res = String::from_str("rustify:rickroll:");
    res.append(user_id);
    res
}

/// The song to queue (see [`song_id_spec`]).
pub fn song_id() -> (res: String)
    ensures
        res@ == song_id_spec(),
{
    String::from_str("4PTG3Z6ehGkBFwjybzWkR8")
}

/// Whether to queue the song: only when the user has not got it lately.
pub fn should_queue(already_rickrolled: bool) -> (res: bool)
    ensures
        res == !already_rickrolled,
{
    !already_rickrolled
}

} // verus!
