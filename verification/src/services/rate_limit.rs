//! Fixed-window rate limiting of user actions, counted in redis.
//!
//! Enforcing a limit takes three steps on the store: increment the action's
//! counter, set its expiry when the window starts, and read the remaining
//! time when the limit is exceeded.  The decisions between them are here.
use vstd::prelude::*;

use crate::text::concat;

verus! {

/// The answer to a request for an action.
#[derive(PartialEq, Eq, Structural, Clone, Copy, Debug)]
pub enum RateLimitOutput {
    Allowed,
    /// The caller has to wait this many seconds.
    NeedToWait(i64),
}

/// The actions that are rate limited.
#[derive(PartialEq, Eq, Structural, Clone, Copy, Debug)]
pub enum RateLimitAction {
    Analyze,
    Details,
    Dislike,
    Like,
    Recommendasion,
    Magic,
}

/// Name, number of allowed requests, and window in seconds of each action.
pub open spec fn config_spec(action: RateLimitAction) -> (Seq<char>, u32, i64) {
    match action {
        RateLimitAction::Analyze => ("analyze"@, 1, 300),
        RateLimitAction::Details => ("details"@, 1, 15),
        RateLimitAction::Dislike => ("dislike"@, 2, 20),
        RateLimitAction::Like => ("like"@, 1, 10),
        RateLimitAction::Recommendasion => ("recommendasion"@, 1, 3600),
        RateLimitAction::Magic => ("magic"@, 1, 21600),
    }
}

impl RateLimitAction {
    /// The action's name, how many requests a window allows, and the window in seconds.
    pub fn config(&self) -> (res: (&'static str, u32, i64))
        ensures
            (res.0@, res.1, res.2) == config_spec(*self),
    {
        match self {
            RateLimitAction::Analyze => ("analyze", 1, 5 * 60),
            RateLimitAction::Details => ("details", 1, 15),
            RateLimitAction::Dislike => ("dislike", 2, 20),
            RateLimitAction::Like => ("like", 1, 10),
            RateLimitAction::Recommendasion => ("recommendasion", 1, 60 * 60),
            RateLimitAction::Magic => ("magic", 1, 6 * 60 * 60),
        }
    }
}

/// What to do once the counter has been incremented.
#[derive(PartialEq, Eq, Structural, Clone, Copy, Debug)]
pub struct RateLimitPlan {
    /// The window starts now: give the counter its expiry.
    pub set_expiry: bool,
    /// The limit is exceeded: read the counter's remaining time and make the caller wait.
    pub over_limit: bool,
}

/// Decides rate-limited actions.
pub struct RateLimitService {}

impl RateLimitService {
    /// The redis key counting `action_name` for `user_id`.
    pub fn key(user_id: &str, action_name: &str) -> (key: String)
        ensures
            key@ == "rustify:ratelimit:"@ + user_id@ + ":"@ + action_name@,
    {
        let k = concat("rustify:ratelimit:", user_id);
        let k = concat(k.as_str(), ":");
        concat(k.as_str(), action_name)
    }

    /// After incrementing the counter to `count`: the first request of a window sets the
    /// expiry, and a count beyond `limit` is over the limit.
    pub fn enforce_limit(count: u32, limit: u32) -> (plan: RateLimitPlan)
        ensures
            plan == plan_spec(count, limit),
    {
        RateLimitPlan { set_expiry: count == 1, over_limit: count > limit }
    }

    /// The answer for a request over the limit, given the counter's remaining time in
    /// seconds (negative when the key has no expiry or does not exist).
    pub fn need_to_wait(remaining_ttl: i64) -> (out: RateLimitOutput)
        requires
            remaining_ttl <= i64::MAX / 1000,
        ensures
            out == RateLimitOutput::NeedToWait(if remaining_ttl > 0 { remaining_ttl } else { 0 }),
    {
        if remaining_ttl > 0 {
            RateLimitOutput::NeedToWait(remaining_ttl)
        } else {
            RateLimitOutput::NeedToWait(0)
        }
    }
}

/// What to do once the counter was incremented to `count`: set the expiry on the first
/// request of a window, and read the remaining time when `count` is beyond `limit`.
pub open spec fn plan_spec(count: u32, limit: u32) -> RateLimitPlan {
    RateLimitPlan { set_expiry: count == 1, over_limit: count > limit }
}

/// The whole answer to a request whose increment gave `count`; `remaining_ttl` is only
/// read when the limit is exceeded.
pub open spec fn answer_spec(count: u32, limit: u32, remaining_ttl: i64) -> RateLimitOutput {
    if count > limit {
        RateLimitOutput::NeedToWait(if remaining_ttl > 0 { remaining_ttl } else { 0 })
    } else {
        RateLimitOutput::Allowed
    }
}

/// Within a window, the first `limit` requests are allowed and every later one has to wait
/// a non-negative time.
pub proof fn lemma_rate_limit_allows_exactly_limit(count: u32, limit: u32, remaining_ttl: i64)
    ensures
        (answer_spec(count, limit, remaining_ttl) == RateLimitOutput::Allowed) <==> count <= limit,
        answer_spec(count, limit, remaining_ttl) matches RateLimitOutput::NeedToWait(w) ==> w >= 0,
{
}

/// The rate-limit law.  Let `n` be the number of requests for an action by a user since
/// its counter key was last absent, this one included (the counter's value after the
/// increment), and `remaining_ttl` the key's remaining time as the store reports it.  The
/// first request of a window, and only it, gives the key an expiry of the action's window;
/// the first `limit` requests are allowed; a later one has to wait the remaining time of the
/// key, or nothing when the key has no expiry left.  The key's expiry is only ever set to the
/// window and then counts down, so its remaining time is at most the window, and so is the
/// wait.
pub proof fn lemma_enforce_limit(action: RateLimitAction, n: u32, remaining_ttl: i64)
    requires
        n >= 1,
        remaining_ttl <= config_spec(action).2,
    ensures
        plan_spec(n, config_spec(action).1).set_expiry <==> n == 1,
        plan_spec(n, config_spec(action).1).over_limit <==> n > config_spec(action).1,
        n <= config_spec(action).1 ==> answer_spec(n, config_spec(action).1, remaining_ttl)
            == RateLimitOutput::Allowed,
        n > config_spec(action).1 ==> (answer_spec(n, config_spec(action).1, remaining_ttl) matches
            RateLimitOutput::NeedToWait(d) && 0 <= d <= config_spec(action).2 && (remaining_ttl > 0
            ==> d == remaining_ttl)),
{
}

/// Each action allows the documented number of requests per window: one analysis per
/// 5 minutes, one details request per 15 seconds, two dislikes per 20 seconds, one like
/// per 10 seconds, one recommendation per hour, and one magic per 6 hours.
pub proof fn lemma_rate_limit_table()
    ensures
        config_spec(RateLimitAction::Analyze).0 == "analyze"@,
        config_spec(RateLimitAction::Analyze).1 == 1,
        config_spec(RateLimitAction::Analyze).2 == 5 * 60,
        config_spec(RateLimitAction::Details).0 == "details"@,
        config_spec(RateLimitAction::Details).1 == 1,
        config_spec(RateLimitAction::Details).2 == 15,
        config_spec(RateLimitAction::Dislike).0 == "dislike"@,
        config_spec(RateLimitAction::Dislike).1 == 2,
        config_spec(RateLimitAction::Dislike).2 == 20,
        config_spec(RateLimitAction::Like).0 == "like"@,
        config_spec(RateLimitAction::Like).1 == 1,
        config_spec(RateLimitAction::Like).2 == 10,
        config_spec(RateLimitAction::Recommendasion).0 == "recommendasion"@,
        config_spec(RateLimitAction::Recommendasion).1 == 1,
        config_spec(RateLimitAction::Recommendasion).2 == 60 * 60,
        config_spec(RateLimitAction::Magic).0 == "magic"@,
        config_spec(RateLimitAction::Magic).1 == 1,
        config_spec(RateLimitAction::Magic).2 == 6 * 60 * 60,
{
}

} // verus!
