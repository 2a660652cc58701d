//! Error handling of the bot's user checks, the variant that suspends
//! rate-limited users.
//!
//! The caller inspects the error and hands its findings over as an
//! [`ErrorFacts`]; [`plan`] says which side effects to perform and what to
//! report.  Unlike [`crate::infrastructure::error_handler`], a rate-limited Spotify response
//! suspends the user for as long as its `Retry-After` header says, and the
//! handler gives up (reports the error unhandled) when that header is missing
//! or is no number.
use vstd::prelude::*;
use crate::numeric::{parse_i64, parse_i64_spec};

verus! {

/// Whether an error was dealt with, and whether the user was told about it.
#[derive(PartialEq, Eq, Structural, Clone, Copy, Debug)]
pub struct ErrorHandlingResult {
    pub handled: bool,
    pub user_notified: bool,
}

impl ErrorHandlingResult {
    pub open spec fn unhandled_spec() -> Self {
        Self { handled: false, user_notified: false }
    }

    pub open spec fn handled_spec() -> Self {
        Self { handled: true, user_notified: false }
    }

    pub open spec fn handled_notified_spec() -> Self {
        Self { handled: true, user_notified: true }
    }

    /// Nothing was done about the error.
    pub fn unhandled() -> (r: Self)
        ensures
            r == Self::unhandled_spec(),
    {
        ErrorHandlingResult { handled: false, user_notified: false }
    }

    /// The error was dealt with silently.
    pub fn handled() -> (r: Self)
        ensures
            r == Self::handled_spec(),
    {
        ErrorHandlingResult { handled: true, user_notified: false }
    }

    /// The error was dealt with and the user was told.
    pub fn handled_notified() -> (r: Self)
        ensures
            r == Self::handled_notified_spec(),
    {
        ErrorHandlingResult { handled: true, user_notified: true }
    }
}

impl Default for ErrorHandlingResult {
    fn default() -> (r: Self)
        ensures
            r == Self::unhandled_spec(),
    {
        Self::unhandled()
    }
}

/// A parsed Spotify API error.
#[derive(PartialEq, Eq, Clone, Debug)]
pub enum SpotifyError {
    /// A regular error object: its HTTP status and message.
    Regular { status: u16, message: String },
    /// An authentication error with its description.
    Auth { error_description: String },
}

/// Outcome of parsing the body of a failed Spotify response.
#[derive(PartialEq, Eq, Clone, Debug)]
pub enum SpotifyParse {
    Parsed(SpotifyError),
    NotSpotify,
    Unparsable,
}

/// What is known about a failed Spotify HTTP response.
#[derive(PartialEq, Eq, Clone, Debug)]
pub struct SpotifyResponseFacts {
    /// The response had status 429.
    pub too_many_requests: bool,
    /// The `Retry-After` header as text; `None` when it is missing or not
    /// visible ASCII.
    pub retry_after: Option<String>,
    pub parse: SpotifyParse,
}

/// What the error handler could learn about an error.
#[derive(PartialEq, Eq, Clone, Debug)]
pub struct ErrorFacts {
    /// `Some` when the error carries a failed Spotify HTTP response.
    pub spotify_response: Option<SpotifyResponseFacts>,
    /// `Some(invalid_token)` when the error is a Spotify client error.
    pub client_error: Option<bool>,
    /// `Some(bot_blocked)` when the error is a Telegram request error.
    pub request_error: Option<bool>,
}

/// The user status that an error leads to.
#[derive(PartialEq, Eq, Structural, Clone, Copy, Debug)]
pub enum StatusUpdate {
    Blocked,
    Forbidden,
    TokenInvalid,
}

/// The message sent to the user (a translation key with its arguments).
#[derive(PartialEq, Eq, Clone, Debug)]
pub enum Notice {
    /// `error.unavailable-in-country`
    UnavailableInCountry,
    /// `error.spotify-auth-failed`, with the error description.
    SpotifyAuthFailed { error: String },
    /// `error.spotify-invalid-token`
    SpotifyInvalidToken,
}

/// The side effects to perform, in this order, and the result to report.
#[derive(PartialEq, Eq, Clone, Debug)]
pub struct HandlingPlan {
    /// Suspend the user's Spotify checks for this many seconds.
    pub suspend_for: Option<i64>,
    /// Store this status for the user.
    pub set_status: Option<StatusUpdate>,
    /// Send the user this message, with the start keyboard attached.
    pub notice: Option<Notice>,
    pub result: ErrorHandlingResult,
}

/// The message of a Spotify error that means the service is not offered in the user's country.
pub open spec fn unavailable_in_country_message() -> Seq<char> {
    "Spotify is unavailable in this country"@
}

/// Whether a rate-limited response has no usable `Retry-After` header, so
/// that the handler gives up.
pub open spec fn retry_after_unusable(r: SpotifyResponseFacts) -> bool {
    r.too_many_requests && match r.retry_after {
        Some(t) => parse_i64_spec(t@) is None,
        None => true,
    }
}

/// Whether the Spotify response handler deals with the error.
pub open spec fn response_handled(facts: ErrorFacts) -> bool {
    facts.spotify_response matches Some(r) && !retry_after_unusable(r) && !(r.parse is NotSpotify)
}

/// Whether the Spotify client handler deals with the error.
pub open spec fn client_handled(facts: ErrorFacts) -> bool {
    !(facts.spotify_response matches Some(r) && retry_after_unusable(r)) && !response_handled(facts)
        && facts.client_error is Some
}

/// Whether the Telegram handler deals with the error.
pub open spec fn blocked_handled(facts: ErrorFacts) -> bool {
    !(facts.spotify_response matches Some(r) && retry_after_unusable(r)) && !response_handled(facts)
        && !client_handled(facts) && facts.request_error == Some(true)
}

fn is_unavailable_message(message: &String) -> (res: bool)
    ensures
        res == (message@ == unavailable_in_country_message()),
{
    let expected = String::from_str("Spotify is unavailable in this country");
    *message == expected
}

fn silent(suspend_for: Option<i64>, result: ErrorHandlingResult) -> (p: HandlingPlan)
    ensures
        p == (HandlingPlan { suspend_for, set_status: None, notice: None, result }),
{
    HandlingPlan { suspend_for, set_status: None, notice: None, result }
}

/// The plan for one error: the Spotify response handler first, then the
/// Spotify client handler, then the Telegram handler; the first that deals
/// with the error decides.
pub fn plan(facts: &ErrorFacts) -> (p: HandlingPlan)
    ensures
        // a rate-limited response without a usable header: give up, do nothing
        (facts.spotify_response matches Some(r) && retry_after_unusable(r)) ==> p == (HandlingPlan {
            suspend_for: None,
            set_status: None,
            notice: None,
            result: ErrorHandlingResult::unhandled_spec(),
        }),
        // a rate-limited response with a usable header: suspend
        (facts.spotify_response matches Some(r) && r.too_many_requests && !retry_after_unusable(r))
            ==> p.suspend_for is Some && Some(p.suspend_for->0 as int) == parse_i64_spec(
            facts.spotify_response->0.retry_after->0@),
        !(facts.spotify_response matches Some(r) && r.too_many_requests) ==> p.suspend_for is None,
        // the response handler
        response_handled(*facts) ==> match facts.spotify_response->0.parse {
            SpotifyParse::Parsed(SpotifyError::Regular { status, message }) => if status != 500
                && status == 403 && message@ == unavailable_in_country_message() {
                &&& p.set_status == Some(StatusUpdate::Forbidden)
                &&& p.notice == Some(Notice::UnavailableInCountry)
                &&& p.result == ErrorHandlingResult::handled_notified_spec()
            } else {
                p.set_status is None && p.notice is None && p.result
                    == ErrorHandlingResult::handled_spec()
            },
            SpotifyParse::Parsed(SpotifyError::Auth { error_description }) => {
                &&& p.set_status == Some(StatusUpdate::TokenInvalid)
                &&& p.notice == Some(Notice::SpotifyAuthFailed { error: error_description })
                &&& p.result == ErrorHandlingResult::handled_notified_spec()
            },
            _ => p.set_status is None && p.notice is None && p.result
                == ErrorHandlingResult::handled_spec(),
        },
        // the client handler
        client_handled(*facts) ==> if facts.client_error == Some(true) {
            &&& p.set_status == Some(StatusUpdate::TokenInvalid)
            &&& p.notice == Some(Notice::SpotifyInvalidToken)
            &&& p.result == ErrorHandlingResult::handled_notified_spec()
        } else {
            p.set_status is None && p.notice is None && p.result
                == ErrorHandlingResult::handled_spec()
        },
        // the Telegram handler
        blocked_handled(*facts) ==> p.set_status == Some(StatusUpdate::Blocked) && p.notice is None
            && p.result == ErrorHandlingResult::handled_notified_spec(),
        // nobody
        !(facts.spotify_response matches Some(r) && retry_after_unusable(r)) && !response_handled(
            *facts,
        ) && !client_handled(*facts) && !blocked_handled(*facts) ==> p.set_status is None
            && p.notice is None && p.result == ErrorHandlingResult::unhandled_spec(),
        p.notice is Some ==> p.result.user_notified,
        p.result.user_notified ==> p.result.handled,
{
    let mut suspend_for: Option<i64> = None;
    if let Some(r) = &facts.spotify_response {
        if r.too_many_requests {
            match &r.retry_after {
                Some(text) => {
                    match parse_i64(text.as_str()) {
                        Some(secs) => {
                            suspend_for = Some(secs);
                        },
                        None => {
                            return silent(None, ErrorHandlingResult::unhandled());
                        },
                    }
                },
                None => {
                    return silent(None, ErrorHandlingResult::unhandled());
                },
            }
        }
        match &r.parse {
            SpotifyParse::Unparsable => {
                return silent(suspend_for, ErrorHandlingResult::handled());
            },
            SpotifyParse::Parsed(SpotifyError::Regular { status, message }) => {
                if *status == 500 || !(*status == 403 && is_unavailable_message(message)) {
                    return silent(suspend_for, ErrorHandlingResult::handled());
                }
                return HandlingPlan {
                    suspend_for,
                    set_status: Some(StatusUpdate::Forbidden),
                    notice: Some(Notice::UnavailableInCountry),
                    result: ErrorHandlingResult::handled_notified(),
                };
            },
            SpotifyParse::Parsed(SpotifyError::Auth { error_description }) => {
                return HandlingPlan {
                    suspend_for,
                    set_status: Some(StatusUpdate::TokenInvalid),
                    notice: Some(Notice::SpotifyAuthFailed { error: error_description.clone() }),
                    result: ErrorHandlingResult::handled_notified(),
                };
            },
            SpotifyParse::NotSpotify => {},
        }
    }
    if let Some(invalid_token) = facts.client_error {
        if invalid_token {
            return HandlingPlan {
                suspend_for,
                set_status: Some(StatusUpdate::TokenInvalid),
                notice: Some(Notice::SpotifyInvalidToken),
                result: ErrorHandlingResult::handled_notified(),
            };
        }
        return silent(suspend_for, ErrorHandlingResult::handled());
    }
    if facts.request_error == Some(true) {
        return HandlingPlan {
            suspend_for,
            set_status: Some(StatusUpdate::Blocked),
            notice: None,
            result: ErrorHandlingResult::handled_notified(),
        };
    }
    silent(suspend_for, ErrorHandlingResult::unhandled())
}

} // verus!
