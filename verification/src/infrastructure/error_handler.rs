//! Deciding what to do about an error that came up while serving a user.
//!
//! The caller inspects the error (which outside error it wraps) and hands the
//! findings over as an [`ErrorFacts`]; [`plan`] then says which side effects
//! to perform and what to report back.  Performing them is the caller's job;
//! if one of them fails, the error counts as unhandled.
use vstd::prelude::*;

verus! {

/// Whether an error was dealt with, and whether the user was told about it.
#[derive(PartialEq, Eq, Structural, Clone, Copy, Debug)]
pub struct ErrorHandlingResult {
    pub handled: bool,
    pub user_notified: bool,
}

impl ErrorHandlingResult {
    /// Nothing was done about the error.
    pub fn unhandled() -> (r: Self)
        ensures
            !r.handled,
            !r.user_notified,
    {
        Self { handled: false, user_notified: false }
    }

    /// The error was dealt with silently.
    pub fn handled() -> (r: Self)
        ensures
            r.handled,
            !r.user_notified,
    {
        Self { handled: true, user_notified: false }
    }

    /// The error was dealt with and the user was told.
    pub fn handled_notified() -> (r: Self)
        ensures
            r.handled,
            r.user_notified,
    {
        Self { handled: true, user_notified: true }
    }
}

impl Default for ErrorHandlingResult {
    fn default() -> (r: Self)
        ensures
            !r.handled,
            !r.user_notified,
    {
        Self::unhandled()
    }
}

/// A parsed Spotify API error.
#[derive(PartialEq, Eq, Clone, Debug)]
pub enum SpotifyError {
    /// A regular error object: its HTTP status and message.
    Regular { status: u16, message: String },
    /// An authentication error with its description.
    Auth { error_description: String },
}

/// Outcome of parsing the body of a failed Spotify response.
#[derive(PartialEq, Eq, Clone, Debug)]
pub enum SpotifyParse {
    /// The body held a Spotify error.
    Parsed(SpotifyError),
    /// The error was not a Spotify response error after all.
    NotSpotify,
    /// The body could not be parsed.
    Unparsable,
}

/// What is known about a failed Spotify HTTP response.
#[derive(PartialEq, Eq, Clone, Debug)]
pub struct SpotifyResponseFacts {
    /// The response had status 429.
    pub too_many_requests: bool,
    pub parse: SpotifyParse,
}

/// What the error handler could learn about an error.
#[derive(PartialEq, Eq, Clone, Debug)]
pub struct ErrorFacts {
    /// `Some` when the error carries a failed Spotify HTTP response.
    pub spotify_response: Option<SpotifyResponseFacts>,
    /// `Some(invalid_token)` when the error is a Spotify client error.
    pub client_error: Option<bool>,
    /// `Some(bot_blocked)` when the error is a Telegram request error.
    pub request_error: Option<bool>,
}

/// The user status that an error leads to.
#[derive(PartialEq, Eq, Structural, Clone, Copy, Debug)]
pub enum StatusUpdate {
    BotBlocked,
    SpotifyForbidden,
    SpotifyTokenInvalid,
}

/// The message sent to the user about an error (a message key with its arguments).
#[derive(PartialEq, Eq, Clone, Debug)]
pub enum Notice {
    /// `error.unavailable-in-country`
    UnavailableInCountry,
    /// `error.spotify-auth-failed`, with the error description.
    SpotifyAuthFailed { error: String },
    /// `error.spotify-invalid-token`
    SpotifyInvalidToken,
}

/// The side effects to perform, in this order, and the result to report.
#[derive(PartialEq, Eq, Clone, Debug)]
pub struct HandlingPlan {
    /// Count one more Spotify rate-limit error.
    pub count_rate_limit: bool,
    /// Store this status for the user.
    pub set_status: Option<StatusUpdate>,
    /// Send the user this message.
    pub notice: Option<Notice>,
    /// Attach the start keyboard to the message.
    pub start_keyboard: bool,
    pub result: ErrorHandlingResult,
}

/// The message of a Spotify error that means the service is not offered in the user's country.
pub open spec fn unavailable_in_country_message() -> Seq<char> {
    "Spotify is unavailable in this country"@
}

/// A Spotify 403 error saying that Spotify is unavailable in the user's country.
pub open spec fn is_unavailable_in_country(status: u16, message: Seq<char>) -> bool {
    status == 403 && message == unavailable_in_country_message()
}

/// Whether the Spotify response handler deals with the error.
pub open spec fn response_handled(facts: ErrorFacts) -> bool {
    facts.spotify_response matches Some(r) && !(r.parse is NotSpotify)
}

/// Whether the Spotify client handler deals with the error (it is reached only when
/// the response handler did not).
pub open spec fn client_handled(facts: ErrorFacts) -> bool {
    !response_handled(facts) && facts.client_error is Some
}

/// Whether the Telegram handler deals with the error (reached only when neither before did).
pub open spec fn blocked_handled(facts: ErrorFacts) -> bool {
    !response_handled(facts) && !client_handled(facts) && facts.request_error == Some(true)
}

fn is_unavailable_message(message: &String) -> (res: bool)
    ensures
        res == (message@ == unavailable_in_country_message()),
{
    let expected = String::from_str("Spotify is unavailable in this country");
    *message == expected
}

/// The plan for one error: the Spotify response handler first, then the Spotify
/// client handler, then the Telegram handler; the first that deals with the error
/// decides.
pub fn plan(facts: &ErrorFacts) -> (p: HandlingPlan)
    ensures
        p.count_rate_limit == (facts.spotify_response matches Some(r) && r.too_many_requests),
        // response handler
        match facts.spotify_response {
            Some(r) => match r.parse {
                SpotifyParse::Unparsable => p.set_status is None && p.notice is None && p.result
                    == ErrorHandlingResult::handled_spec(),
                SpotifyParse::Parsed(e) => match e {
                    SpotifyError::Regular { status, message } => if status == 500
                        || !is_unavailable_in_country(status, message@) {
                        &&& p.set_status is None
                        &&& p.notice is None
                        &&& p.result == ErrorHandlingResult::handled_spec()
                    } else {
                        &&& p.set_status == Some(StatusUpdate::SpotifyForbidden)
                        &&& p.notice == Some(Notice::UnavailableInCountry)
                        &&& p.start_keyboard
                        &&& p.result == ErrorHandlingResult::handled_notified_spec()
                    },
                    SpotifyError::Auth { error_description } => {
                        &&& p.set_status == Some(StatusUpdate::SpotifyTokenInvalid)
                        &&& p.notice == Some(Notice::SpotifyAuthFailed { error: error_description })
                        &&& !p.start_keyboard
                        &&& p.result == ErrorHandlingResult::handled_notified_spec()
                    },
                },
                SpotifyParse::NotSpotify => true,
            },
            None => true,
        },
        // client handler
        client_handled(*facts) ==> if facts.client_error == Some(true) {
            &&& p.set_status == Some(StatusUpdate::SpotifyTokenInvalid)
            &&& p.notice == Some(Notice::SpotifyInvalidToken)
            &&& p.start_keyboard
            &&& p.result == ErrorHandlingResult::handled_notified_spec()
        } else {
            &&& p.set_status is None
            &&& p.notice is None
            &&& p.result == ErrorHandlingResult::handled_spec()
        },
        // Telegram handler
        blocked_handled(*facts) ==> p.set_status == Some(StatusUpdate::BotBlocked) && p.notice
            is None && p.result == ErrorHandlingResult::handled_notified_spec(),
        // nobody
        !response_handled(*facts) && !client_handled(*facts) && !blocked_handled(*facts)
            ==> p.set_status is None && p.notice is None && p.result
            == ErrorHandlingResult::unhandled_spec(),
        p.notice is None ==> !p.start_keyboard,
        p.notice is Some ==> p.result.user_notified,
        p.result.user_notified ==> p.result.handled,
{
    let count_rate_limit = match &facts.spotify_response {
        Some(r) => r.too_many_requests,
        None => false,
    };
    if let Some(r) = &facts.spotify_response {
        match &r.parse {
            SpotifyParse::Unparsable => {
                return HandlingPlan {
                    count_rate_limit,
                    set_status: None,
                    notice: None,
                    start_keyboard: false,
                    result: ErrorHandlingResult::handled(),
                };
            },
            SpotifyParse::Parsed(SpotifyError::Regular { status, message }) => {
                if *status == 500 || !(*status == 403 && is_unavailable_message(message)) {
                    return HandlingPlan {
                        count_rate_limit,
                        set_status: None,
                        notice: None,
                        start_keyboard: false,
                        result: ErrorHandlingResult::handled(),
                    };
                }
                return HandlingPlan {
                    count_rate_limit,
                    set_status: Some(StatusUpdate::SpotifyForbidden),
                    notice: Some(Notice::UnavailableInCountry),
                    start_keyboard: true,
                    result: ErrorHandlingResult::handled_notified(),
                };
            },
            SpotifyParse::Parsed(SpotifyError::Auth { error_description }) => {
                return HandlingPlan {
                    count_rate_limit,
                    set_status: Some(StatusUpdate::SpotifyTokenInvalid),
                    notice: Some(Notice::SpotifyAuthFailed { error: error_description.clone() }),
                    start_keyboard: false,
                    result: ErrorHandlingResult::handled_notified(),
                };
            },
            SpotifyParse::NotSpotify => {},
        }
    }
    if let Some(invalid_token) = facts.client_error {
        if invalid_token {
            return HandlingPlan {
                count_rate_limit,
                set_status: Some(StatusUpdate::SpotifyTokenInvalid),
                notice: Some(Notice::SpotifyInvalidToken),
                start_keyboard: true,
                result: ErrorHandlingResult::handled_notified(),
            };
        }
        return HandlingPlan {
            count_rate_limit,
            set_status: None,
            notice: None,
            start_keyboard: false,
            result: ErrorHandlingResult::handled(),
        };
    }
    if facts.request_error == Some(true) {
        return HandlingPlan {
            count_rate_limit,
            set_status: Some(StatusUpdate::BotBlocked),
            notice: None,
            start_keyboard: false,
            result: ErrorHandlingResult::handled_notified(),
        };
    }
    HandlingPlan {
        count_rate_limit,
        set_status: None,
        notice: None,
        start_keyboard: false,
        result: ErrorHandlingResult::unhandled(),
    }
}

impl ErrorHandlingResult {
    pub open spec fn unhandled_spec() -> Self {
        Self { handled: false, user_notified: false }
    }

    pub open spec fn handled_spec() -> Self {
        Self { handled: true, user_notified: false }
    }

    pub open spec fn handled_notified_spec() -> Self {
        Self { handled: true, user_notified: true }
    }
}

} // verus!
