use rustify::error_handler::{
    plan,
    ErrorFacts,
    ErrorHandlingResult,
    Notice,
    SpotifyError,
    SpotifyParse,
    SpotifyResponseFacts,
    StatusUpdate,
};
use rustify::numeric::parse_i64;

fn response(too_many: bool, retry_after: Option<&str>, parse: SpotifyParse) -> ErrorFacts {
    ErrorFacts {
        spotify_response: Some(SpotifyResponseFacts {
            too_many_requests: too_many,
            retry_after: retry_after.map(str::to_string),
            parse,
        }),
        client_error: None,
        request_error: None,
    }
}

#[test]
fn result_constructors() {
    assert_eq!(ErrorHandlingResult::unhandled(), ErrorHandlingResult { handled: false, user_notified: false });
    assert_eq!(ErrorHandlingResult::handled(), ErrorHandlingResult { handled: true, user_notified: false });
    assert_eq!(
        ErrorHandlingResult::handled_notified(),
        ErrorHandlingResult { handled: true, user_notified: true }
    );
    assert_eq!(ErrorHandlingResult::default(), ErrorHandlingResult::unhandled());
}

#[test]
fn rate_limited_with_header_suspends() {
    let p = plan(&response(true, Some("30"), SpotifyParse::Unparsable));
    assert_eq!(p.suspend_for, Some(30));
    assert_eq!(p.result, ErrorHandlingResult::handled());
    assert_eq!(p.set_status, None);
}

#[test]
fn rate_limited_without_usable_header_gives_up() {
    for header in [None, Some("soon"), Some("")] {
        let p = plan(&response(true, header, SpotifyParse::Unparsable));
        assert_eq!(p.suspend_for, None);
        assert_eq!(p.set_status, None);
        assert_eq!(p.result, ErrorHandlingResult::unhandled());
    }
}

#[test]
fn spotify_errors() {
    let server = plan(&response(
        false,
        None,
        SpotifyParse::Parsed(SpotifyError::Regular { status: 500, message: "x".to_string() }),
    ));
    assert_eq!(server.result, ErrorHandlingResult::handled());
    let country = plan(&response(
        false,
        None,
        SpotifyParse::Parsed(SpotifyError::Regular {
            status: 403,
            message: "Spotify is unavailable in this country".to_string(),
        }),
    ));
    assert_eq!(country.set_status, Some(StatusUpdate::Forbidden));
    assert_eq!(country.notice, Some(Notice::UnavailableInCountry));
    assert_eq!(country.result, ErrorHandlingResult::handled_notified());
    let auth = plan(&response(
        false,
        None,
        SpotifyParse::Parsed(SpotifyError::Auth { error_description: "revoked".to_string() }),
    ));
    assert_eq!(auth.set_status, Some(StatusUpdate::TokenInvalid));
    assert_eq!(auth.notice, Some(Notice::SpotifyAuthFailed { error: "revoked".to_string() }));
}

#[test]
fn client_and_telegram_errors() {
    let facts = ErrorFacts { spotify_response: None, client_error: Some(true), request_error: None };
    let p = plan(&facts);
    assert_eq!(p.notice, Some(Notice::SpotifyInvalidToken));
    assert_eq!(p.result, ErrorHandlingResult::handled_notified());
    let facts = ErrorFacts { spotify_response: None, client_error: Some(false), request_error: Some(true) };
    assert_eq!(plan(&facts).result, ErrorHandlingResult::handled());
    let facts = ErrorFacts { spotify_response: None, client_error: None, request_error: Some(true) };
    let p = plan(&facts);
    assert_eq!(p.set_status, Some(StatusUpdate::Blocked));
    assert_eq!(p.notice, None);
    assert_eq!(p.result, ErrorHandlingResult::handled_notified());
    let facts = ErrorFacts { spotify_response: None, client_error: None, request_error: Some(false) };
    assert_eq!(plan(&facts).result, ErrorHandlingResult::unhandled());
    let facts = response(false, None, SpotifyParse::NotSpotify);
    assert_eq!(plan(&facts).result, ErrorHandlingResult::unhandled());
}

#[test]
fn parses_integers_like_std() {
    for s in ["0", "42", "-17", "+8", "9223372036854775807", "-9223372036854775808", "", "-", "+", "1a", " 1", "9223372036854775808", "-9223372036854775809", "99999999999999999999999"] {
        assert_eq!(parse_i64(s), s.parse::<i64>().ok(), "input {s:?}");
    }
}
