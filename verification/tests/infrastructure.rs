use rustify::infrastructure::error_handler::{
    plan,
    ErrorFacts,
    ErrorHandlingResult,
    Notice,
    SpotifyError,
    SpotifyParse,
    SpotifyResponseFacts,
    StatusUpdate,
};

fn facts(r: Option<SpotifyResponseFacts>, client: Option<bool>, request: Option<bool>) -> ErrorFacts {
    ErrorFacts { spotify_response: r, client_error: client, request_error: request }
}

#[test]
fn rate_limit_is_counted() {
    let r = SpotifyResponseFacts { too_many_requests: true, parse: SpotifyParse::Unparsable };
    let p = plan(&facts(Some(r), None, None));
    assert!(p.count_rate_limit);
    assert_eq!(p.result, ErrorHandlingResult::handled());
}

#[test]
fn spotify_auth_error_notifies() {
    let r = SpotifyResponseFacts {
        too_many_requests: false,
        parse: SpotifyParse::Parsed(SpotifyError::Auth { error_description: "bad".to_string() }),
    };
    let p = plan(&facts(Some(r), None, None));
    assert_eq!(p.set_status, Some(StatusUpdate::SpotifyTokenInvalid));
    assert_eq!(p.notice, Some(Notice::SpotifyAuthFailed { error: "bad".to_string() }));
    assert!(!p.start_keyboard);
    assert_eq!(p.result, ErrorHandlingResult::handled_notified());
}

#[test]
fn unavailable_country() {
    let r = SpotifyResponseFacts {
        too_many_requests: false,
        parse: SpotifyParse::Parsed(SpotifyError::Regular {
            status: 403,
            message: "Spotify is unavailable in this country".to_string(),
        }),
    };
    let p = plan(&facts(Some(r), None, None));
    assert_eq!(p.set_status, Some(StatusUpdate::SpotifyForbidden));
    assert!(p.start_keyboard);
}

#[test]
fn fall_through_order() {
    let not_spotify = SpotifyResponseFacts { too_many_requests: false, parse: SpotifyParse::NotSpotify };
    let p = plan(&facts(Some(not_spotify), Some(true), Some(true)));
    assert_eq!(p.notice, Some(Notice::SpotifyInvalidToken));
    let p = plan(&facts(None, None, Some(true)));
    assert_eq!(p.set_status, Some(StatusUpdate::BotBlocked));
    assert_eq!(p.result, ErrorHandlingResult::handled_notified());
    let p = plan(&facts(None, None, None));
    assert_eq!(p.result, ErrorHandlingResult::unhandled());
    assert_eq!(ErrorHandlingResult::default(), ErrorHandlingResult::unhandled());
}
