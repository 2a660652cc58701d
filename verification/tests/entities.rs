use rustify::commands::Command;
use rustify::entity::track_status::TrackStatus;
use rustify::entity::user::{Locale, UserStatus};
use rustify::entity::user_whitelist::UserWhitelistStatus;
use rustify::keyboards::StartKeyboard;
use rustify::serde_utils::{bool_from_int, lines_from_string};

#[test]
fn stored_values_round_trip() {
    for s in [TrackStatus::Disliked, TrackStatus::Ignore, TrackStatus::NoStatus] {
        assert_eq!(TrackStatus::from_value(s.to_value()), Ok(s));
    }
    assert_eq!(TrackStatus::NoStatus.to_value(), "none");
    assert!(TrackStatus::from_value("liked").is_err());
    for s in [UserStatus::Active, UserStatus::Blocked, UserStatus::Forbidden, UserStatus::TokenInvalid, UserStatus::NoStatus] {
        assert_eq!(UserStatus::from_value(s.to_value()), Ok(s));
    }
    assert_eq!(UserStatus::TokenInvalid.to_value(), "token_invalid");
    assert_eq!(UserWhitelistStatus::default(), UserWhitelistStatus::Pending);
    assert_eq!(UserWhitelistStatus::from_value("allowed"), Ok(UserWhitelistStatus::Allowed));
    let err = UserWhitelistStatus::from_value("maybe").unwrap_err();
    assert_eq!(err.value, "maybe");
}

#[test]
fn locales() {
    assert_eq!(Locale::English.as_str(), "en");
    assert_eq!(Locale::Russian.language(), "Russian");
    assert_eq!(Locale::from_value("ru"), Ok(Locale::Russian));
    assert!(Locale::from_value("de").is_err());
}

#[test]
fn serde_helpers() {
    assert!(bool_from_int::deserialize(1));
    assert!(!bool_from_int::deserialize(0));
    assert_eq!(bool_from_int::serialize(true), 1);
    assert_eq!(lines_from_string::deserialize("a\nb"), vec!["a".to_string(), "b".to_string()]);
    assert_eq!(lines_from_string::serialize(&vec!["a".to_string(), "b".to_string()]), "a\nb");
}

#[test]
fn keyboard_and_commands() {
    assert_eq!(StartKeyboard::Dislike.as_str(), "👎 Dislike");
    assert_eq!(StartKeyboard::from_text("📈 Stats"), Some(StartKeyboard::Stats));
    assert_eq!(StartKeyboard::from_text("Stats"), None);
    let rows = StartKeyboard::markup();
    assert_eq!(rows, vec![vec![StartKeyboard::Dislike], vec![StartKeyboard::Stats, StartKeyboard::Cleanup]]);
    assert_eq!(Command::Help.name(), "help");
    assert_eq!(Command::Start.description(), "start");
}
