use rustify::logger::{default_level, loki_settings, targets, LogLevel};
use rustify::rickroll;
use rustify::settings::{
    ai_settings,
    censor_words,
    influx_settings,
    lyrics_cache_ttl,
    musixmatch_tokens,
    replacements,
    server_http_address,
    split_commas,
    MissingInfluxSetting,
};

#[test]
fn splitting_settings() {
    assert_eq!(split_commas("a,b,,c"), vec!["a", "b", "", "c"]);
    assert_eq!(split_commas(""), vec![""]);
    assert_eq!(musixmatch_tokens(Some("t1,t2")), vec!["t1", "t2"]);
    assert_eq!(musixmatch_tokens(None), vec![""]);
    assert_eq!(censor_words(Some("x")), vec!["x"]);
    assert_eq!(censor_words(None), vec![""]);
}

#[test]
fn defaults() {
    assert_eq!(lyrics_cache_ttl(None), 86400);
    assert_eq!(lyrics_cache_ttl(Some(5)), 5);
    assert_eq!(server_http_address(None), "0.0.0.0:3000");
    assert_eq!(server_http_address(Some("1.2.3.4:1".to_string())), "1.2.3.4:1");
    let ai = ai_settings(Some("k".to_string()), None, None).unwrap();
    assert_eq!(ai.model, "gpt-4o");
    assert_eq!(ai.api_base, None);
    assert!(ai_settings(None, Some("b".to_string()), Some("m".to_string())).is_none());
}

#[test]
fn letter_replacements() {
    let r = replacements();
    assert_eq!(r.len(), 52);
    assert_eq!(r[0], ('a', 'a'));
    assert_eq!(r[1], ('A', 'a'));
    assert_eq!(r[51], ('Z', 'z'));
}

#[test]
fn influx_configuration() {
    let s = |v: &str| Some(v.to_string());
    assert_eq!(influx_settings(None, None, None, None, None), Ok(None));
    assert_eq!(influx_settings(s(""), None, None, None, None), Ok(None));
    assert_eq!(influx_settings(s("http://i"), None, s("b"), s("o"), None), Err(MissingInfluxSetting::Token));
    assert_eq!(influx_settings(s("http://i"), s("t"), None, s("o"), None), Err(MissingInfluxSetting::Bucket));
    assert_eq!(influx_settings(s("http://i"), s("t"), s("b"), None, None), Err(MissingInfluxSetting::Org));
    let ok = influx_settings(s("http://i"), s("t"), s("b"), s("o"), s("x")).unwrap().unwrap();
    assert_eq!(ok.instance.as_deref(), Some("x"));
}

#[test]
fn logging_setup() {
    assert_eq!(default_level(None), Some(LogLevel::Warn));
    assert_eq!(default_level(Some("DEBUG")), Some(LogLevel::Debug));
    assert_eq!(default_level(Some("5")), Some(LogLevel::Trace));
    assert_eq!(default_level(Some("loud")), None);
    let t = targets();
    assert_eq!(t[0], ("rustify".to_string(), LogLevel::Trace));
    assert_eq!(t[1], ("teloxide".to_string(), LogLevel::Info));
    assert!(matches!(loki_settings(None, None), Ok(None)));
    assert!(matches!(loki_settings(Some(""), None), Ok(None)));
    assert!(loki_settings(Some("not a url"), None).is_err());
    let l = loki_settings(Some("http://loki:3100"), None).unwrap().unwrap();
    assert_eq!(l.url, "http://loki:3100/");
    assert_eq!(l.labels[1], ("instance".to_string(), "unknown".to_string()));
}

#[test]
fn rickroll_bits() {
    assert_eq!(rickroll::key("5"), "rustify:rickroll:5");
    assert_eq!(rickroll::song_id(), "4PTG3Z6ehGkBFwjybzWkR8");
    assert_eq!(rickroll::RICKROLL_TTL_SECS, 30 * 24 * 60 * 60);
    assert!(rickroll::should_queue(false));
    assert!(!rickroll::should_queue(true));
}

#[test]
fn level_names_and_numbers() {
    assert_eq!(default_level(Some("eRrOr")), Some(LogLevel::Error));
    assert_eq!(default_level(Some("+2")), Some(LogLevel::Warn));
    assert_eq!(default_level(Some("03")), Some(LogLevel::Info));
    assert_eq!(default_level(Some("0")), None);
    assert_eq!(default_level(Some("6")), None);
    assert_eq!(default_level(Some("-1")), None);
    assert_eq!(default_level(Some("+")), None);
    assert_eq!(default_level(Some(" info")), None);
    assert_eq!(default_level(Some("Trace")), Some(LogLevel::Trace));
}
