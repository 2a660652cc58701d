use rustify::lyrics::{genius, Provider, SearchResultData};
use rustify::profanity::{CheckResult, LineResult, Manager, TypeWrapper, SAFE, SEVERE, TYPE_TRIGGER};
use rustify::queue::profanity_check::{
    bad_lines,
    conclude,
    fit_step,
    has_word_outside,
    report_excerpt,
    report_line,
    start_check,
    CheckBadWordsResult,
    FitStep,
};
use rustify::text::StringSet;

fn genius_hit(language: &str) -> SearchResultData {
    SearchResultData::Genius(genius::SearchResult {
        id: 1,
        url: "u".to_string(),
        title: "t".to_string(),
        confidence: "90".to_string(),
        lyrics: vec!["hello".to_string()],
        language: language.to_string(),
    })
}

fn line(no: usize, bits: u32, text: &str, bad: Vec<usize>) -> LineResult {
    LineResult {
        no,
        typ: TypeWrapper { bits },
        line: text.to_string(),
        bad_chars: bad,
        censored: String::new(),
    }
}

fn set(words: &[&str]) -> StringSet {
    let mut s = StringSet::new();
    for w in words {
        s.insert(w.to_string());
    }
    s
}

#[test]
fn start_without_lyrics() {
    let (r, language, go_on) = start_check(&None);
    assert_eq!(r, CheckBadWordsResult::default());
    assert_eq!(language, None);
    assert!(!go_on);
}

#[test]
fn start_skips_non_english() {
    let (r, language, go_on) = start_check(&Some(genius_hit("deu")));
    assert!(r.found && r.skipped && !r.profane);
    assert_eq!(r.provider, Some(Provider::Genius));
    assert_eq!(language.as_deref(), Some("deu"));
    assert!(!go_on);
    let (r, _, go_on) = start_check(&Some(genius_hit("eng")));
    assert!(r.found && !r.skipped);
    assert!(go_on);
}

#[test]
fn words_outside_the_allowed_ones() {
    assert!(has_word_outside(&set(&["bad", "worse"]), &set(&["bad"])));
    assert!(!has_word_outside(&set(&["bad"]), &set(&["bad", "worse"])));
    assert!(!has_word_outside(&set(&[]), &set(&[])));
}

#[test]
fn reported_lines() {
    let hit = genius_hit("eng");
    let l0 = line(0, SEVERE, "bad good", vec![0, 1, 2]);
    let l1 = line(1, SAFE, "fine", vec![]);
    let l2 = line(2, SEVERE, "worse", vec![0, 1, 2, 3, 4]);
    assert_eq!(
        report_line(&hit, &l0),
        format!("<code>1:</code> <tg-spoiler><u>bad</u></tg-spoiler> good, <code>[{}]</code>", TypeWrapper { bits: SEVERE }.name())
    );
    let check = CheckResult { lines: vec![l0, l1, l2], typ: TypeWrapper { bits: SEVERE } };
    let lines = bad_lines(&hit, &check, &set(&["worse"]));
    assert_eq!(lines.len(), 1);
    assert!(lines[0].starts_with("<code>1:</code>"));
    assert_eq!(bad_lines(&hit, &check, &set(&[])).len(), 2);
    assert!(bad_lines(&hit, &check, &set(&["bad", "worse"])).is_empty());
}

#[test]
fn message_fitting() {
    assert_eq!(fit_step(3, 100, 4096), FitStep::Send);
    assert_eq!(fit_step(3, 5000, 4096), FitStep::Shorten(2));
    assert_eq!(fit_step(1, 4097, 4096), FitStep::Shorten(0));
    // shortening until it fits: message lengths for 0..=4 lines
    let lengths = [100usize, 2000, 4000, 5000, 6000];
    let mut shown = 4usize;
    while let FitStep::Shorten(n) = fit_step(shown, lengths[shown], 4096) {
        shown = n;
    }
    assert_eq!(shown, 2);
}

#[test]
fn manager_checks_like_perform() {
    let text = ["good normal ok", "another line"];
    let a = Manager::check(&text);
    let b = CheckResult::perform(&text);
    assert_eq!(a.lines.len(), 2);
    assert_eq!(a.typ.bits, b.typ.bits);
    assert_eq!(a.should_trigger(), b.should_trigger());
}

#[test]
fn a_check_triggers_exactly_when_a_line_does() {
    let text = ["a perfectly clean line", "what the fuck is this"];
    let c = CheckResult::perform(&text);
    assert!(c.should_trigger());
    assert!(!c.lines[0].typ.is(TYPE_TRIGGER));
    assert!(c.lines[1].typ.is(TYPE_TRIGGER));
    let clean = CheckResult::perform(&["hello there", "good morning"]);
    assert!(!clean.should_trigger());
    assert!(clean.lines.iter().all(|l| !l.typ.is(TYPE_TRIGGER)));
}

#[test]
fn profane_only_when_triggered_and_reported() {
    let so_far = CheckBadWordsResult { skipped: false, found: true, profane: false, provider: Some(Provider::Genius) };
    let triggered = CheckResult { lines: vec![], typ: TypeWrapper { bits: SEVERE } };
    let calm = CheckResult { lines: vec![], typ: TypeWrapper { bits: SAFE } };
    let one = vec!["<code>1:</code> x".to_string()];
    let r = conclude(so_far, &triggered, &one);
    assert!(r.profane && r.found && r.provider == Some(Provider::Genius));
    assert!(!conclude(so_far, &triggered, &Vec::new()).profane);
    assert!(!conclude(so_far, &calm, &one).profane);
}

#[test]
fn report_excerpt_joins_shown_lines() {
    let lines = vec!["a".to_string(), "b".to_string(), "c".to_string()];
    assert_eq!(report_excerpt(&lines, 3), ("a\nb\nc".to_string(), true));
    assert_eq!(report_excerpt(&lines, 2), ("a\nb".to_string(), false));
    assert_eq!(report_excerpt(&lines, 0), (String::new(), false));
}
