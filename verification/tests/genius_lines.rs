use rustify::genius::{get_track_names, get_type_name, hit_matches_artist, line_report};
use rustify::profanity::{MILD, PROFANE, SEVERE};

#[test]
fn type_names() {
    assert_eq!(get_type_name(SEVERE & PROFANE), "severe profane ⛔");
    assert_eq!(get_type_name(MILD & PROFANE), "mild profane 🟡");
    assert_eq!(get_type_name(0), "undefined undefined ⚫ ❔");
}

#[test]
fn line_reports() {
    assert_eq!(line_report(0, "same", "same", 0), None);
    assert_eq!(
        line_report(2, "bad word", "*** word", SEVERE & PROFANE),
        Some("`3:` __bad__ word, `severe profane ⛔`".to_string())
    );
}

#[test]
fn artist_matching() {
    assert!(hit_matches_artist("The Beatles", "beatles"));
    assert!(!hit_matches_artist("Queen", "King"));
}

#[test]
fn name_variants() {
    // the patterns are written with JavaScript-style slashes, which the regex
    // crate takes literally, so ordinary names are left as they are
    let names = get_track_names("Song (feat. Artist)".to_string());
    assert!(names.contains("Song (feat. Artist)"));
    assert_eq!(names.len(), 1);
    let slashed = get_track_names("/ - b/".to_string());
    assert!(slashed.contains("/ - b/"));
    assert!(slashed.contains(""));
}
