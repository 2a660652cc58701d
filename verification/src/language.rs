//! Languages, named by their ISO 639-3 code (`isolang`), and language
//! detection (`whatlang`).
//!
//! A language is carried as its three-letter code; `"und"` (undetermined) is
//! what `isolang` gives by default.
use vstd::prelude::*;

verus! {

/// The ISO 639-3 code of the language that `isolang::Language::from_639_1` finds
/// for a two-letter code, or `None` when it knows no such code.
pub uninterp spec fn iso639_1_language(code: Seq<char>) -> Option<Seq<char>>;

/// The ISO 639-3 code of the language that `isolang::Language::from_639_3` finds
/// for a three-letter code, or `None` when it knows no such code.
pub uninterp spec fn iso639_3_language(code: Seq<char>) -> Option<Seq<char>>;

/// The ISO 639-3 code of the language that `whatlang::detect_lang` recognises in
/// a text, or `None` when it recognises none.
pub uninterp spec fn detected_language(text: Seq<char>) -> Option<Seq<char>>;

/// The code of the undetermined language, `isolang::Language::default()`.
pub open spec fn undetermined() -> Seq<char> {
    "und"@
}

/// `isolang::Language::from_639_1(code)`, carried as the language's 639-3 code.
#[verifier::external_body]
fn language_from_639_1(code: &str) -> (res: Option<String>)
    ensures
        match res {
            Some(l) => iso639_1_language(code@) == Some(l@),
            None => iso639_1_language(code@) is None,
        },
{
    isolang::Language::from_639_1(code).map(|l| l.to_639_3().to_owned())
}

/// `isolang::Language::from_639_3(code)`, carried as the language's 639-3 code.
#[verifier::external_body]
fn language_from_639_3(code: &str) -> (res: Option<String>)
    ensures
        match res {
            Some(l) => iso639_3_language(code@) == Some(l@),
            None => iso639_3_language(code@) is None,
        },
{
    isolang::Language::from_639_3(code).map(|l| l.to_639_3().to_owned())
}

/// `whatlang::detect_lang(text)`, carried as the detected language's code.
#[verifier::external_body]
fn detect_lang(text: &str) -> (res: Option<String>)
    ensures
        match res {
            Some(l) => detected_language(text@) == Some(l@),
            None => detected_language(text@) is None,
        },
{
    whatlang::detect_lang(text).map(|lang| lang.code().to_owned())
}

/// The code of `isolang::Language::default()`, which is `Language::Und`.
#[verifier::external_body]
fn default_language() -> (res: String)
    ensures
        res@ == undetermined(),
{
    isolang::Language::default().to_639_3().to_owned()
}

/// The language of a two-letter code, or the undetermined one.
pub open spec fn language_of_639_1_spec(code: Seq<char>) -> Seq<char> {
    match iso639_1_language(code) {
        Some(l) => l,
        None => undetermined(),
    }
}

/// `Language::from_639_1(code).unwrap_or_default()`.
pub fn language_of_639_1(code: &str) -> (res: String)
    ensures
        res@ == language_of_639_1_spec(code@),
{
    match language_from_639_1(code) {
        Some(l) => l,
        None => default_language(),
    }
}

/// The language detected in a text, as a known ISO 639-3 language, or the
/// undetermined one.
pub open spec fn text_language_spec(text: Seq<char>) -> Seq<char> {
    match detected_language(text) {
        Some(code) => match iso639_3_language(code) {
            Some(l) => l,
            None => undetermined(),
        },
        None => undetermined(),
    }
}

/// `detect_lang(text).and_then(|l| Language::from_639_3(l.code())).unwrap_or_default()`.
pub fn text_language(text: &str) -> (res: String)
    ensures
        res@ == text_language_spec(text@),
{
    match detect_lang(text) {
        Some(code) => match language_from_639_3(code.as_str()) {
            Some(l) => l,
            None => default_language(),
        },
        None => default_language(),
    }
}

/// `Language::from_639_3(code)`: the language of a three-letter code, if
/// `isolang` knows it.
pub fn lookup_639_3(code: &str) -> (res: Option<String>)
    ensures
        match res {
            Some(l) => iso639_3_language(code@) == Some(l@),
            None => iso639_3_language(code@) is None,
        },
{
    language_from_639_3(code)
}

} // verus!
