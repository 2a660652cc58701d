//! The profanity check of a track that a user plays: which lyrics count, which
//! of their lines are reported, and how many of them fit into one message.
use vstd::prelude::*;

use crate::lyrics::{data_language_spec, data_line_index_name_spec, Provider, SearchResultData};
use crate::profanity::{
    highlight_spec,
    profine_words_spec,
    type_name_spec,
    CheckResult,
    LineResult,
    SAFE,
    TYPE_TRIGGER,
};
use crate::format::{join_with, join_with_spec};
use crate::text::{strings_view, StringSet};

verus! {

/// What the check of one track came to.
#[derive(PartialEq, Eq, Structural, Clone, Copy, Debug)]
pub struct CheckBadWordsResult {
    /// The lyrics were not checked, not being in English.
    pub skipped: bool,
    /// Lyrics were found.
    pub found: bool,
    /// Lines were reported to the user.
    pub profane: bool,
    /// The provider whose lyrics were checked.
    pub provider: Option<Provider>,
}

impl Default for CheckBadWordsResult {
    fn default() -> (r: Self)
        ensures
            !r.skipped && !r.found && !r.profane && r.provider is None,
    {
        CheckBadWordsResult { skipped: false, found: false, profane: false, provider: None }
    }
}

/// The ISO 639-3 code of English, the only language whose lyrics are checked.
pub open spec fn english() -> Seq<char> {
    "eng"@
}

/// How the lyrics found decide the check: the result so far, the language to
/// count in the user's statistics (`None` when no lyrics were found), and
/// whether the lyrics go on to the profanity check.
pub fn start_check(hit: &Option<SearchResultData>) -> (res: (CheckBadWordsResult, Option<String>, bool))
    ensures
        match hit {
            None => res.0 == CheckBadWordsResult {
                skipped: false,
                found: false,
                profane: false,
                provider: None,
            } && res.1 is None && !res.2,
            Some(d) => {
                &&& res.0.found
                &&& !res.0.profane
                &&& res.0.provider == Some(match d {
                    SearchResultData::Musixmatch(_) => Provider::Musixmatch,
                    SearchResultData::Genius(_) => Provider::Genius,
                    SearchResultData::LrcLib(_) => Provider::LrcLib,
                })
                &&& res.1 matches Some(l) && l@ == data_language_spec(*d)
                &&& res.0.skipped == (data_language_spec(*d) != english())
                &&& res.2 == !res.0.skipped
            },
        },
{
    match hit {
        None => (CheckBadWordsResult::default(), None, false),
        Some(d) => {
            let language = d.language();
            let english = String::from_str("eng");
            let skipped = !(language == english);
            let r = CheckBadWordsResult {
                skipped,
                found: true,
                profane: false,
                provider: Some(d.provider()),
            };
            (r, Some(language), !skipped)
        },
    }
}

/// Whether some word of `words` is not in `ok`.
pub fn has_word_outside(words: &StringSet, ok: &StringSet) -> (res: bool)
    ensures
        res == exists|w: Seq<char>| words@.contains(w) && !ok@.contains(w),
{
    let v = words.to_vec();
    let mut i: usize = 0;
    while i < v.len()
        invariant
            i <= v@.len(),
            v@.map_values(|s: String| s@) == words@,
            forall|k: int| 0 <= k < i ==> ok@.contains(#[trigger] words@[k]),
        decreases v@.len() - i,
    {
        assert(words@[i as int] == v@[i as int]@);
        if !ok.contains(v[i].as_str()) {
            assert(words@.contains(words@[i as int]));
            return true;
        }
        i += 1;
    }
    proof {
        assert forall|w: Seq<char>| words@.contains(w) implies ok@.contains(w) by {
            let k = choose|k: int| 0 <= k < words@.len() && words@[k] == w;
            assert(ok@.contains(words@[k]));
        }
    }
    false
}

/// Whether a line is reported: it is not safe, and it has a censored word the
/// user did not allow.
pub open spec fn reported_spec(line: LineResult, ok: Set<Seq<char>>) -> bool {
    line.typ.bits & SAFE == 0 && exists|w: Seq<char>|
        profine_words_spec(highlight_spec(line.line@, line.bad_chars@)).contains(w) && !ok.contains(
            w,
        )
}

/// [`reported_spec`] as a predicate on lines.
pub open spec fn reported_pred(ok: Set<Seq<char>>) -> spec_fn(LineResult) -> bool {
    |l: LineResult| reported_spec(l, ok)
}

/// [`report_line_spec`] as a function of lines.
pub open spec fn report_fn(d: SearchResultData) -> spec_fn(LineResult) -> Seq<char> {
    |l: LineResult| report_line_spec(d, l)
}

/// How a reported line is shown: `<code>{name}:</code> {highlighted}, <code>[{type}]</code>`.
pub open spec fn report_line_spec(d: SearchResultData, line: LineResult) -> Seq<char> {
    "<code>"@ + data_line_index_name_spec(d, line.no as int) + ":</code> "@ + highlight_spec(
        line.line@,
        line.bad_chars@,
    ) + ", <code>["@ + type_name_spec(line.typ.bits) + "]</code>"@
}

/// The reported line as it is shown (see [`report_line_spec`]).
pub fn report_line(hit: &SearchResultData, line: &LineResult) -> (res: String)
    requires
        *hit is LrcLib || line.no < usize::MAX,
    ensures
        res@ == report_line_spec(*hit, *line),
{
    let mut res = String::from_str("<code>");
    res.append(hit.line_index_name(line.no).as_str());
    res.append(":</code> ");
    res.append(line.highlighted().as_str());
    res.append(", <code>[");
    res.append(line.typ.name().as_str());
    res.append("]</code>");
    res
}

/// The lines to report, in order, as they are shown: those of the check that
/// [`reported_spec`] holds of, given the words the user allowed.
pub fn bad_lines(hit: &SearchResultData, check: &CheckResult, ok_words: &StringSet) -> (res: Vec<String>)
    requires
        *hit is LrcLib || forall|i: int| 0 <= i < check@.len() ==> (#[trigger] check@[i]).no < usize::MAX,
    ensures
        res@.map_values(|s: String| s@) == check@.filter(reported_pred(ok_words@.to_set())).map_values(
            report_fn(*hit),
        ),
{
    let lines = check.lines();
    let ghost ok = ok_words@.to_set();
    let ghost f = reported_pred(ok);
    let ghost g = report_fn(*hit);
    let mut res: Vec<String> = Vec::new();
    let mut i: usize = 0;
    assert(lines@.take(0).filter(f) =~= Seq::<LineResult>::empty());
    while i < lines.len()
        invariant
            i <= lines@.len(),
            lines@ == check@,
            *hit is LrcLib || forall|k: int| 0 <= k < check@.len() ==> (#[trigger] check@[k]).no < usize::MAX,
            ok == ok_words@.to_set(),
            f == reported_pred(ok),
            g == report_fn(*hit),
            res@.map_values(|s: String| s@) == lines@.take(i as int).filter(f).map_values(g),
        decreases lines@.len() - i,
    {
        let line = &lines[i];
        let words = line.get_profine_words();
        let reported = !line.typ.is(SAFE) && has_word_outside(&words, ok_words);
        proof {
            lines@.take(i as int).lemma_filter_push(lines@[i as int], f);
            assert(lines@.take(i + 1) =~= lines@.take(i as int).push(lines@[i as int]));
            assert(reported == f(lines@[i as int])) by {
                broadcast use vstd::seq_lib::group_seq_properties;
                let pw = profine_words_spec(highlight_spec(line.line@, line.bad_chars@));
                if reported {
                    let w = choose|w: Seq<char>| words@.contains(w) && !ok_words@.contains(w);
                    assert(pw.contains(w));
                    assert(!ok.contains(w));
                }
                if f(lines@[i as int]) {
                    let w = choose|w: Seq<char>| pw.contains(w) && !ok.contains(w);
                    assert(words@.to_set().contains(w));
                    assert(words@.contains(w));
                }
            }
        }
        if reported {
            let shown = report_line(hit, line);
            let ghost before = res@;
            res.push(shown);
            assert(res@.map_values(|s: String| s@) =~= before.map_values(|s: String| s@).push(
                g(lines@[i as int]),
            ));
        }
        i += 1;
    }
    assert(lines@.take(i as int) =~= lines@);
    res
}

/// The next step of fitting the report into one message.
#[derive(PartialEq, Eq, Structural, Clone, Copy, Debug)]
pub enum FitStep {
    /// The message with this many lines fits: send it.
    Send,
    /// It does not: try one line less.
    Shorten(usize),
}

/// Whether the message rendered with `shown` of the reported lines fits into
/// `max_len` characters; if not, the report is tried with one line less.  The
/// full link label is used only while every line is shown.
pub fn fit_step(shown: usize, message_len: usize, max_len: usize) -> (res: FitStep)
    requires
        message_len > max_len ==> shown > 0,
    ensures
        message_len <= max_len ==> res == FitStep::Send,
        message_len > max_len ==> res == FitStep::Shorten((shown - 1) as usize),
{
    if message_len <= max_len {
        FitStep::Send
    } else {
        FitStep::Shorten(shown - 1)
    }
}

/// How many lines the report keeps when the message with `k` lines is
/// `len(k)` characters long: starting from all `n`, one line less as long as
/// the message does not fit (the steps of [`fit_step`]).
pub open spec fn fitted_lines(len: spec_fn(nat) -> nat, n: nat, max: nat) -> nat
    decreases n,
{
    if len(n) <= max || n == 0 {
        n
    } else {
        fitted_lines(len, (n - 1) as nat, max)
    }
}

/// Shortening keeps as many lines as fit: the report ends with the largest
/// number of lines, at most all of them, whose message fits (provided the
/// message without lines fits).
pub proof fn lemma_fitted_lines_largest(len: spec_fn(nat) -> nat, n: nat, max: nat)
    requires
        len(0) <= max,
    ensures
        fitted_lines(len, n, max) <= n,
        len(fitted_lines(len, n, max)) <= max,
        forall|k: nat| fitted_lines(len, n, max) < k <= n ==> #[trigger] len(k) > max,
    decreases n,
{
    if len(n) <= max || n == 0 {
    } else {
        lemma_fitted_lines_largest(len, (n - 1) as nat, max);
        assert forall|k: nat| fitted_lines(len, n, max) < k <= n implies #[trigger] len(k) > max by {
            if k < n {
                assert(fitted_lines(len, (n - 1) as nat, max) < k <= n - 1);
            }
        }
    }
}

/// The check's result once the lyrics were checked: the track counts as profane exactly
/// when the check triggers and at least one line is reported; the rest stays as it was.
pub fn conclude(so_far: CheckBadWordsResult, check: &CheckResult, reported: &Vec<String>) -> (res:
    CheckBadWordsResult)
    ensures
        res == (CheckBadWordsResult {
            profane: check.typ.bits & TYPE_TRIGGER != 0 && reported@.len() > 0,
            ..so_far
        }),
{
    let profane = check.should_trigger() && reported.len() > 0;
    CheckBadWordsResult { profane, ..so_far }
}

/// The part of the message listing the first `shown` reported lines, one per line, and
/// whether the full label of the lyrics link goes with it (only while every line is shown).
pub fn report_excerpt(reported: &Vec<String>, shown: usize) -> (res: (String, bool))
    requires
        shown <= reported@.len(),
    ensures
        res.0@ == join_with_spec(strings_view(reported@).take(shown as int), "\n"@),
        res.1 == (shown == reported@.len()),
{
    let mut kept: Vec<String> = Vec::new();
    let mut i: usize = 0;
    while i < shown
        invariant
            i <= shown <= reported@.len(),
            strings_view(kept@) == strings_view(reported@).take(i as int),
        decreases shown - i,
    {
        let line = reported[i].as_str().to_owned();
        let ghost before = kept@;
        kept.push(line);
        assert(strings_view(kept@) =~= strings_view(before).push(reported@[i as int]@));
        assert(strings_view(reported@).take(i + 1) =~= strings_view(reported@).take(i as int).push(
            reported@[i as int]@,
        ));
        i += 1;
    }
    (join_with(&kept, "\n"), shown == reported.len())
}

/// A line of a check is among the reported ones exactly when its type lacks the safe flag
/// and one of its censored words is one the user did not allow; nothing else about its type
/// (such as whether it would trigger a report of the whole check) matters.
pub proof fn lemma_reported_lines(lines: Seq<LineResult>, ok: Set<Seq<char>>)
    ensures
        forall|i: int|
            0 <= i < lines.len() ==> (lines.filter(reported_pred(ok)).contains(#[trigger] lines[i]) <==> (
            lines[i].typ.bits & SAFE == 0 && exists|w: Seq<char>|
                profine_words_spec(highlight_spec(lines[i].line@, lines[i].bad_chars@)).contains(w)
                    && !ok.contains(w))),
{
    broadcast use vstd::seq_lib::group_filter_ensures;

    let f = reported_pred(ok);
    assert forall|i: int| 0 <= i < lines.len() implies (lines.filter(f).contains(#[trigger] lines[i])
        <==> (lines[i].typ.bits & SAFE == 0 && exists|w: Seq<char>|
        profine_words_spec(highlight_spec(lines[i].line@, lines[i].bad_chars@)).contains(w) && !ok.contains(
            w,
        ))) by {
        if f(lines[i]) {
            lines.lemma_filter_contains(f, i);
        }
        if lines.filter(f).contains(lines[i]) {
            let k = choose|k: int| 0 <= k < lines.filter(f).len() && lines.filter(f)[k] == lines[i];
            assert(f(lines.filter(f)[k]));
        }
    }
}

} // verus!
