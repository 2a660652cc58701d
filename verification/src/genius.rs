//! Lyrics screening that censors whole lines at once and marks them up in MarkdownV2.
use vstd::prelude::*;

use crate::patterns::{replace_all_or_keep, replace_or_keep};
use crate::profanity::{
    censor_outcome, censor_whole_line, ALL, ANY, EVASIVE, INAPPROPRIATE, MEAN, MILD, MODERATE, OFFENSIVE,
    PROFANE, SEVERE, SEXUAL,
};
use crate::text::{
    append_decimal, chars_of, contains_sub, decimal_spec, lowercase_spec, markdown_escape,
    markdown_escape_spec, push_char, replace_spec, replace_str, str_contains, to_lowercase, trim,
    strings_view, trim_spec, StringSet,
};

verus! {

/// The severity word and emoji, then the category word, of a type.
pub open spec fn type_name_parts(bits: u32) -> (Seq<char>, Seq<char>, char) {
    let (lvl, emoji) = if bits & SEVERE != 0 {
        ("severe"@, '⛔')
    } else if bits & MODERATE != 0 {
        ("moderate"@, '🟠')
    } else if bits & MILD != 0 {
        ("mild"@, '🟡')
    } else {
        ("undefined"@, '❔')
    };
    let typ = if bits & PROFANE != 0 {
        "profane"@
    } else if bits & OFFENSIVE != 0 {
        "offensive"@
    } else if bits & SEXUAL != 0 {
        "sexual"@
    } else if bits & MEAN != 0 {
        "mean"@
    } else if bits & EVASIVE != 0 {
        "evasive"@
    } else {
        "undefined ⚫"@
    };
    (lvl, typ, emoji)
}

/// "{level} {category} {emoji}".
pub open spec fn type_name_spec(bits: u32) -> Seq<char> {
    let (lvl, typ, emoji) = type_name_parts(bits);
    lvl + " "@ + typ + seq![' ', emoji]
}

/// Names a type by severity and category, e.g. "severe profane ⛔".
pub fn get_type_name(bits: u32) -> (res: String)
    ensures
        res@ == type_name_spec(bits),
{
    let (lvl, emoji) = if bits & SEVERE != 0 {
        ("severe", '⛔')
    } else if bits & MODERATE != 0 {
        ("moderate", '🟠')
    } else if bits & MILD != 0 {
        ("mild", '🟡')
    } else {
        ("undefined", '❔')
    };
    let typ = if bits & PROFANE != 0 {
        "profane"
    } else if bits & OFFENSIVE != 0 {
        "offensive"
    } else if bits & SEXUAL != 0 {
        "sexual"
    } else if bits & MEAN != 0 {
        "mean"
    } else if bits & EVASIVE != 0 {
        "evasive"
    } else {
        "undefined ⚫"
    };
    let mut res = lvl.to_owned();
    res.append(" ");
    res.append(typ);
    push_char(&mut res, ' ');
    push_char(&mut res, emoji);
    assert(res@ =~= type_name_spec(bits));
    res
}

/// The first `n` characters of `line`, each censored one wrapped in `__`.
pub open spec fn mark_upto(line: Seq<char>, censored: Seq<char>, n: int) -> Seq<char>
    decreases n,
{
    if n <= 0 {
        Seq::empty()
    } else {
        let i = n - 1;
        mark_upto(line, censored, i) + if i >= censored.len() || censored[i] != line[i] {
            seq!['_', '_', line[i], '_', '_']
        } else {
            seq![line[i]]
        }
    }
}

/// The report of line number `index` (from 0) for the escaped text `escaped`, which the
/// censor turned into `censored` with the type `typ`: nothing when nothing was censored;
/// otherwise "`{index + 1}:` {marked line}, `{type name}`", where adjacent marks merge.
pub open spec fn line_report_spec(index: nat, escaped: Seq<char>, censored: Seq<char>, typ: u32) -> Option<Seq<char>> {
    if censored == escaped {
        None
    } else {
        Some(
            "`"@ + decimal_spec(index + 1) + ":` "@ + replace_spec(
                mark_upto(escaped, censored, escaped.len() as int),
                "____"@,
                ""@,
            ) + ", `"@ + type_name_spec(typ) + "`"@,
        )
    }
}

/// The reports of the lines, in order, given what the censor said of each escaped line.
pub open spec fn reports_spec(lyrics: Seq<Seq<char>>, outcomes: Seq<(Seq<char>, u32)>) -> Seq<Seq<char>>
    decreases lyrics.len(),
{
    if lyrics.len() == 0 || outcomes.len() < lyrics.len() {
        Seq::empty()
    } else {
        let n = (lyrics.len() - 1) as int;
        let rest = reports_spec(lyrics.drop_last(), outcomes.take(n));
        match line_report_spec(n as nat, markdown_escape_spec(lyrics[n]), outcomes[n].0, outcomes[n].1) {
            Some(r) => rest.push(r),
            None => rest,
        }
    }
}

/// Whether `outcomes` are, line by line, outcomes of the whole-line censor
/// ([`censor_whole_line`]) on the lyrics escaped for MarkdownV2.
pub open spec fn line_outcomes(lyrics: Seq<Seq<char>>, outcomes: Seq<(Seq<char>, u32)>) -> bool {
    &&& outcomes.len() == lyrics.len()
    &&& forall|k: int|
        0 <= k < lyrics.len() ==> censor_outcome(
            markdown_escape_spec(lyrics[k]),
            ANY,
            INAPPROPRIATE,
            #[trigger] outcomes[k].0,
            outcomes[k].1,
        ) && outcomes[k].1 <= ALL
}

/// Builds the report of one line (see [`line_report_spec`]).
pub fn line_report(index: usize, escaped: &str, censored: &str, typ: u32) -> (res: Option<String>)
    requires
        index < usize::MAX,
    ensures
        match res {
            Some(r) => line_report_spec(index as nat, escaped@, censored@, typ) == Some(r@),
            None => line_report_spec(index as nat, escaped@, censored@, typ) is None,
        },
{
    let e = chars_of(escaped);
    let c = chars_of(censored);
    if escaped.to_owned() == censored.to_owned() {
        return None;
    }
    let mut marked = String::new();
    let mut i: usize = 0;
    while i < e.len()
        invariant
            i <= e@.len(),
            e@ == escaped@,
            c@ == censored@,
            marked@ == mark_upto(escaped@, censored@, i as int),
        decreases e@.len() - i,
    {
        if i >= c.len() || c[i] != e[i] {
            push_char(&mut marked, '_');
            push_char(&mut marked, '_');
            push_char(&mut marked, e[i]);
            push_char(&mut marked, '_');
            push_char(&mut marked, '_');
        } else {
            push_char(&mut marked, e[i]);
        }
        assert(marked@ =~= mark_upto(escaped@, censored@, i + 1));
        i += 1;
    }
    let merged = replace_str(marked.as_str(), "____", "");
    let mut res = "`".to_owned();
    append_decimal(&mut res, (index + 1) as u64);
    res.append(":` ");
    res.append(merged.as_str());
    res.append(", `");
    res.append(get_type_name(typ).as_str());
    res.append("`");
    assert(res@ =~= line_report_spec(index as nat, escaped@, censored@, typ)->0);
    Some(res)
}

/// Reports the lines of `lyrics` that the censor changes, each escaped for MarkdownV2 and
/// censored as a whole (see [`line_report_spec`]).  The censor's answers depend on its
/// dictionary; whatever they are, the reports are those of [`reports_spec`].
pub fn find_bad_words(lyrics: Vec<String>) -> (res: Vec<String>)
    ensures
        exists|outcomes: Seq<(Seq<char>, u32)>|
            #[trigger] line_outcomes(strings_view(lyrics@), outcomes) && reports_spec(
                strings_view(lyrics@),
                outcomes,
            ) == strings_view(res@),
{
    let ghost ls = lyrics@.map_values(|l: String| l@);
    let ghost mut outcomes: Seq<(Seq<char>, u32)> = Seq::empty();
    let mut res: Vec<String> = Vec::new();
    let mut index: usize = 0;
    assert(ls.take(0) =~= Seq::<Seq<char>>::empty());
    while index < lyrics.len()
        invariant
            index <= lyrics@.len(),
            ls == lyrics@.map_values(|l: String| l@),
            outcomes.len() == index,
            line_outcomes(ls.take(index as int), outcomes),
            reports_spec(ls.take(index as int), outcomes) == res@.map_values(|r: String| r@),
        decreases lyrics@.len() - index,
    {
        let escaped = markdown_escape(lyrics[index].as_str());
        let (censored, typ) = censor_whole_line(escaped.as_str());
        let ghost prev_outcomes = outcomes;
        proof {
            outcomes = outcomes.push((censored@, typ));
            assert(ls.take(index + 1).drop_last() =~= ls.take(index as int));
            assert(outcomes.take(index as int) =~= prev_outcomes);
            assert(ls.take(index + 1)[index as int] == lyrics@[index as int]@);
            assert(line_outcomes(ls.take(index + 1), outcomes)) by {
                assert forall|k: int| 0 <= k < index + 1 implies censor_outcome(
                    markdown_escape_spec(ls.take(index + 1)[k]),
                    ANY,
                    INAPPROPRIATE,
                    #[trigger] outcomes[k].0,
                    outcomes[k].1,
                ) && outcomes[k].1 <= ALL by {
                    if k < index {
                        assert(outcomes[k] == prev_outcomes[k]);
                        assert(ls.take(index + 1)[k] == ls.take(index as int)[k]);
                    }
                }
            }
        }
        let report = line_report(index, escaped.as_str(), censored.as_str(), typ);
        let ghost before = res@.map_values(|r: String| r@);
        match report {
            Some(r) => {
                let ghost rv = r@;
                res.push(r);
                assert(res@.map_values(|r: String| r@) =~= before.push(rv));
            },
            None => {},
        }
        proof {
            assert(res@.map_values(|r: String| r@) == reports_spec(ls.take(index + 1), outcomes));
        }
        index += 1;
    }
    assert(ls.take(index as int) =~= ls);
    assert(reports_spec(strings_view(lyrics@), outcomes) == strings_view(res@));
    res
}

/// The "extra info" pattern, written with JavaScript-style slashes.
pub open spec fn slashed_extra_pattern() -> Seq<char> {
    "/\\s-\\s.*/"@
}

/// The "- feat" pattern, written with JavaScript-style slashes.
pub open spec fn slashed_feat_dash_pattern() -> Seq<char> {
    "/-\\s+(feat|with).*/i"@
}

/// The "(feat ...)" pattern, written with JavaScript-style slashes.
pub open spec fn slashed_feat_paren_pattern() -> Seq<char> {
    "/(\\(|\\[)(feat|with)\\.?\\s+.*(\\)|\\])$/i"@
}

/// Removes what the slashed extra-info pattern matches (untrimmed).
pub fn remove_extra_info(name: &str) -> (res: String)
    ensures
        res@ == replace_or_keep(slashed_extra_pattern(), name@, Seq::empty()),
{
    let res = replace_all_or_keep("/\\s-\\s.*/", name, "");
    proof {
        reveal_strlit("");
    }
    assert(""@ =~= Seq::<char>::empty());
    res
}

/// Removes what the slashed featuring patterns match, then trims.
pub fn remove_song_feat(name: &str) -> (res: String)
    ensures
        res@ == trim_spec(
            replace_or_keep(
                slashed_feat_paren_pattern(),
                replace_or_keep(slashed_feat_dash_pattern(), name@, Seq::empty()),
                Seq::empty(),
            ),
        ),
{
    let a = replace_all_or_keep("/-\\s+(feat|with).*/i", name, "");
    let b = replace_all_or_keep("/(\\(|\\[)(feat|with)\\.?\\s+.*(\\)|\\])$/i", a.as_str(), "");
    proof {
        reveal_strlit("");
    }
    assert(""@ =~= Seq::<char>::empty());
    trim(b.as_str())
}

/// The name variants tried here: the name, without extra info, without featured artists,
/// and without both.
pub fn get_track_names(name: String) -> (names: StringSet)
    ensures
        names@.no_duplicates(),
        names@.to_set() == seq![
            name@,
            replace_or_keep(slashed_extra_pattern(), name@, Seq::empty()),
            remove_song_feat_spec(name@),
            remove_song_feat_spec(replace_or_keep(slashed_extra_pattern(), name@, Seq::empty())),
        ].to_set(),
{
    let no_extra = remove_extra_info(name.as_str());
    let feat = remove_song_feat(name.as_str());
    let both = remove_song_feat(no_extra.as_str());
    let ghost c = seq![name@, no_extra@, feat@, both@];
    let mut names = StringSet::new();
    names.insert(name);
    names.insert(no_extra);
    names.insert(feat);
    names.insert(both);
    assert(names@.to_set() =~= c.to_set()) by {
        assert forall|x: Seq<char>| c.to_set().contains(x) <==> names@.to_set().contains(x) by {
            if c.contains(x) {
                let k = choose|k: int| 0 <= k < c.len() && c[k] == x;
                assert(k == 0 || k == 1 || k == 2 || k == 3);
            }
        }
        assert(c.contains(c[0]) && c.contains(c[1]) && c.contains(c[2]) && c.contains(c[3]));
    }
    names
}

/// See [`remove_song_feat`].
pub open spec fn remove_song_feat_spec(name: Seq<char>) -> Seq<char> {
    trim_spec(
        replace_or_keep(
            slashed_feat_paren_pattern(),
            replace_or_keep(slashed_feat_dash_pattern(), name, Seq::empty()),
            Seq::empty(),
        ),
    )
}

/// A search hit counts when its primary artist's name, lower-cased, contains the track's
/// artist, lower-cased.
pub fn hit_matches_artist(hit_artist: &str, artist: &str) -> (res: bool)
    ensures
        res == contains_sub(lowercase_spec(hit_artist@), lowercase_spec(artist@)),
{
    let a = to_lowercase(hit_artist);
    let b = to_lowercase(artist);
    str_contains(a.as_str(), b.as_str())
}

} // verus!
