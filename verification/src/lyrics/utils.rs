//! Variants of a track's name to search lyrics by.
use vstd::prelude::*;

use crate::patterns::{replace_all_or_keep, replace_or_keep};
use crate::text::{trim, trim_spec, StringSet};

verus! {

/// " - " and everything after it ("Song - Remix").
pub open spec fn extra_dash_pattern() -> Seq<char> {
    "\\s-\\s.*"@
}

/// Runs of anything that is neither a letter nor an underscore.
pub open spec fn non_letters_pattern() -> Seq<char> {
    "[^\\pL_]+"@
}

/// "- feat ..." / "- with ..." and everything after it, in any case.
pub open spec fn feat_dash_pattern() -> Seq<char> {
    "(?i)-\\s+(feat|with).*"@
}

/// A trailing "(feat. ...)" / "[with ...]" group, in any case.
pub open spec fn feat_paren_pattern() -> Seq<char> {
    "(?i)(\\(|\\[)(feat|with)\\.?\\s+.*(\\)|\\])$"@
}

/// The name without anything from " - " on, with every run of non-letters turned into one
/// space, trimmed.
pub open spec fn remove_extra_info_spec(name: Seq<char>) -> Seq<char> {
    trim_spec(
        replace_or_keep(non_letters_pattern(), replace_or_keep(extra_dash_pattern(), name, Seq::empty()), seq![' ']),
    )
}

/// The name without a "- feat ..." tail and without a trailing "(feat ...)" group, trimmed.
pub open spec fn remove_song_feat_spec(name: Seq<char>) -> Seq<char> {
    trim_spec(
        replace_or_keep(feat_paren_pattern(), replace_or_keep(feat_dash_pattern(), name, Seq::empty()), Seq::empty()),
    )
}

/// The name variants, in the order they are tried: the name itself, without extra info,
/// without featured artists, and without both.
pub open spec fn name_candidates(name: Seq<char>) -> Seq<Seq<char>> {
    seq![
        name,
        remove_extra_info_spec(name),
        remove_song_feat_spec(name),
        remove_song_feat_spec(remove_extra_info_spec(name)),
    ]
}

/// See [`remove_extra_info_spec`].
pub fn remove_extra_info(name: &str) -> (res: String)
    ensures
        res@ == remove_extra_info_spec(name@),
{
    let a = replace_all_or_keep("\\s-\\s.*", name, "");
    let b = replace_all_or_keep("[^\\pL_]+", a.as_str(), " ");
    proof {
        reveal_strlit("");
        reveal_strlit(" ");
    }
    assert(""@ =~= Seq::<char>::empty());
    assert(" "@ =~= seq![' ']);
    trim(b.as_str())
}

/// See [`remove_song_feat_spec`].
pub fn remove_song_feat(name: &str) -> (res: String)
    ensures
        res@ == remove_song_feat_spec(name@),
{
    let a = replace_all_or_keep("(?i)-\\s+(feat|with).*", name, "");
    let b = replace_all_or_keep("(?i)(\\(|\\[)(feat|with)\\.?\\s+.*(\\)|\\])$", a.as_str(), "");
    proof {
        reveal_strlit("");
    }
    assert(""@ =~= Seq::<char>::empty());
    trim(b.as_str())
}

/// The distinct variants of a track's name.
pub type TrackNames = StringSet;

/// The distinct name variants that lyrics can be searched by (see [`name_candidates`]).
pub fn get_track_names(name: &str) -> (names: TrackNames)
    ensures
        names@.no_duplicates(),
        names@.to_set() == name_candidates(name@).to_set(),
        names@.len() >= 1,
        names@[0] == name@,
{
    let no_extra = remove_extra_info(name);
    let mut names = StringSet::new();
    names.insert(name.to_owned());
    names.insert(no_extra.clone());
    names.insert(remove_song_feat(name));
    names.insert(remove_song_feat(no_extra.as_str()));
    assert(names@.to_set() =~= name_candidates(name@).to_set()) by {
        let c = name_candidates(name@);
        assert forall|x: Seq<char>| c.to_set().contains(x) <==> names@.to_set().contains(x) by {
            if c.contains(x) {
                let k = choose|k: int| 0 <= k < c.len() && c[k] == x;
                assert(k == 0 || k == 1 || k == 2 || k == 3);
            }
            if x == c[0] || x == c[1] || x == c[2] || x == c[3] {
                if x == c[0] { assert(c[0] == c[0]); }
            }
        }
        assert(c[0] == name@);
        assert(c.contains(c[0]) && c.contains(c[1]) && c.contains(c[2]) && c.contains(c[3]));
    }
    names
}

} // verus!
