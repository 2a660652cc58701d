//! Checking lyrics for profanity, line by line, and highlighting what was found.
//!
//! Words are judged by `rustrict`; the library splits lines into words, puts
//! the judged words back together, works out which characters were censored,
//! and marks them up for Telegram.
use vstd::prelude::*;

use crate::patterns::{regex_captures_all, regex_captures_all_spec};
use crate::text::{
    chars_of, html_escape, html_escape_spec, lowercase_spec, push_char,
    split_spec, string_from_chars, to_lowercase, StringSet,
};

verus! {

// ---------------------------------------------------------------------------
// rustrict's types, as the bit sets that `rustrict::Type` is made of.
/// Bad words.
pub const PROFANE: u32 = 0x7;
/// Offensive words.
pub const OFFENSIVE: u32 = 0x38;
/// Sexual words.
pub const SEXUAL: u32 = 0x1c0;
/// Mean words.
pub const MEAN: u32 = 0xe00;
/// Words meant to evade detection.
pub const EVASIVE: u32 = 0x7000;
/// Spam, gibberish, shouting.
pub const SPAM: u32 = 0x38000;
/// One of a few known safe phrases.
pub const SAFE: u32 = 0x40000;
/// Low severity.
pub const MILD: u32 = 0x9249;
/// Moderate severity.
pub const MODERATE: u32 = 0x12492;
/// High severity.
pub const SEVERE: u32 = 0x24924;
/// Profane, offensive, sexual, or severely mean.
pub const INAPPROPRIATE: u32 = 0x9ff;
/// Any detection but `SAFE`.
pub const ANY: u32 = 0x3ffff;
/// Every flag (what `!` keeps within).
pub const ALL: u32 = 0x7ffff;

/// What a line has to reach to be reported: anything but spam (`ANY & !SPAM`).
pub const TYPE_THRESHOLD: u32 = 0x7fff;
/// The type given to custom words (`MODERATE & EVASIVE`).
pub const TYPE_CUSTOM: u32 = 0x2000;
/// What makes a check worth telling the user about (`INAPPROPRIATE | EVASIVE`).
pub const TYPE_TRIGGER: u32 = 0x79ff;

/// The constants above are the combinations that their names say.
pub proof fn lemma_type_constants()
    ensures
        TYPE_THRESHOLD == ANY & (ALL & !SPAM),
        TYPE_CUSTOM == MODERATE & EVASIVE,
        TYPE_TRIGGER == INAPPROPRIATE | EVASIVE,
        INAPPROPRIATE == PROFANE | OFFENSIVE | SEXUAL | (MEAN & SEVERE),
        ANY == PROFANE | OFFENSIVE | SEXUAL | MEAN | EVASIVE | SPAM,
        ALL == ANY | SAFE,
{
    assert(0x7fffu32 == 0x3ffffu32 & (0x7ffffu32 & !0x38000u32)) by (bit_vector);
    assert(0x2000u32 == 0x12492u32 & 0x7000u32) by (bit_vector);
    assert(0x79ffu32 == 0x9ffu32 | 0x7000u32) by (bit_vector);
    assert(0x9ffu32 == 0x7u32 | 0x38u32 | 0x1c0u32 | (0xe00u32 & 0x24924u32)) by (bit_vector);
    assert(0x3ffffu32 == 0x7u32 | 0x38u32 | 0x1c0u32 | 0xe00u32 | 0x7000u32 | 0x38000u32)
        by (bit_vector);
    assert(0x7ffffu32 == 0x3ffffu32 | 0x40000u32) by (bit_vector);
}

#[verifier::external_type_specification]
#[verifier::external_body]
pub struct ExType(rustrict::Type);

/// The bits of a rustrict type, as `Type::bits` gives them.
pub uninterp spec fn type_bits(t: rustrict::Type) -> u32;

/// `rustrict::Type::ANY`, whose bits are [`ANY`].
#[verifier::external_body]
fn rustrict_any() -> (t: rustrict::Type)
    ensures
        type_bits(t) == ANY,
{
    rustrict::Type::ANY
}

/// `rustrict::Type::SPAM`, whose bits are [`SPAM`].
#[verifier::external_body]
fn rustrict_spam() -> (t: rustrict::Type)
    ensures
        type_bits(t) == SPAM,
{
    rustrict::Type::SPAM
}

/// `rustrict::Type::INAPPROPRIATE`, whose bits are [`INAPPROPRIATE`].
#[verifier::external_body]
fn rustrict_inappropriate() -> (t: rustrict::Type)
    ensures
        type_bits(t) == INAPPROPRIATE,
{
    rustrict::Type::INAPPROPRIATE
}

/// `!t` on a `rustrict::Type`: the complement of its bits within the defined flags
/// (bitflags' `Not` masks with `all()`, which is [`ALL`]).
#[verifier::external_body]
fn rustrict_not(t: rustrict::Type) -> (r: rustrict::Type)
    ensures
        type_bits(r) == !type_bits(t) & ALL,
{
    !t
}

/// `a & b` on `rustrict::Type`s: the common bits.
#[verifier::external_body]
fn rustrict_and(a: rustrict::Type, b: rustrict::Type) -> (r: rustrict::Type)
    ensures
        type_bits(r) == type_bits(a) & type_bits(b),
{
    a & b
}

/// The threshold of the word check, `ANY & !SPAM`: every detection but spam.
pub fn word_threshold() -> (t: rustrict::Type)
    ensures
        type_bits(t) == TYPE_THRESHOLD,
{
    let t = rustrict_and(rustrict_any(), rustrict_not(rustrict_spam()));
    assert(0x3ffffu32 & (!0x38000u32 & 0x7ffffu32) == 0x7fffu32) by (bit_vector);
    t
}

/// The first-character threshold of the whole-line check, `ANY`.
pub fn line_first_character_threshold() -> (t: rustrict::Type)
    ensures
        type_bits(t) == ANY,
{
    rustrict_any()
}

/// The threshold of the whole-line check, `INAPPROPRIATE`.
pub fn line_threshold() -> (t: rustrict::Type)
    ensures
        type_bits(t) == INAPPROPRIATE,
{
    rustrict_inappropriate()
}

/// `rustrict::Type::NONE`, with no bits.
#[verifier::external_body]
fn rustrict_none() -> (t: rustrict::Type)
    ensures
        type_bits(t) == 0,
{
    rustrict::Type::NONE
}

/// `a | b` on `rustrict::Type`s: the bits of either.
#[verifier::external_body]
fn rustrict_or(a: rustrict::Type, b: rustrict::Type) -> (r: rustrict::Type)
    ensures
        type_bits(r) == type_bits(a) | type_bits(b),
{
    a | b
}

/// `rustrict::Type::PROFANE`, whose bits are [`PROFANE`].
#[verifier::external_body]
fn rustrict_profane() -> (t: rustrict::Type)
    ensures
        type_bits(t) == PROFANE,
{
    rustrict::Type::PROFANE
}

/// `rustrict::Type::OFFENSIVE`, whose bits are [`OFFENSIVE`].
#[verifier::external_body]
fn rustrict_offensive() -> (t: rustrict::Type)
    ensures
        type_bits(t) == OFFENSIVE,
{
    rustrict::Type::OFFENSIVE
}

/// `rustrict::Type::SEXUAL`, whose bits are [`SEXUAL`].
#[verifier::external_body]
fn rustrict_sexual() -> (t: rustrict::Type)
    ensures
        type_bits(t) == SEXUAL,
{
    rustrict::Type::SEXUAL
}

/// `rustrict::Type::MEAN`, whose bits are [`MEAN`].
#[verifier::external_body]
fn rustrict_mean() -> (t: rustrict::Type)
    ensures
        type_bits(t) == MEAN,
{
    rustrict::Type::MEAN
}

/// `rustrict::Type::EVASIVE`, whose bits are [`EVASIVE`].
#[verifier::external_body]
fn rustrict_evasive() -> (t: rustrict::Type)
    ensures
        type_bits(t) == EVASIVE,
{
    rustrict::Type::EVASIVE
}

/// `rustrict::Type::SAFE`, whose bits are [`SAFE`].
#[verifier::external_body]
fn rustrict_safe() -> (t: rustrict::Type)
    ensures
        type_bits(t) == SAFE,
{
    rustrict::Type::SAFE
}

/// `rustrict::Type::MILD`, whose bits are [`MILD`].
#[verifier::external_body]
fn rustrict_mild() -> (t: rustrict::Type)
    ensures
        type_bits(t) == MILD,
{
    rustrict::Type::MILD
}

/// `rustrict::Type::MODERATE`, whose bits are [`MODERATE`].
#[verifier::external_body]
fn rustrict_moderate() -> (t: rustrict::Type)
    ensures
        type_bits(t) == MODERATE,
{
    rustrict::Type::MODERATE
}

/// `rustrict::Type::SEVERE`, whose bits are [`SEVERE`].
#[verifier::external_body]
fn rustrict_severe() -> (t: rustrict::Type)
    ensures
        type_bits(t) == SEVERE,
{
    rustrict::Type::SEVERE
}

/// rustrict's `Debug` text of a type (`format!("{:?}", t)`): the categories present, each
/// with its level ("severely", "moderately", "mildly"), joined by ", ", then "safe" for the
/// safe flag, or "no detections" when there is nothing (see [`type_debug_spec`]).
#[verifier::external_body]
fn rustrict_debug(t: rustrict::Type) -> (res: String)
    ensures
        res@ == type_debug_spec(type_bits(t)),
{
    format!("{:?}", t)
}

/// The bits of category `c`, in the order rustrict lists them.
pub open spec fn category_bits(c: u32) -> u32 {
    if c == 0 {
        PROFANE
    } else if c == 1 {
        OFFENSIVE
    } else if c == 2 {
        SEXUAL
    } else if c == 3 {
        MEAN
    } else if c == 4 {
        EVASIVE
    } else {
        SPAM
    }
}

/// The bits of level `l`: mild, moderate, severe.
pub open spec fn level_bits(l: u32) -> u32 {
    if l == 0 {
        MILD
    } else if l == 1 {
        MODERATE
    } else {
        SEVERE
    }
}

/// The positions below `k`.
pub open spec fn mask_below(k: u32) -> u32 {
    ((1u32 << k) - 1) as u32
}

proof fn lemma_single_flag(k: u32)
    by (bit_vector)
    requires
        k < 18,
    ensures
        category_bits(k / 3) & level_bits(k % 3) == 1u32 << k,
{
}

proof fn lemma_mask_step(bits: u32, k: u32)
    by (bit_vector)
    requires
        k < 19,
    ensures
        bits & (1u32 << k) != 0 ==> (bits & mask_below(k)) | (1u32 << k) == bits & mask_below((k + 1) as u32),
        bits & (1u32 << k) == 0 ==> bits & mask_below(k) == bits & mask_below((k + 1) as u32),
        mask_below(0) == 0,
        mask_below(19) == ALL,
        SAFE == 1u32 << 18,
{
}

fn rustrict_category(c: u32) -> (t: rustrict::Type)
    requires
        c < 6,
    ensures
        type_bits(t) == category_bits(c),
{
    if c == 0 {
        rustrict_profane()
    } else if c == 1 {
        rustrict_offensive()
    } else if c == 2 {
        rustrict_sexual()
    } else if c == 3 {
        rustrict_mean()
    } else if c == 4 {
        rustrict_evasive()
    } else {
        rustrict_spam()
    }
}

fn rustrict_level(l: u32) -> (t: rustrict::Type)
    requires
        l < 3,
    ensures
        type_bits(t) == level_bits(l),
{
    if l == 0 {
        rustrict_mild()
    } else if l == 1 {
        rustrict_moderate()
    } else {
        rustrict_severe()
    }
}

/// The rustrict type with the single flag at position `k`.
fn single_flag(k: u32) -> (t: rustrict::Type)
    requires
        k < 19,
    ensures
        type_bits(t) == 1u32 << k,
{
    proof {
        lemma_mask_step(0, 0);
    }
    if k == 18 {
        rustrict_safe()
    } else {
        proof {
            lemma_single_flag(k);
        }
        rustrict_and(rustrict_category(k / 3), rustrict_level(k % 3))
    }
}

/// The rustrict type with the flags of `bits` (those outside [`ALL`] have no flag).
fn type_from_bits(bits: u32) -> (t: rustrict::Type)
    ensures
        type_bits(t) == bits & ALL,
{
    let mut t = rustrict_none();
    let mut k: u32 = 0;
    proof {
        lemma_mask_step(bits, 0);
        assert(bits & 0u32 == 0u32) by (bit_vector);
    }
    while k < 19
        invariant
            k <= 19,
            type_bits(t) == bits & mask_below(k),
        decreases 19 - k,
    {
        proof {
            lemma_mask_step(bits, k);
        }
        if bits & (1u32 << k) != 0 {
            t = rustrict_or(t, single_flag(k));
        }
        k += 1;
    }
    proof {
        lemma_mask_step(bits, 0);
    }
    t
}

/// Flags outside [`ALL`] do not show in rustrict's `Debug` text.
proof fn lemma_debug_within_flags(bits: u32)
    ensures
        type_debug_spec(bits & ALL) == type_debug_spec(bits),
{
    assert((bits & ALL) & PROFANE == bits & PROFANE && (bits & ALL) & OFFENSIVE == bits & OFFENSIVE
        && (bits & ALL) & SEXUAL == bits & SEXUAL && (bits & ALL) & MEAN == bits & MEAN && (bits & ALL)
        & EVASIVE == bits & EVASIVE && (bits & ALL) & SPAM == bits & SPAM && (bits & ALL) & SAFE == bits
        & SAFE) by (bit_vector);
    reveal_with_fuel(category_parts, 7);
    assert(category_parts(bits & ALL, 6) =~= category_parts(bits, 6));
}

/// Whether rustrict takes `c` for whitespace (Unicode whitespace, control and format
/// characters, and a few blank-looking characters).
pub uninterp spec fn is_effectively_whitespace(c: char) -> bool;

/// `rustrict::is_whitespace`.
#[verifier::external_body]
pub(crate) fn is_whitespace(c: char) -> (res: bool)
    ensures
        res == is_effectively_whitespace(c),
{
    rustrict::is_whitespace(c)
}

/// The separator predicate used to split lines into words.
pub open spec fn word_separator() -> spec_fn(char) -> bool {
    |c: char| is_effectively_whitespace(c)
}

/// Whether `(censored, typ)` is something rustrict's censor can give back for `text` when
/// the first character of a match is censored at the threshold with bits `first` and the
/// rest at the threshold with bits `rest`: the censored text and the bits of the type found.
/// What the censor gives back also depends on the word list and banned characters it holds
/// at the time, which can be changed while the program runs, so this is a relation between
/// the input and the possible outcomes, not a function: it claims no single outcome.
pub uninterp spec fn censor_outcome(text: Seq<char>, first: u32, rest: u32, censored: Seq<char>, typ: u32) -> bool;

/// `rustrict::Censor::from_str(word)` with the two thresholds, then `censor_and_analyze`:
/// the censored word and the bits of the type found, an outcome of the censor for this
/// word and these thresholds.  Every `rustrict::Type` is built from its flag constants with
/// `&`, `|` and `!` (which masks to the defined flags) or from severity weights in the low
/// fifteen bits, so the bits lie within [`ALL`].  Which characters are censored and which
/// flags are found depends on rustrict's word list and banned characters, both of which can
/// be customized at run time, so that is not stated.
#[verifier::external_body]
#[allow(deprecated)]
fn censor_and_analyze(
    word: &str,
    first_character_threshold: rustrict::Type,
    threshold: rustrict::Type,
) -> (res: (String, u32))
    ensures
        censor_outcome(word@, type_bits(first_character_threshold), type_bits(threshold), res.0@, res.1),
        res.1 <= ALL,
{
    let (censored, typ) = rustrict::Censor::from_str(word).with_censor_first_character_threshold(
        first_character_threshold,
    ).with_censor_threshold(threshold).censor_and_analyze();
    (censored, typ.bits())
}

/// Censors one word with the thresholds of the line check ([`TYPE_THRESHOLD`], `ANY & !SPAM`,
/// for both); the type found has no bits outside rustrict's flags.
pub fn censor_word(word: &str) -> (res: (String, u32))
    ensures
        censor_outcome(word@, TYPE_THRESHOLD, TYPE_THRESHOLD, res.0@, res.1),
        res.1 <= ALL,
{
    let threshold = word_threshold();
    censor_and_analyze(word, threshold, threshold)
}

/// Censors a whole line with the thresholds of the line check in [`crate::genius`] (`ANY` for the
/// first character, `INAPPROPRIATE` otherwise); the type found has no bits outside
/// rustrict's flags.
pub fn censor_whole_line(line: &str) -> (res: (String, u32))
    ensures
        censor_outcome(line@, ANY, INAPPROPRIATE, res.0@, res.1),
        res.1 <= ALL,
{
    censor_and_analyze(line, line_first_character_threshold(), line_threshold())
}

// ---------------------------------------------------------------------------
/// The type of a line or of a whole check.
#[derive(PartialEq, Eq, Structural, Clone, Copy, Debug)]
pub struct TypeWrapper {
    pub bits: u32,
}

impl Default for TypeWrapper {
    /// rustrict's default type, `INAPPROPRIATE`.
    fn default() -> (t: Self)
        ensures
            t.bits == INAPPROPRIATE,
    {
        TypeWrapper { bits: INAPPROPRIATE }
    }
}

/// How rustrict words the level of one category (its three bits).
pub open spec fn level_word(b: u32) -> Seq<char> {
    if b & 4 != 0 {
        "severely"@
    } else if b & 2 != 0 {
        "moderately"@
    } else if b & 1 != 0 {
        "mildly"@
    } else {
        "not"@
    }
}

/// The categories, as (mask, shift, name), in the order rustrict lists them.
pub open spec fn categories() -> Seq<(u32, u32, Seq<char>)> {
    seq![
        (PROFANE, 0u32, "profane"@),
        (OFFENSIVE, 3u32, "offensive"@),
        (SEXUAL, 6u32, "sexual"@),
        (MEAN, 9u32, "mean"@),
        (EVASIVE, 12u32, "evasive"@),
        (SPAM, 15u32, "spam"@),
    ]
}

/// The descriptions of the categories among the first `n` that `bits` has, in order.
pub open spec fn category_parts(bits: u32, n: nat) -> Seq<Seq<char>>
    decreases n,
{
    if n == 0 {
        Seq::empty()
    } else {
        let rest = category_parts(bits, (n - 1) as nat);
        let (mask, shift, name) = categories()[n - 1];
        if bits & mask != 0 {
            rest.push(level_word((bits & mask) >> shift) + " "@ + name)
        } else {
            rest
        }
    }
}

/// `parts` joined with `sep`.
pub open spec fn join_spec(parts: Seq<Seq<char>>, sep: Seq<char>) -> Seq<char>
    decreases parts.len(),
{
    if parts.len() == 0 {
        Seq::empty()
    } else if parts.len() == 1 {
        parts[0]
    } else {
        join_spec(parts.drop_last(), sep) + sep + parts.last()
    }
}

/// How rustrict's `Debug` prints a type: its categories with their levels, comma
/// separated, then "safe" for the safe flag, or "no detections" when there is nothing.
pub open spec fn type_debug_spec(bits: u32) -> Seq<char> {
    let parts = category_parts(bits, 6);
    join_spec(parts, ", "@) + if bits & SAFE != 0 {
        if parts.len() > 0 {
            ", safe"@
        } else {
            "safe"@
        }
    } else if parts.len() == 0 {
        "no detections"@
    } else {
        Seq::empty()
    }
}

/// The label of a type shown next to a reported line.
pub open spec fn type_name_spec(bits: u32) -> Seq<char> {
    if bits & SAFE != 0 {
        "🟢 safe"@
    } else if bits & TYPE_THRESHOLD == 0 {
        "🟣 probably safe"@
    } else {
        let emoji = if bits & SEVERE != 0 {
            '⛔'
        } else if bits & MODERATE != 0 {
            '🟠'
        } else if bits & MILD != 0 {
            '🟡'
        } else {
            '❔'
        };
        seq![emoji, ' '] + type_debug_spec(bits)
    }
}

impl TypeWrapper {
    /// rustrict's `Type::is`: the type meets the threshold.
    pub fn is(self, threshold: u32) -> (res: bool)
        ensures
            res == (self.bits & threshold != 0),
    {
        self.bits & threshold != 0
    }

    /// rustrict's `Type::isnt`.
    pub fn isnt(self, threshold: u32) -> (res: bool)
        ensures
            res == (self.bits & threshold == 0),
    {
        self.bits & threshold == 0
    }

    /// rustrict's `Debug` text of the type (see [`type_debug_spec`]): the type is rebuilt
    /// from its flags and printed by rustrict.
    pub fn debug_text(&self) -> (res: String)
        ensures
            res@ == type_debug_spec(self.bits),
    {
        let t = type_from_bits(self.bits);
        let res = rustrict_debug(t);
        proof {
            lemma_debug_within_flags(self.bits);
        }
        res
    }

    /// The label shown with a line: safe, probably safe, or a severity emoji and the
    /// type's description.
    pub fn name(&self) -> (res: String)
        ensures
            res@ == type_name_spec(self.bits),
    {
        if self.bits & SAFE != 0 {
            return "🟢 safe".to_owned();
        }
        if self.bits & TYPE_THRESHOLD == 0 {
            return "🟣 probably safe".to_owned();
        }
        let emoji = if self.bits & SEVERE != 0 {
            '⛔'
        } else if self.bits & MODERATE != 0 {
            '🟠'
        } else if self.bits & MILD != 0 {
            '🟡'
        } else {
            '❔'
        };
        let mut res = String::new();
        push_char(&mut res, emoji);
        push_char(&mut res, ' ');
        res.append(self.debug_text().as_str());
        assert(res@ =~= type_name_spec(self.bits));
        res
    }
}

// ---------------------------------------------------------------------------
/// Whether the character at `i` of `line` was censored: the censored text has no
/// character there, or a different one.
pub open spec fn is_censored_at(line: Seq<char>, censored: Seq<char>, i: int) -> bool {
    i >= censored.len() || censored[i] != line[i]
}

/// The censored positions among the first `n` characters of `line`, in increasing order.
pub open spec fn bad_chars_upto(line: Seq<char>, censored: Seq<char>, n: int) -> Seq<usize>
    decreases n,
{
    if n <= 0 {
        Seq::empty()
    } else {
        let rest = bad_chars_upto(line, censored, n - 1);
        if is_censored_at(line, censored, n - 1) {
            rest.push((n - 1) as usize)
        } else {
            rest
        }
    }
}

/// The censored positions of `line`.
pub open spec fn bad_chars_spec(line: Seq<char>, censored: Seq<char>) -> Seq<usize> {
    bad_chars_upto(line, censored, line.len() as int)
}

/// The censored positions are exactly the positions of the line whose character the
/// censored text does not repeat, and they come in increasing order.
pub proof fn lemma_bad_chars_members(line: Seq<char>, censored: Seq<char>, n: int)
    requires
        0 <= n <= line.len(),
        line.len() <= usize::MAX,
    ensures
        forall|i: usize|
            (i < n && is_censored_at(line, censored, i as int)) <==> #[trigger] bad_chars_upto(
                line,
                censored,
                n,
            ).contains(i),
        forall|a: int, b: int|
            0 <= a < b < bad_chars_upto(line, censored, n).len() ==> #[trigger] bad_chars_upto(
                line,
                censored,
                n,
            )[a] < #[trigger] bad_chars_upto(line, censored, n)[b],
    decreases n,
{
    if n > 0 {
        lemma_bad_chars_members(line, censored, n - 1);
        let rest = bad_chars_upto(line, censored, n - 1);
        let all = bad_chars_upto(line, censored, n);
        assert(forall|a: int| 0 <= a < rest.len() ==> rest[a] < n - 1) by {
            assert forall|a: int| 0 <= a < rest.len() implies rest[a] < n - 1 by {
                assert(rest.contains(rest[a]));
            }
        }
        assert forall|i: usize|
            (i < n && is_censored_at(line, censored, i as int)) <==> #[trigger] all.contains(i) by {
            if all.contains(i) {
                let k = choose|k: int| 0 <= k < all.len() && all[k] == i;
                if k < rest.len() {
                    assert(rest[k] == all[k]);
                    assert(rest.contains(i));
                }
            }
            if i < n - 1 && is_censored_at(line, censored, i as int) {
                assert(rest.contains(i));
                let k = choose|k: int| 0 <= k < rest.len() && rest[k] == i;
                assert(all[k] == rest[k]);
            }
            if i == n - 1 && is_censored_at(line, censored, i as int) {
                assert(all[all.len() - 1] == i);
            }
        }
    }
}

fn vec_contains(v: &Vec<usize>, x: usize) -> (res: bool)
    ensures
        res == v@.contains(x),
{
    let mut i: usize = 0;
    while i < v.len()
        invariant
            i <= v@.len(),
            forall|k: int| 0 <= k < i ==> v@[k] != x,
        decreases v@.len() - i,
    {
        if v[i] == x {
            return true;
        }
        i += 1;
    }
    false
}

/// Opens a highlighted run.
pub open spec fn open_mark() -> Seq<char> {
    "<tg-spoiler><u>"@
}

/// Closes a highlighted run.
pub open spec fn close_mark() -> Seq<char> {
    "</u></tg-spoiler>"@
}

/// How one character comes out: a censored character opens a spoiler when the previous
/// one was not censored and closes it when the next one is not.
pub open spec fn highlight_piece(c: char, prev: bool, cur: bool, next: bool) -> Seq<char> {
    if !prev && cur && !next {
        open_mark() + seq![c] + close_mark()
    } else if prev && cur && !next {
        seq![c] + close_mark()
    } else if !prev && cur && next {
        open_mark() + seq![c]
    } else {
        seq![c]
    }
}

/// The first `n` characters of `line`, highlighted by the censored positions `bad`.
pub open spec fn highlight_upto(line: Seq<char>, bad: Seq<usize>, n: int) -> Seq<char>
    decreases n,
{
    if n <= 0 {
        Seq::empty()
    } else {
        let i = n - 1;
        highlight_upto(line, bad, i) + highlight_piece(
            line[i],
            i != 0 && bad.contains((i - 1) as usize),
            bad.contains(i as usize),
            bad.contains((i + 1) as usize),
        )
    }
}

/// The whole line, highlighted.
pub open spec fn highlight_spec(line: Seq<char>, bad: Seq<usize>) -> Seq<char> {
    highlight_upto(line, bad, line.len() as int)
}

/// Nothing censored, nothing highlighted: the line comes out as it is.
pub proof fn lemma_highlight_nothing_censored(line: Seq<char>, n: int)
    requires
        0 <= n <= line.len(),
    ensures
        highlight_upto(line, Seq::empty(), n) == line.take(n),
    decreases n,
{
    if n > 0 {
        lemma_highlight_nothing_censored(line, n - 1);
        assert(line.take(n) =~= line.take(n - 1).push(line[n - 1]));
    }
}

/// The pattern that picks the highlighted runs out of a highlighted line.
pub open spec fn underline_pattern() -> Seq<char> {
    "<u>(.*?)</u>"@
}

/// Whether `word` is the lower-cased text of one underlined run among `matches`.
pub open spec fn is_profane_match(matches: Seq<Seq<Option<Seq<char>>>>, word: Seq<char>) -> bool {
    exists|k: int|
        0 <= k < matches.len() && (#[trigger] matches[k]).len() > 1 && matches[k][1] is Some
            && word == lowercase_spec(matches[k][1]->0)
}

/// The lower-cased underlined runs of a highlighted line.
pub open spec fn profine_words_spec(highlighted: Seq<char>) -> Set<Seq<char>> {
    match regex_captures_all_spec(underline_pattern(), highlighted) {
        Some(matches) => Set::new(|w: Seq<char>| is_profane_match(matches, w)),
        None => Set::empty(),
    }
}

/// A checked line: its number, type, text, censored text, and censored positions.
pub struct LineResult {
    pub no: usize,
    pub typ: TypeWrapper,
    pub line: String,
    pub bad_chars: Vec<usize>,
    pub censored: String,
}

impl Default for LineResult {
    fn default() -> (r: Self)
        ensures
            r.no == 0,
            r.typ.bits == INAPPROPRIATE,
            r.line@ == Seq::<char>::empty(),
            r.bad_chars@ == Seq::<usize>::empty(),
            r.censored@ == Seq::<char>::empty(),
    {
        LineResult {
            no: 0,
            typ: TypeWrapper::default(),
            line: String::new(),
            bad_chars: Vec::new(),
            censored: String::new(),
        }
    }
}

impl LineResult {
    /// The line with every run of censored characters wrapped in a spoiler and underline.
    pub fn highlighted(&self) -> (res: String)
        ensures
            res@ == highlight_spec(self.line@, self.bad_chars@),
    {
        let l = chars_of(self.line.as_str());
        let mut res = String::new();
        let mut i: usize = 0;
        while i < l.len()
            invariant
                i <= l@.len(),
                l@ == self.line@,
                res@ == highlight_upto(self.line@, self.bad_chars@, i as int),
            decreases l@.len() - i,
        {
            let c = l[i];
            let prev = i != 0 && vec_contains(&self.bad_chars, i - 1);
            let cur = vec_contains(&self.bad_chars, i);
            let next = vec_contains(&self.bad_chars, i + 1);
            if !prev && cur && !next {
                res.append("<tg-spoiler><u>");
                push_char(&mut res, c);
                res.append("</u></tg-spoiler>");
            } else if prev && cur && !next {
                push_char(&mut res, c);
                res.append("</u></tg-spoiler>");
            } else if !prev && cur && next {
                res.append("<tg-spoiler><u>");
                push_char(&mut res, c);
            } else {
                push_char(&mut res, c);
            }
            assert(res@ =~= highlight_upto(self.line@, self.bad_chars@, i + 1));
            i += 1;
        }
        res
    }

    /// The censored runs of the line, lower-cased, each once.
    pub fn get_profine_words(&self) -> (res: StringSet)
        ensures
            res@.no_duplicates(),
            res@.to_set() == profine_words_spec(highlight_spec(self.line@, self.bad_chars@)),
    {
        let haystack = self.highlighted();
        let mut res = StringSet::new();
        let captured = regex_captures_all("<u>(.*?)</u>", haystack.as_str());
        match captured {
            None => {
                assert(res@.to_set() =~= Set::<Seq<char>>::empty());
                res
            },
            Some(matches) => {
                let ghost ms = matches@.map_values(|m: Vec<Option<String>>| m@.map_values(|g: Option<String>| match g {
                    Some(s) => Some(s@),
                    None => None,
                }));
                let mut k: usize = 0;
                while k < matches.len()
                    invariant
                        k <= matches@.len(),
                        ms.len() == matches@.len(),
                        forall|j: int| 0 <= j < matches@.len() ==> #[trigger] ms[j] == matches@[j]@.map_values(|g: Option<String>| match g {
                            Some(s) => Some(s@),
                            None => None,
                        }),
                        res@.no_duplicates(),
                        res@.to_set() == Set::new(|w: Seq<char>| is_profane_match(ms.take(k as int), w)),
                    decreases matches@.len() - k,
                {
                    let m = &matches[k];
                    let ghost before = res@.to_set();
                    assert(ms[k as int] == m@.map_values(|g: Option<String>| match g {
                        Some(s) => Some(s@),
                        None => None,
                    }));
                    if m.len() > 1 {
                        if let Some(g) = &m[1] {
                            let w = to_lowercase(g.as_str());
                            res.insert(w);
                        }
                    }
                    assert(res@.to_set() =~= Set::new(|w: Seq<char>| is_profane_match(ms.take(k + 1), w))) by {
                        assert forall|w: Seq<char>| res@.to_set().contains(w) <==> is_profane_match(ms.take(k + 1), w) by {
                            if is_profane_match(ms.take(k + 1), w) {
                                let j = choose|j: int|
                                    0 <= j < ms.take(k + 1).len() && (#[trigger] ms.take(k + 1)[j]).len() > 1 && ms.take(k + 1)[j][1] is Some
                                        && w == lowercase_spec(ms.take(k + 1)[j][1]->0);
                                if j < k {
                                    assert(ms.take(k as int)[j] == ms.take(k + 1)[j]);
                                    assert(is_profane_match(ms.take(k as int), w));
                                }
                            }
                            if is_profane_match(ms.take(k as int), w) {
                                let j = choose|j: int|
                                    0 <= j < ms.take(k as int).len() && (#[trigger] ms.take(k as int)[j]).len() > 1 && ms.take(k as int)[j][1] is Some
                                        && w == lowercase_spec(ms.take(k as int)[j][1]->0);
                                assert(ms.take(k + 1)[j] == ms.take(k as int)[j]);
                            }
                            if m@.len() > 1 && m@[1] is Some && w == lowercase_spec(m@[1]->0@) {
                                assert(ms.take(k + 1)[k as int] == ms[k as int]);
                                assert(ms[k as int][1] == Some(m@[1]->0@));
                            }
                        }
                    }
                    k += 1;
                }
                assert(ms.take(k as int) =~= ms);
                assert(res@.to_set() =~= profine_words_spec(highlight_spec(self.line@, self.bad_chars@)));
                res
            },
        }
    }
}

// ---------------------------------------------------------------------------
/// Words put back together as the check does: each word preceded by one space.
pub open spec fn joined_spec(words: Seq<Seq<char>>) -> Seq<char>
    decreases words.len(),
{
    if words.len() == 0 {
        Seq::empty()
    } else {
        joined_spec(words.drop_last()) + seq![' '] + words.last()
    }
}

/// The type of a line from the types of its words: the union of those that are not safe.
pub open spec fn line_type_spec(types: Seq<u32>) -> u32
    decreases types.len(),
{
    if types.len() == 0 {
        0
    } else {
        let rest = line_type_spec(types.drop_last());
        if types.last() & SAFE == 0 {
            rest | types.last()
        } else {
            rest
        }
    }
}

proof fn lemma_or_bits(x: u32, y: u32, b: u32)
    by (bit_vector)
    ensures
        ((x | y) & b != 0) <==> (x & b != 0 || y & b != 0),
        (x & SAFE == 0 && y & SAFE == 0) ==> (x | y) & SAFE == 0,
        0u32 & b == 0,
{
}

/// The line type has a bit exactly when some word type without the safe flag has it, and it
/// never has the safe flag.
proof fn lemma_line_type_bits(types: Seq<u32>)
    ensures
        line_type_spec(types) & SAFE == 0,
        forall|b: u32|
            (line_type_spec(types) & b != 0) <==> exists|k: int|
                0 <= k < types.len() && types[k] & SAFE == 0 && #[trigger] (types[k] & b) != 0,
    decreases types.len(),
{
    if types.len() == 0 {
        assert forall|b: u32| !(line_type_spec(types) & b != 0) by {
            lemma_or_bits(0, 0, b);
        }
        lemma_or_bits(0, 0, SAFE);
    } else {
        let init = types.drop_last();
        let x = types.last();
        lemma_line_type_bits(init);
        let rest = line_type_spec(init);
        lemma_or_bits(rest, x, SAFE);
        assert forall|b: u32|
            (line_type_spec(types) & b != 0) <==> exists|k: int|
                0 <= k < types.len() && types[k] & SAFE == 0 && #[trigger] (types[k] & b) != 0 by {
            lemma_or_bits(rest, x, b);
            if rest & b != 0 {
                let k = choose|k: int| 0 <= k < init.len() && init[k] & SAFE == 0 && #[trigger] (init[k] & b) != 0;
                assert(types[k] == init[k]);
            }
            if exists|k: int| 0 <= k < types.len() && types[k] & SAFE == 0 && #[trigger] (types[k] & b) != 0 {
                let k = choose|k: int| 0 <= k < types.len() && types[k] & SAFE == 0 && #[trigger] (types[k] & b) != 0;
                if k < init.len() {
                    assert(init[k] == types[k]);
                    assert(init[k] & b != 0);
                }
            }
        }
    }
}

/// The type of a checked line never carries the safe flag unless the line is reported safe
/// as a whole; otherwise it has exactly the bits of the word types that are not safe, and a
/// line is reported safe only when those word types do not reach [`TYPE_THRESHOLD`].
pub proof fn lemma_line_type(
    r: LineResult,
    no: usize,
    words: Seq<Seq<char>>,
    censored: Seq<Seq<char>>,
    types: Seq<u32>,
)
    requires
        line_result_ok(r, no, words, censored, types),
    ensures
        r.typ.bits & SAFE != 0 ==> r.typ.bits == SAFE,
        r.typ.bits != SAFE ==> forall|b: u32|
            (r.typ.bits & b != 0) <==> exists|k: int|
                0 <= k < types.len() && types[k] & SAFE == 0 && #[trigger] (types[k] & b) != 0,
        (exists|k: int|
            0 <= k < types.len() && types[k] & SAFE == 0 && #[trigger] (types[k] & TYPE_THRESHOLD) != 0)
            ==> r.typ.bits != SAFE,
{
    lemma_line_type_bits(types);
    let typ = line_type_spec(types);
    assert(SAFE & TYPE_THRESHOLD == 0) by (bit_vector);
    if exists|k: int| 0 <= k < types.len() && types[k] & SAFE == 0 && #[trigger] (types[k] & TYPE_THRESHOLD) != 0 {
        assert(typ & TYPE_THRESHOLD != 0);
    }
}

/// The result for line `no` whose words, censored words and word types are given.
pub open spec fn line_result_ok(
    r: LineResult,
    no: usize,
    words: Seq<Seq<char>>,
    censored: Seq<Seq<char>>,
    types: Seq<u32>,
) -> bool {
    let line = joined_spec(words);
    let typ = line_type_spec(types);
    &&& r.no == no
    &&& r.line@ == line
    &&& if typ & TYPE_THRESHOLD == 0 {
        &&& r.typ.bits == SAFE
        &&& r.censored@ == line
        &&& r.bad_chars@ == Seq::<usize>::empty()
    } else {
        &&& r.typ.bits == typ
        &&& r.censored@ == joined_spec(censored)
        &&& r.bad_chars@ == bad_chars_spec(line, joined_spec(censored))
    }
}

/// What holds of a line result whatever the censor said: its number and text are fixed,
/// and it is either reported safe with nothing censored, or its type reaches the
/// threshold and the censored positions are those of its censored text.
pub open spec fn line_result_consistent(r: LineResult, no: usize, text_line: Seq<char>) -> bool {
    &&& r.no == no
    &&& r.line@ == joined_spec(split_spec(html_escape_spec(text_line), word_separator()))
    &&& {
        ||| (r.typ.bits == SAFE && r.censored@ == r.line@ && r.bad_chars@ == Seq::<usize>::empty())
        ||| (r.typ.bits & TYPE_THRESHOLD != 0 && r.bad_chars@ == bad_chars_spec(r.line@, r.censored@))
    }
}

/// The words of a text line as the check sees them: escaped for HTML, then split at
/// rustrict's whitespace.
pub open spec fn line_words(text_line: Seq<char>) -> Seq<Seq<char>> {
    split_spec(html_escape_spec(text_line), word_separator())
}

/// Whether `censored` and `types` are, word by word, outcomes of the word censor
/// ([`censor_word`]) on `words`.
pub open spec fn word_outcomes(words: Seq<Seq<char>>, censored: Seq<Seq<char>>, types: Seq<u32>) -> bool {
    &&& censored.len() == words.len()
    &&& types.len() == words.len()
    &&& forall|k: int|
        0 <= k < words.len() ==> censor_outcome(words[k], TYPE_THRESHOLD, TYPE_THRESHOLD, censored[k], #[trigger] types[k])
            && types[k] <= ALL
}

/// The result for line `no` of a text is that line's words put back together with some
/// outcome of the word censor for each word (see [`line_result_ok`]).
pub open spec fn line_checked(r: LineResult, no: usize, text_line: Seq<char>) -> bool {
    exists|censored: Seq<Seq<char>>, types: Seq<u32>|
        #[trigger] word_outcomes(line_words(text_line), censored, types) && line_result_ok(
            r,
            no,
            line_words(text_line),
            censored,
            types,
        )
}

/// Splits a line into words at rustrict's whitespace, like `str::split(is_whitespace)`.
pub fn split_words(line: &str) -> (words: Vec<String>)
    ensures
        words@.map_values(|w: String| w@) == split_spec(line@, word_separator()),
{
    let v = chars_of(line);
    let mut words: Vec<String> = Vec::new();
    let mut start: usize = 0;
    let mut i: usize = 0;
    assert(v@.take(0) =~= Seq::<char>::empty());
    while i < v.len()
        invariant
            start <= i <= v@.len(),
            v@ == line@,
            split_spec(v@.take(i as int), word_separator()) == words@.map_values(|w: String| w@).push(
                v@.subrange(start as int, i as int),
            ),
        decreases v@.len() - i,
    {
        let ghost prev = words@.map_values(|w: String| w@);
        assert(v@.take(i + 1).drop_last() =~= v@.take(i as int));
        assert(v@.take(i + 1).last() == v@[i as int]);
        if is_whitespace(v[i]) {
            let w = string_from_chars(&v, start, i);
            words.push(w);
            assert(words@.map_values(|w: String| w@) =~= prev.push(v@.subrange(start as int, i as int)));
            start = i + 1;
            assert(v@.subrange(start as int, i + 1) =~= Seq::<char>::empty());
        } else {
            assert(v@.subrange(start as int, i + 1) =~= v@.subrange(start as int, i as int).push(v@[i as int]));
            let ghost sp = split_spec(v@.take(i as int), word_separator());
            assert(sp.len() == prev.len() + 1);
            assert(sp.update(sp.len() - 1, sp.last().push(v@[i as int])) =~= prev.push(v@.subrange(start as int, i + 1)));
        }
        i += 1;
    }
    let w = string_from_chars(&v, start, i);
    let ghost prev = words@.map_values(|w: String| w@);
    words.push(w);
    assert(words@.map_values(|w: String| w@) =~= prev.push(v@.subrange(start as int, i as int)));
    assert(v@.take(i as int) =~= v@);
    words
}

fn join_words(words: &Vec<String>) -> (res: String)
    ensures
        res@ == joined_spec(words@.map_values(|w: String| w@)),
{
    let mut res = String::new();
    let mut i: usize = 0;
    assert(words@.map_values(|w: String| w@).take(0) =~= Seq::<Seq<char>>::empty());
    while i < words.len()
        invariant
            i <= words@.len(),
            res@ == joined_spec(words@.map_values(|w: String| w@).take(i as int)),
        decreases words@.len() - i,
    {
        let ghost ws = words@.map_values(|w: String| w@);
        assert(ws.take(i + 1).drop_last() =~= ws.take(i as int));
        assert(ws.take(i + 1).last() == words@[i as int]@);
        push_char(&mut res, ' ');
        res.append(words[i].as_str());
        assert(res@ =~= joined_spec(ws.take(i + 1)));
        i += 1;
    }
    assert(words@.map_values(|w: String| w@).take(i as int) =~= words@.map_values(|w: String| w@));
    res
}

/// Puts a line back together from its words and what the censor said about each of them.
pub fn assemble_line(no: usize, words: &Vec<String>, censored: &Vec<String>, types: &Vec<u32>) -> (r: LineResult)
    requires
        words@.len() == censored@.len(),
        words@.len() == types@.len(),
    ensures
        line_result_ok(
            r,
            no,
            words@.map_values(|w: String| w@),
            censored@.map_values(|w: String| w@),
            types@,
        ),
{
    let line = join_words(words);
    let line_censored = join_words(censored);
    let mut typ: u32 = 0;
    let mut i: usize = 0;
    assert(types@.take(0) =~= Seq::<u32>::empty());
    while i < types.len()
        invariant
            i <= types@.len(),
            typ == line_type_spec(types@.take(i as int)),
        decreases types@.len() - i,
    {
        assert(types@.take(i + 1).drop_last() =~= types@.take(i as int));
        if types[i] & SAFE == 0 {
            typ = typ | types[i];
        }
        i += 1;
    }
    assert(types@.take(i as int) =~= types@);
    if typ & TYPE_THRESHOLD == 0 {
        let copy = line.as_str().to_owned();
        return LineResult {
            no,
            typ: TypeWrapper { bits: SAFE },
            censored: copy,
            line,
            bad_chars: Vec::new(),
        };
    }
    let bad_chars = CheckResult::extract_bad_chars(line.as_str(), line_censored.as_str());
    LineResult { no, typ: TypeWrapper { bits: typ }, line, bad_chars, censored: line_censored }
}

/// The type of a whole check: the union of the types of the lines that reach the threshold.
pub open spec fn sum_type_spec(lines: Seq<LineResult>) -> u32
    decreases lines.len(),
{
    if lines.len() == 0 {
        0
    } else {
        let rest = sum_type_spec(lines.drop_last());
        if lines.last().typ.bits & TYPE_THRESHOLD != 0 {
            rest | lines.last().typ.bits
        } else {
            rest
        }
    }
}

/// The outcome of checking some text: one result per line, and the overall type.
pub struct CheckResult {
    pub lines: Vec<LineResult>,
    pub typ: TypeWrapper,
}

impl View for CheckResult {
    type V = Seq<LineResult>;

    open spec fn view(&self) -> Seq<LineResult> {
        self.lines@
    }
}

impl CheckResult {
    /// The positions of `line` whose character was censored.
    pub fn extract_bad_chars(line: &str, censored: &str) -> (res: Vec<usize>)
        ensures
            res@ == bad_chars_spec(line@, censored@),
    {
        let l = chars_of(line);
        let c = chars_of(censored);
        let mut res: Vec<usize> = Vec::new();
        let mut i: usize = 0;
        while i < l.len()
            invariant
                i <= l@.len(),
                l@ == line@,
                c@ == censored@,
                res@ == bad_chars_upto(line@, censored@, i as int),
            decreases l@.len() - i,
        {
            if i >= c.len() || c[i] != l[i] {
                res.push(i);
            }
            i += 1;
        }
        res
    }

    /// Checks every line: escapes it for HTML, splits it into words, censors each word,
    /// and puts the line back together (see [`assemble_line`]).
    pub fn perform(text: &[&str]) -> (res: CheckResult)
        ensures
            res@.len() == text@.len(),
            forall|i: int| 0 <= i < text@.len() ==> line_result_consistent(#[trigger] res@[i], i as usize, text@[i]@),
            forall|i: int| 0 <= i < text@.len() ==> line_checked(#[trigger] res@[i], i as usize, text@[i]@),
            forall|i: int|
                0 <= i < text@.len() ==> (#[trigger] res@[i]).typ.bits & SAFE != 0 ==> res@[i].typ.bits == SAFE,
            res.typ.bits == sum_type_spec(res@),
    {
        let mut lines: Vec<LineResult> = Vec::new();
        let mut index: usize = 0;
        while index < text.len()
            invariant
                index <= text@.len(),
                lines@.len() == index,
                forall|i: int| 0 <= i < index ==> line_result_consistent(#[trigger] lines@[i], i as usize, text@[i]@),
                forall|i: int| 0 <= i < index ==> line_checked(#[trigger] lines@[i], i as usize, text@[i]@),
                forall|i: int|
                    0 <= i < index ==> (#[trigger] lines@[i]).typ.bits & SAFE != 0 ==> lines@[i].typ.bits == SAFE,
            decreases text@.len() - index,
        {
            let escaped = html_escape(text[index]);
            let words = split_words(escaped.as_str());
            let ghost wv = words@.map_values(|w: String| w@);
            assert(wv == line_words(text@[index as int]@));
            let mut censored: Vec<String> = Vec::new();
            let mut types: Vec<u32> = Vec::new();
            let mut k: usize = 0;
            while k < words.len()
                invariant
                    k <= words@.len(),
                    censored@.len() == k,
                    types@.len() == k,
                    wv == words@.map_values(|w: String| w@),
                    forall|j: int|
                        0 <= j < k ==> censor_outcome(wv[j], TYPE_THRESHOLD, TYPE_THRESHOLD, censored@[j]@, #[trigger] types@[j])
                            && types@[j] <= ALL,
                decreases words@.len() - k,
            {
                let (c, t) = censor_word(words[k].as_str());
                censored.push(c);
                types.push(t);
                k += 1;
            }
            let ghost cv = censored@.map_values(|w: String| w@);
            assert(word_outcomes(wv, cv, types@)) by {
                assert forall|j: int| 0 <= j < wv.len() implies censor_outcome(wv[j], TYPE_THRESHOLD, TYPE_THRESHOLD, cv[j], #[trigger] types@[j])
                    && types@[j] <= ALL by {
                    assert(cv[j] == censored@[j]@);
                }
            }
            let r = assemble_line(index, &words, &censored, &types);
            proof {
                lemma_line_type(r, index, wv, cv, types@);
            }
            assert(line_checked(r, index, text@[index as int]@));
            lines.push(r);
            index += 1;
        }
        let mut typ: u32 = 0;
        let mut i: usize = 0;
        assert(lines@.take(0) =~= Seq::<LineResult>::empty());
        while i < lines.len()
            invariant
                i <= lines@.len(),
                typ == sum_type_spec(lines@.take(i as int)),
            decreases lines@.len() - i,
        {
            assert(lines@.take(i + 1).drop_last() =~= lines@.take(i as int));
            if lines[i].typ.bits & TYPE_THRESHOLD != 0 {
                typ = typ | lines[i].typ.bits;
            }
            i += 1;
        }
        assert(lines@.take(i as int) =~= lines@);
        CheckResult { lines, typ: TypeWrapper { bits: typ } }
    }

    /// The line results, in order.
    pub fn lines(&self) -> (res: &Vec<LineResult>)
        ensures
            res@ == self@,
    {
        &self.lines
    }

    /// Whether the check found something worth telling the user about.
    pub fn should_trigger(&self) -> (res: bool)
        ensures
            res == (self.typ.bits & TYPE_TRIGGER != 0),
    {
        self.typ.is(TYPE_TRIGGER)
    }

    /// The censored words of all lines, lower-cased, each once.
    pub fn get_profine_words(&self) -> (res: StringSet)
        ensures
            res@.no_duplicates(),
            forall|w: Seq<char>|
                res@.contains(w) <==> exists|i: int|
                    0 <= i < self@.len() && #[trigger] profine_words_spec(
                        highlight_spec(self@[i].line@, self@[i].bad_chars@),
                    ).contains(w),
    {
        let mut words = StringSet::new();
        let mut i: usize = 0;
        while i < self.lines.len()
            invariant
                i <= self@.len(),
                self@ == self.lines@,
                words@.no_duplicates(),
                forall|w: Seq<char>|
                    words@.to_set().contains(w) <==> exists|j: int|
                        0 <= j < i && #[trigger] profine_words_spec(
                            highlight_spec(self@[j].line@, self@[j].bad_chars@),
                        ).contains(w),
            decreases self@.len() - i,
        {
            let line_words = self.lines[i].get_profine_words();
            words.extend(&line_words);
            assert forall|w: Seq<char>|
                words@.to_set().contains(w) <==> exists|j: int|
                    0 <= j < i + 1 && #[trigger] profine_words_spec(
                        highlight_spec(self@[j].line@, self@[j].bad_chars@),
                    ).contains(w) by {
                if profine_words_spec(highlight_spec(self@[i as int].line@, self@[i as int].bad_chars@)).contains(w) {
                    assert(line_words@.to_set().contains(w));
                }
            }
            i += 1;
        }
        assert forall|w: Seq<char>| words@.contains(w) <==> words@.to_set().contains(w) by {
            broadcast use vstd::seq_lib::group_seq_properties;
        }
        words
    }
}

/// The text of a checked line is a space followed by the HTML-escaped input line, in
/// which every whitespace character has become a plain space.
pub proof fn lemma_line_text(s: Seq<char>)
    ensures
        joined_spec(split_spec(s, word_separator())) == seq![' '] + s.map_values(
            |c: char| if is_effectively_whitespace(c) { ' ' } else { c },
        ),
    decreases s.len(),
{
    let f = |c: char| if is_effectively_whitespace(c) { ' ' } else { c };
    if s.len() == 0 {
        assert(split_spec(s, word_separator()) =~= seq![Seq::<char>::empty()]);
        assert(seq![Seq::<char>::empty()].drop_last() =~= Seq::<Seq<char>>::empty());
        assert(s.map_values(f) =~= Seq::<char>::empty());
        let one = seq![Seq::<char>::empty()];
        assert(one.last() == Seq::<char>::empty());
        assert(joined_spec(one.drop_last()) == Seq::<char>::empty());
        assert(joined_spec(one) == joined_spec(one.drop_last()) + seq![' '] + one.last());
        assert(joined_spec(one) =~= seq![' ']);
    } else {
        lemma_line_text(s.drop_last());
        crate::text::lemma_split_nonempty(s.drop_last(), word_separator());
        let rest = split_spec(s.drop_last(), word_separator());
        let m = s.drop_last().map_values(f);
        assert(joined_spec(rest) == seq![' '] + m);
        assert(s.map_values(f) =~= m.push(f(s.last())));
        if is_effectively_whitespace(s.last()) {
            assert(split_spec(s, word_separator()) == rest.push(Seq::<char>::empty()));
            assert(rest.push(Seq::<char>::empty()).drop_last() =~= rest);
            assert(joined_spec(rest.push(Seq::<char>::empty())) =~= joined_spec(rest) + seq![' ']);
            assert(seq![' '] + m.push(' ') =~= (seq![' '] + m) + seq![' ']);
        } else {
            let upd = rest.update(rest.len() - 1, rest.last().push(s.last()));
            assert(split_spec(s, word_separator()) == upd);
            assert(upd.drop_last() =~= rest.drop_last());
            assert(upd.last() == rest.last().push(s.last()));
            assert(joined_spec(rest) == joined_spec(rest.drop_last()) + seq![' '] + rest.last());
            assert(joined_spec(upd) == joined_spec(upd.drop_last()) + seq![' '] + upd.last());
            assert(joined_spec(upd) =~= joined_spec(rest) + seq![s.last()]);
            assert(seq![' '] + m.push(s.last()) =~= (seq![' '] + m) + seq![s.last()]);
        }
    }
}


/// Entry point to the profanity check.
pub struct Manager;

impl Manager {
    /// Checks the lines of a text; the same as [`CheckResult::perform`].
    pub fn check(text: &[&str]) -> (res: CheckResult)
        ensures
            res@.len() == text@.len(),
            forall|i: int| 0 <= i < text@.len() ==> line_result_consistent(#[trigger] res@[i], i as usize, text@[i]@),
            forall|i: int| 0 <= i < text@.len() ==> line_checked(#[trigger] res@[i], i as usize, text@[i]@),
            forall|i: int|
                0 <= i < text@.len() ==> (#[trigger] res@[i]).typ.bits & SAFE != 0 ==> res@[i].typ.bits == SAFE,
            res.typ.bits == sum_type_spec(res@),
    {
        CheckResult::perform(text)
    }
}

/// A marker type for the profanity check; it carries no state.
pub struct Checker;

/// A check triggers a report exactly when one of its lines has a type that
/// triggers: the overall type gathers the lines' types, and every triggering
/// type reaches the threshold.
pub proof fn lemma_trigger_iff_some_line(lines: Seq<LineResult>)
    ensures
        (sum_type_spec(lines) & TYPE_TRIGGER != 0) <==> exists|i: int|
            0 <= i < lines.len() && #[trigger] lines[i].typ.bits & TYPE_TRIGGER != 0,
    decreases lines.len(),
{
    if lines.len() == 0 {
        assert(0u32 & TYPE_TRIGGER == 0) by (bit_vector);
    } else {
        let init = lines.drop_last();
        lemma_trigger_iff_some_line(init);
        let rest = sum_type_spec(init);
        let b = lines.last().typ.bits;
        assert((rest | b) & 0x79ff != 0 <==> (rest & 0x79ff != 0 || b & 0x79ff != 0)) by (bit_vector);
        assert(b & 0x7fff == 0 ==> b & 0x79ff == 0) by (bit_vector);
        assert forall|i: int| 0 <= i < init.len() implies #[trigger] init[i] == lines[i] by {}
        if b & TYPE_TRIGGER != 0 {
            assert(lines[lines.len() - 1].typ.bits & TYPE_TRIGGER != 0);
        }
        if exists|i: int| 0 <= i < lines.len() && #[trigger] lines[i].typ.bits & TYPE_TRIGGER != 0 {
            let i = choose|i: int| 0 <= i < lines.len() && #[trigger] lines[i].typ.bits & TYPE_TRIGGER != 0;
            if i < init.len() {
                assert(init[i].typ.bits & TYPE_TRIGGER != 0);
            }
        }
    }
}

} // verus!
