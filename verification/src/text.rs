//! Character-level string helpers shared by the rest of the library.
//!
//! Strings are modelled by their views, `Seq<char>`; every helper here states
//! its result over that view.
use vstd::prelude::*;
use vstd::string::*;

verus! {

/// The Unicode `White_Space` property, as listed in PropList.txt; this is what
/// `char::is_whitespace` (and therefore `str::trim`) tests.
pub open spec fn is_unicode_whitespace(c: char) -> bool {
    ||| ('\u{9}' <= c && c <= '\u{d}')
    ||| c == ' '
    ||| c == '\u{85}'
    ||| c == '\u{a0}'
    ||| c == '\u{1680}'
    ||| ('\u{2000}' <= c && c <= '\u{200a}')
    ||| c == '\u{2028}'
    ||| c == '\u{2029}'
    ||| c == '\u{202f}'
    ||| c == '\u{205f}'
    ||| c == '\u{3000}'
}

/// Executable form of [`is_unicode_whitespace`].
pub fn is_whitespace_char(c: char) -> (res: bool)
    ensures
        res == is_unicode_whitespace(c),
{
    ('\u{9}' <= c && c <= '\u{d}') || c == ' ' || c == '\u{85}' || c == '\u{a0}' || c
        == '\u{1680}' || ('\u{2000}' <= c && c <= '\u{200a}') || c == '\u{2028}' || c
        == '\u{2029}' || c == '\u{202f}' || c == '\u{205f}' || c == '\u{3000}'
}

/// `s` without its leading whitespace.
pub open spec fn trim_start_spec(s: Seq<char>) -> Seq<char>
    decreases s.len(),
{
    if s.len() > 0 && is_unicode_whitespace(s[0]) {
        trim_start_spec(s.drop_first())
    } else {
        s
    }
}

/// `s` without its trailing whitespace.
pub open spec fn trim_end_spec(s: Seq<char>) -> Seq<char>
    decreases s.len(),
{
    if s.len() > 0 && is_unicode_whitespace(s.last()) {
        trim_end_spec(s.drop_last())
    } else {
        s
    }
}

/// What `str::trim` gives back: `s` without leading and trailing whitespace.
pub open spec fn trim_spec(s: Seq<char>) -> Seq<char> {
    trim_end_spec(trim_start_spec(s))
}

/// Collects the characters of a string slice in order.
pub fn chars_of(s: &str) -> (out: Vec<char>)
    ensures
        out@ == s@,
{
    let mut out: Vec<char> = Vec::new();
    for c in it: s.chars()
        invariant
            out@ == it.seq().take(it.index() as int),
    {
        out.push(c);
    }
    out
}

/// Appends one character to a string (`String::push`).
#[verifier::external_body]
pub(crate) fn push_char(s: &mut String, c: char)
    ensures
        final(s)@ == old(s)@.push(c),
{
    s.push(c);
}

/// Appends `v[from..to]` to `out`.
pub fn append_chars(out: &mut String, v: &Vec<char>, from: usize, to: usize)
    requires
        from <= to <= v@.len(),
    ensures
        final(out)@ == old(out)@ + v@.subrange(from as int, to as int),
{
    let mut i = from;
    while i < to
        invariant
            from <= i <= to <= v@.len(),
            out@ == old(out)@ + v@.subrange(from as int, i as int),
        decreases to - i,
    {
        push_char(out, v[i]);
        assert(v@.subrange(from as int, i + 1) =~= v@.subrange(from as int, i as int).push(v@[i as int]));
        i += 1;
    }
}

/// Builds a string out of `v[from..to]`.
pub fn string_from_chars(v: &Vec<char>, from: usize, to: usize) -> (res: String)
    requires
        from <= to <= v@.len(),
    ensures
        res@ == v@.subrange(from as int, to as int),
{
    let mut res = String::new();
    append_chars(&mut res, v, from, to);
    res
}

/// Concatenation of two string slices into a new string.
pub fn concat(a: &str, b: &str) -> (res: String)
    ensures
        res@ == a@ + b@,
{
    let mut res = a.to_owned();
    res.append(b);
    res
}

/// Index of the first non-whitespace character of `v` at or after `from`.
fn skip_leading_ws(v: &Vec<char>) -> (i: usize)
    ensures
        i <= v@.len(),
        v@.subrange(i as int, v@.len() as int) == trim_start_spec(v@),
{
    let mut i: usize = 0;
    assert(v@.subrange(0, v@.len() as int) =~= v@);
    while i < v.len() && is_whitespace_char(v[i])
        invariant
            i <= v@.len(),
            trim_start_spec(v@) == trim_start_spec(v@.subrange(i as int, v@.len() as int)),
        decreases v@.len() - i,
    {
        assert(v@.subrange(i as int, v@.len() as int).drop_first() =~= v@.subrange(
            i + 1,
            v@.len() as int,
        ));
        i += 1;
    }
    i
}

/// Trims whitespace from both ends of `v[from..]`, giving the bounds of what is left.
fn trim_bounds(v: &Vec<char>) -> (r: (usize, usize))
    ensures
        r.0 <= r.1 <= v@.len(),
        v@.subrange(r.0 as int, r.1 as int) == trim_spec(v@),
{
    let start = skip_leading_ws(v);
    let ghost t = v@.subrange(start as int, v@.len() as int);
    let mut end = v.len();
    assert(v@.subrange(start as int, end as int) =~= t);
    while end > start && is_whitespace_char(v[end - 1])
        invariant
            start <= end <= v@.len(),
            t == v@.subrange(start as int, v@.len() as int),
            trim_end_spec(t) == trim_end_spec(v@.subrange(start as int, end as int)),
        decreases end,
    {
        assert(v@.subrange(start as int, end as int).drop_last() =~= v@.subrange(
            start as int,
            end - 1,
        ));
        end -= 1;
    }
    (start, end)
}

/// `str::trim` followed by `to_owned`.
pub fn trim(s: &str) -> (res: String)
    ensures
        res@ == trim_spec(s@),
{
    let v = chars_of(s);
    let (a, b) = trim_bounds(&v);
    string_from_chars(&v, a, b)
}

/// Trims a character vector, giving the remaining characters.
pub fn trim_chars(v: &Vec<char>) -> (res: String)
    ensures
        res@ == trim_spec(v@),
{
    let (a, b) = trim_bounds(v);
    string_from_chars(v, a, b)
}

/// The decimal digit for `d < 10`.
pub open spec fn digit_char(d: nat) -> char {
    if d == 0 { '0' }
    else if d == 1 { '1' }
    else if d == 2 { '2' }
    else if d == 3 { '3' }
    else if d == 4 { '4' }
    else if d == 5 { '5' }
    else if d == 6 { '6' }
    else if d == 7 { '7' }
    else if d == 8 { '8' }
    else { '9' }
}

/// Decimal representation of a natural number, as `to_string` prints it.
pub open spec fn decimal_spec(n: nat) -> Seq<char>
    decreases n,
{
    if n < 10 {
        seq![digit_char(n)]
    } else {
        decimal_spec(n / 10).push(digit_char(n % 10))
    }
}

fn digit_exec(d: u64) -> (c: char)
    requires
        d < 10,
    ensures
        c == digit_char(d as nat),
{
    if d == 0 { '0' }
    else if d == 1 { '1' }
    else if d == 2 { '2' }
    else if d == 3 { '3' }
    else if d == 4 { '4' }
    else if d == 5 { '5' }
    else if d == 6 { '6' }
    else if d == 7 { '7' }
    else if d == 8 { '8' }
    else { '9' }
}

/// Appends the decimal representation of `n` to `out`.
pub fn append_decimal(out: &mut String, n: u64)
    ensures
        final(out)@ == old(out)@ + decimal_spec(n as nat),
    decreases n,
{
    if n < 10 {
        push_char(out, digit_exec(n));
        assert(old(out)@.push(digit_char(n as nat)) =~= old(out)@ + seq![digit_char(n as nat)]);
    } else {
        append_decimal(out, n / 10);
        push_char(out, digit_exec(n % 10));
        assert(old(out)@ + decimal_spec((n / 10) as nat) + seq![digit_char((n % 10) as nat)]
            =~= old(out)@ + decimal_spec(n as nat));
    }
}

/// `n.to_string()` for an unsigned integer.
pub fn u64_to_string(n: u64) -> (res: String)
    ensures
        res@ == decimal_spec(n as nat),
{
    let mut res = String::new();
    append_decimal(&mut res, n);
    res
}

/// How Telegram's HTML markup escapes one character.
pub open spec fn html_escape_char(c: char) -> Seq<char> {
    if c == '&' {
        seq!['&', 'a', 'm', 'p', ';']
    } else if c == '<' {
        seq!['&', 'l', 't', ';']
    } else if c == '>' {
        seq!['&', 'g', 't', ';']
    } else {
        seq![c]
    }
}

/// Escapes `&`, `<` and `>` for Telegram's HTML markup (teloxide's `html::escape`).
pub open spec fn html_escape_spec(s: Seq<char>) -> Seq<char>
    decreases s.len(),
{
    if s.len() == 0 {
        Seq::empty()
    } else {
        html_escape_spec(s.drop_last()) + html_escape_char(s.last())
    }
}

/// The characters that Telegram's MarkdownV2 markup needs escaped.
pub open spec fn is_markdown_special(c: char) -> bool {
    c == '\\' || c == '_' || c == '*' || c == '[' || c == ']' || c == '(' || c == ')' || c == '~'
        || c == '`' || c == '>' || c == '#' || c == '+' || c == '-' || c == '=' || c == '|' || c
        == '{' || c == '}' || c == '.' || c == '!'
}

/// Escapes every MarkdownV2 special character with a backslash (teloxide's `markdown::escape`).
pub open spec fn markdown_escape_spec(s: Seq<char>) -> Seq<char>
    decreases s.len(),
{
    if s.len() == 0 {
        Seq::empty()
    } else {
        markdown_escape_spec(s.drop_last()) + if is_markdown_special(s.last()) {
            seq!['\\', s.last()]
        } else {
            seq![s.last()]
        }
    }
}

proof fn lemma_take_push<A>(s: Seq<A>, i: int)
    requires
        0 <= i < s.len(),
    ensures
        s.take(i + 1).drop_last() == s.take(i),
        s.take(i + 1).last() == s[i],
{
    assert(s.take(i + 1).drop_last() =~= s.take(i));
}

/// Appends `html_escape_spec(v)` to `out`.
pub fn append_html_escaped(out: &mut String, v: &Vec<char>)
    ensures
        final(out)@ == old(out)@ + html_escape_spec(v@),
{
    let mut i: usize = 0;
    assert(v@.take(0) =~= Seq::<char>::empty());
    while i < v.len()
        invariant
            i <= v@.len(),
            out@ == old(out)@ + html_escape_spec(v@.take(i as int)),
        decreases v@.len() - i,
    {
        let c = v[i];
        proof {
            lemma_take_push(v@, i as int);
        }
        if c == '&' {
            push_char(out, '&');
            push_char(out, 'a');
            push_char(out, 'm');
            push_char(out, 'p');
            push_char(out, ';');
        } else if c == '<' {
            push_char(out, '&');
            push_char(out, 'l');
            push_char(out, 't');
            push_char(out, ';');
        } else if c == '>' {
            push_char(out, '&');
            push_char(out, 'g');
            push_char(out, 't');
            push_char(out, ';');
        } else {
            push_char(out, c);
        }
        assert(out@ =~= old(out)@ + html_escape_spec(v@.take(i + 1)));
        i += 1;
    }
    assert(v@.take(v@.len() as int) =~= v@);
}

/// teloxide's `html::escape`.
pub fn html_escape(s: &str) -> (res: String)
    ensures
        res@ == html_escape_spec(s@),
{
    let v = chars_of(s);
    let mut res = String::new();
    append_html_escaped(&mut res, &v);
    res
}

/// teloxide's `markdown::escape`.
pub fn markdown_escape(s: &str) -> (res: String)
    ensures
        res@ == markdown_escape_spec(s@),
{
    let v = chars_of(s);
    let mut res = String::new();
    let mut i: usize = 0;
    assert(v@.take(0) =~= Seq::<char>::empty());
    while i < v.len()
        invariant
            i <= v@.len(),
            v@ == s@,
            res@ == markdown_escape_spec(v@.take(i as int)),
        decreases v@.len() - i,
    {
        let c = v[i];
        proof {
            lemma_take_push(v@, i as int);
        }
        if c == '\\' || c == '_' || c == '*' || c == '[' || c == ']' || c == '(' || c == ')' || c
            == '~' || c == '`' || c == '>' || c == '#' || c == '+' || c == '-' || c == '=' || c
            == '|' || c == '{' || c == '}' || c == '.' || c == '!' {
            push_char(&mut res, '\\');
        }
        push_char(&mut res, c);
        assert(res@ =~= markdown_escape_spec(v@.take(i + 1)));
        i += 1;
    }
    assert(v@.take(v@.len() as int) =~= v@);
    res
}

/// teloxide's `html::link`: `<a href="{escaped url}">{escaped text}</a>`.
pub open spec fn html_link_spec(url: Seq<char>, text: Seq<char>) -> Seq<char> {
    seq!['<', 'a', ' ', 'h', 'r', 'e', 'f', '=', '"'] + html_escape_spec(url) + seq!['"', '>']
        + html_escape_spec(text) + seq!['<', '/', 'a', '>']
}

/// teloxide's `html::link`.
pub fn html_link(url: &str, text: &str) -> (res: String)
    ensures
        res@ == html_link_spec(url@, text@),
{
    let mut res = String::new();
    push_char(&mut res, '<');
    push_char(&mut res, 'a');
    push_char(&mut res, ' ');
    push_char(&mut res, 'h');
    push_char(&mut res, 'r');
    push_char(&mut res, 'e');
    push_char(&mut res, 'f');
    push_char(&mut res, '=');
    push_char(&mut res, '"');
    append_html_escaped(&mut res, &chars_of(url));
    push_char(&mut res, '"');
    push_char(&mut res, '>');
    append_html_escaped(&mut res, &chars_of(text));
    push_char(&mut res, '<');
    push_char(&mut res, '/');
    push_char(&mut res, 'a');
    push_char(&mut res, '>');
    assert(res@ =~= html_link_spec(url@, text@));
    res
}

/// The views of a sequence of strings.
pub open spec fn strings_view(v: Seq<String>) -> Seq<Seq<char>> {
    v.map_values(|s: String| s@)
}

/// A set of strings, each held once, kept in the order they were first added.
pub struct StringSet {
    items: Vec<String>,
}

impl View for StringSet {
    type V = Seq<Seq<char>>;

    closed spec fn view(&self) -> Seq<Seq<char>> {
        self.items@.map_values(|s: String| s@)
    }
}

impl StringSet {
    /// No string is held twice.
    #[verifier::type_invariant]
    spec fn held_once(self) -> bool {
        self.items@.map_values(|s: String| s@).no_duplicates()
    }

    /// The empty set.
    pub fn new() -> (res: Self)
        ensures
            res@ == Seq::<Seq<char>>::empty(),
    {
        let res = StringSet { items: Vec::new() };
        assert(res@ =~= Seq::<Seq<char>>::empty());
        res
    }

    /// Whether `name` is in the set.
    pub fn contains(&self, name: &str) -> (res: bool)
        ensures
            res == self@.contains(name@),
    {
        let target = name.to_owned();
        let mut i: usize = 0;
        while i < self.items.len()
            invariant
                i <= self.items@.len(),
                self@ == self.items@.map_values(|s: String| s@),
                target@ == name@,
                forall|k: int| 0 <= k < i ==> self.items@[k]@ != name@,
            decreases self.items@.len() - i,
        {
            assert(self@[i as int] == self.items@[i as int]@);
            if self.items[i] == target {
                return true;
            }
            i += 1;
        }
        proof {
            if self@.contains(name@) {
                let k = choose|k: int| 0 <= k < self@.len() && self@[k] == name@;
                assert(self@[k] == self.items@[k]@);
            }
        }
        false
    }

    /// How many strings the set holds.
    pub fn len(&self) -> (n: usize)
        ensures
            n == self@.len(),
    {
        self.items.len()
    }

    /// Whether the set is empty.
    pub fn is_empty(&self) -> (res: bool)
        ensures
            res == (self@.len() == 0),
    {
        self.items.len() == 0
    }

    /// The strings, in the order they were first added.
    pub fn to_vec(&self) -> (v: Vec<String>)
        ensures
            v@.map_values(|s: String| s@) == self@,
    {
        let mut v: Vec<String> = Vec::new();
        let mut i: usize = 0;
        while i < self.items.len()
            invariant
                i <= self.items@.len(),
                v@.len() == i,
                v@.map_values(|s: String| s@) == self@.take(i as int),
                self@ == self.items@.map_values(|s: String| s@),
            decreases self.items@.len() - i,
        {
            let s = self.items[i].as_str().to_owned();
            assert(self@[i as int] == self.items@[i as int]@);
            let ghost before = v@;
            v.push(s);
            assert(v@ == before.push(s));
            assert(v@.map_values(|s: String| s@) =~= self@.take(i + 1));
            i += 1;
        }
        assert(self@.take(i as int) =~= self@);
        v
    }

    /// Adds `name` unless it is already there.
    pub fn insert(&mut self, name: String)
        ensures
            final(self)@.no_duplicates(),
            final(self)@.to_set() == old(self)@.to_set().insert(name@),
            old(self)@.contains(name@) ==> final(self)@ == old(self)@,
            !old(self)@.contains(name@) ==> final(self)@ == old(self)@.push(name@),
    {
        proof {
            use_type_invariant(&*self);
        }
        if !self.contains(name.as_str()) {
            let mut items: Vec<String> = Vec::new();
            std::mem::swap(&mut items, &mut self.items);
            items.push(name);
            proof {
                assert(items@.map_values(|s: String| s@) =~= old(self)@.push(name@));
            }
            self.items = items;
            proof {
                assert(self@ =~= old(self)@.push(name@));
                assert(self@.to_set() =~= old(self)@.to_set().insert(name@)) by {
                    assert forall|x: Seq<char>|
                        self@.to_set().contains(x) <==> old(self)@.to_set().insert(name@).contains(
                            x,
                        ) by {
                        if x != name@ && self@.contains(x) {
                            let k = choose|k: int| 0 <= k < self@.len() && self@[k] == x;
                            assert(old(self)@[k] == x);
                        }
                        if old(self)@.contains(x) {
                            let k = choose|k: int| 0 <= k < old(self)@.len() && old(self)@[k] == x;
                            assert(self@[k] == x);
                        }
                        if x == name@ {
                            assert(self@[self@.len() - 1] == x);
                        }
                    }
                }
            }
        }
    }

    /// Adds every string of `other` that is not there yet.
    pub fn extend(&mut self, other: &StringSet)
        ensures
            final(self)@.no_duplicates(),
            final(self)@.to_set() == old(self)@.to_set() + other@.to_set(),
    {
        proof {
            use_type_invariant(&*self);
        }
        let items = other.to_vec();
        let mut i: usize = 0;
        while i < items.len()
            invariant
                i <= items@.len(),
                items@.map_values(|s: String| s@) == other@,
                self@.no_duplicates(),
                self@.to_set() == old(self)@.to_set() + other@.take(i as int).to_set(),
            decreases items@.len() - i,
        {
            let s = items[i].as_str().to_owned();
            assert(items@.map_values(|s: String| s@)[i as int] == items@[i as int]@);
            self.insert(s);
            assert(other@.take(i + 1) =~= other@.take(i as int).push(other@[i as int]));
            assert(other@.take(i + 1).to_set() =~= other@.take(i as int).to_set().insert(other@[i as int])) by {
                other@.take(i as int).lemma_push_to_set_commute(other@[i as int]);
            }
            assert(self@.to_set() =~= old(self)@.to_set() + other@.take(i + 1).to_set());
            i += 1;
        }
        assert(other@.take(i as int) =~= other@);
    }
}

/// What `str::to_lowercase` gives back: the string with each character replaced by its
/// lowercase mapping under Unicode's rules.
pub uninterp spec fn lowercase_spec(s: Seq<char>) -> Seq<char>;

/// `str::to_lowercase`.
#[verifier::external_body]
pub(crate) fn to_lowercase(s: &str) -> (res: String)
    ensures
        res@ == lowercase_spec(s@),
{
    s.to_lowercase()
}

/// Splits `s` at every character that `sep` holds of, as `str::split` with a character
/// predicate does: `k` separators give `k + 1` pieces, some of them possibly empty.
pub open spec fn split_spec(s: Seq<char>, sep: spec_fn(char) -> bool) -> Seq<Seq<char>>
    decreases s.len(),
{
    if s.len() == 0 {
        seq![Seq::empty()]
    } else {
        let rest = split_spec(s.drop_last(), sep);
        if sep(s.last()) {
            rest.push(Seq::empty())
        } else {
            rest.update(rest.len() - 1, rest.last().push(s.last()))
        }
    }
}

/// Splitting always gives at least one piece.
pub proof fn lemma_split_nonempty(s: Seq<char>, sep: spec_fn(char) -> bool)
    ensures
        split_spec(s, sep).len() >= 1,
    decreases s.len(),
{
    if s.len() > 0 {
        lemma_split_nonempty(s.drop_last(), sep);
    }
}

/// `str::replace` with a non-empty literal pattern: scanning from the left, every
/// occurrence of `pat` that does not overlap an earlier replaced one becomes `rep`.
pub open spec fn replace_spec(s: Seq<char>, pat: Seq<char>, rep: Seq<char>) -> Seq<char>
    decreases s.len(),
{
    if pat.len() == 0 || s.len() < pat.len() {
        s
    } else if s.take(pat.len() as int) == pat {
        rep + replace_spec(s.skip(pat.len() as int), pat, rep)
    } else {
        seq![s[0]] + replace_spec(s.drop_first(), pat, rep)
    }
}

fn matches_at(v: &Vec<char>, i: usize, pat: &Vec<char>) -> (res: bool)
    requires
        i + pat@.len() <= v@.len(),
    ensures
        res == (v@.subrange(i as int, i + pat@.len()) == pat@),
{
    let n = v.len();
    let mut k: usize = 0;
    while k < pat.len()
        invariant
            k <= pat@.len(),
            i + pat@.len() <= v@.len(),
            n == v@.len(),
            forall|j: int| 0 <= j < k ==> v@[i + j] == pat@[j],
        decreases pat@.len() - k,
    {
        if v[i + k] != pat[k] {
            assert(v@.subrange(i as int, i + pat@.len())[k as int] != pat@[k as int]);
            return false;
        }
        k += 1;
    }
    assert(v@.subrange(i as int, i + pat@.len()) =~= pat@);
    true
}

/// `str::replace` of a literal pattern by a literal replacement.
pub fn replace_str(s: &str, pat: &str, rep: &str) -> (res: String)
    ensures
        res@ == replace_spec(s@, pat@, rep@),
{
    let v = chars_of(s);
    let p = chars_of(pat);
    if p.len() == 0 {
        return s.to_owned();
    }
    let mut out = String::new();
    let mut i: usize = 0;
    assert(v@.skip(0) =~= v@);
    while i < v.len()
        invariant
            i <= v@.len(),
            v@ == s@,
            p@ == pat@,
            p@.len() > 0,
            replace_spec(s@, pat@, rep@) == out@ + replace_spec(v@.skip(i as int), pat@, rep@),
        decreases v@.len() - i,
    {
        let ghost rest = v@.skip(i as int);
        if v.len() - i >= p.len() && matches_at(&v, i, &p) {
            assert(rest.take(p@.len() as int) =~= v@.subrange(i as int, i + p@.len()));
            assert(rest.skip(p@.len() as int) =~= v@.skip(i + p@.len()));
            out.append(rep);
            assert(out@ + replace_spec(v@.skip(i + p@.len()), pat@, rep@) =~= replace_spec(s@, pat@, rep@));
            i = i + p.len();
        } else {
            if v.len() - i >= p.len() {
                assert(rest.take(p@.len() as int) =~= v@.subrange(i as int, i + p@.len()));
            }
            assert(rest.drop_first() =~= v@.skip(i + 1));
            assert(rest[0] == v@[i as int]);
            push_char(&mut out, v[i]);
            assert(out@ + replace_spec(v@.skip(i + 1), pat@, rep@) =~= replace_spec(s@, pat@, rep@));
            i = i + 1;
        }
    }
    assert(v@.skip(i as int) =~= Seq::<char>::empty());
    assert(out@ + Seq::<char>::empty() =~= out@);
    out
}

/// `needle` occurs in `hay`.
pub open spec fn contains_sub(hay: Seq<char>, needle: Seq<char>) -> bool {
    exists|i: int| 0 <= i && i + needle.len() <= hay.len() && #[trigger] hay.subrange(i, i + needle.len()) == needle
}

/// `str::contains` with a literal pattern.
pub fn str_contains(hay: &str, needle: &str) -> (res: bool)
    ensures
        res == contains_sub(hay@, needle@),
{
    let v = chars_of(hay);
    let p = chars_of(needle);
    let mut i: usize = 0;
    while i < v.len() && v.len() - i >= p.len()
        invariant
            i <= v@.len(),
            v@ == hay@,
            p@ == needle@,
            forall|j: int| 0 <= j < i && j + p@.len() <= v@.len() ==> #[trigger] v@.subrange(j, j + p@.len()) != p@,
        decreases v@.len() - i,
    {
        if matches_at(&v, i, &p) {
            return true;
        }
        i += 1;
    }
    if i == v.len() && p.len() == 0 {
        assert(v@.subrange(i as int, i + p@.len()) =~= p@);
        return true;
    }
    false
}

/// `s` without one trailing carriage return.
pub open spec fn strip_cr(s: Seq<char>) -> Seq<char> {
    if s.len() > 0 && s.last() == '\r' { s.drop_last() } else { s }
}

/// The newline as a separator predicate.
pub open spec fn newline_sep() -> spec_fn(char) -> bool {
    |c: char| c == '\n'
}

/// What `str::lines` gives back: the pieces between newlines, a carriage return before a
/// newline dropped, and no piece after a final newline (so the empty string has no line).
pub open spec fn lines_spec(s: Seq<char>) -> Seq<Seq<char>> {
    let p = split_spec(s, newline_sep());
    let n = p.len() as int;
    Seq::new(
        if p[n - 1].len() == 0 { (n - 1) as nat } else { n as nat },
        |i: int| if i < n - 1 { strip_cr(p[i]) } else { p[i] },
    )
}

/// The pieces of `v` between the given bounds.
pub open spec fn pieces_view(v: Seq<char>, ps: Seq<(usize, usize)>) -> Seq<Seq<char>> {
    Seq::new(ps.len(), |k: int| v.subrange(ps[k].0 as int, ps[k].1 as int))
}

/// `str::lines`, collected.
pub fn lines(s: &str) -> (res: Vec<String>)
    ensures
        strings_view(res@) == lines_spec(s@),
{
    let v = chars_of(s);
    let mut pieces: Vec<(usize, usize)> = Vec::new();
    let mut start: usize = 0;
    let mut i: usize = 0;
    assert(v@.take(0) =~= Seq::<char>::empty());
    assert(pieces_view(v@, pieces@) =~= Seq::<Seq<char>>::empty());
    while i < v.len()
        invariant
            start <= i <= v@.len(),
            v@ == s@,
            forall|k: int| 0 <= k < pieces@.len() ==> #[trigger] pieces@[k].0 <= pieces@[k].1 <= v@.len(),
            split_spec(v@.take(i as int), newline_sep()) == pieces_view(v@, pieces@).push(
                v@.subrange(start as int, i as int),
            ),
        decreases v@.len() - i,
    {
        let ghost prev = pieces_view(v@, pieces@);
        assert(v@.take(i + 1).drop_last() =~= v@.take(i as int));
        assert(v@.take(i + 1).last() == v@[i as int]);
        if v[i] == '\n' {
            let ghost before = pieces@;
            pieces.push((start, i));
            assert(pieces@ == before.push((start, i)));
            assert forall|k: int| 0 <= k < pieces@.len() implies #[trigger] pieces@[k].0 <= pieces@[k].1
                <= v@.len() by {
                if k < before.len() {
                    assert(pieces@[k] == before[k]);
                }
            }
            assert(pieces_view(v@, pieces@) =~= prev.push(v@.subrange(start as int, i as int)));
            start = i + 1;
            assert(v@.subrange(start as int, i + 1) =~= Seq::<char>::empty());
        } else {
            assert(v@.subrange(start as int, i + 1) =~= v@.subrange(start as int, i as int).push(v@[i as int]));
            let ghost sp = split_spec(v@.take(i as int), newline_sep());
            assert(sp.len() == prev.len() + 1);
            assert(sp.update(sp.len() - 1, sp.last().push(v@[i as int])) =~= prev.push(v@.subrange(start as int, i + 1)));
        }
        i += 1;
    }
    assert(v@.take(i as int) =~= v@);
    let ghost p = split_spec(s@, newline_sep());
    let ghost n = p.len() as int;
    assert(n == pieces@.len() + 1);
    assert(p[n - 1] == v@.subrange(start as int, v@.len() as int));
    let mut res: Vec<String> = Vec::new();
    let mut k: usize = 0;
    while k < pieces.len()
        invariant
            k <= pieces@.len(),
            n == pieces@.len() + 1,
            v@ == s@,
            p == split_spec(s@, newline_sep()),
            forall|j: int| 0 <= j < pieces@.len() ==> #[trigger] pieces@[j].0 <= pieces@[j].1 <= v@.len(),
            forall|j: int| 0 <= j < pieces@.len() ==> p[j] == #[trigger] pieces_view(v@, pieces@)[j],
            strings_view(res@) == Seq::new(k as nat, |j: int| strip_cr(p[j])),
            start <= v@.len(),
            p[n - 1] == v@.subrange(start as int, v@.len() as int),
        decreases pieces@.len() - k,
    {
        let (a, b) = pieces[k];
        let ghost piece = v@.subrange(a as int, b as int);
        assert(pieces_view(v@, pieces@)[k as int] == piece);
        let end = if b > a && v[b - 1] == '\r' { b - 1 } else { b };
        let line = string_from_chars(&v, a, end);
        assert(line@ =~= strip_cr(piece));
        assert(p[k as int] == piece);
        let ghost before = strings_view(res@);
        let ghost lv = line@;
        res.push(line);
        assert(strings_view(res@) =~= before.push(lv));
        assert(strings_view(res@) =~= Seq::new((k + 1) as nat, |j: int| strip_cr(p[j])));
        k += 1;
    }
    if start < v.len() {
        let last = string_from_chars(&v, start, v.len());
        let ghost before = strings_view(res@);
        let ghost lv = last@;
        res.push(last);
        assert(strings_view(res@) =~= before.push(lv));
    }
    assert(strings_view(res@) =~= lines_spec(s@));
    res
}

/// `parts.join("\n")`.
pub open spec fn join_newline_spec(parts: Seq<Seq<char>>) -> Seq<char>
    decreases parts.len(),
{
    if parts.len() == 0 {
        Seq::empty()
    } else if parts.len() == 1 {
        parts[0]
    } else {
        join_newline_spec(parts.drop_last()) + seq!['\n'] + parts.last()
    }
}

/// `parts.join("\n")`.
pub fn join_newline(parts: &Vec<String>) -> (res: String)
    ensures
        res@ == join_newline_spec(strings_view(parts@)),
{
    let ghost ps = strings_view(parts@);
    let mut res = String::new();
    let mut i: usize = 0;
    assert(ps.take(0) =~= Seq::<Seq<char>>::empty());
    while i < parts.len()
        invariant
            i <= parts@.len(),
            ps == strings_view(parts@),
            res@ == join_newline_spec(ps.take(i as int)),
        decreases parts@.len() - i,
    {
        assert(ps.take(i + 1).drop_last() =~= ps.take(i as int));
        assert(ps.take(i + 1).last() == parts@[i as int]@);
        if i > 0 {
            push_char(&mut res, '\n');
        }
        res.append(parts[i].as_str());
        assert(res@ =~= join_newline_spec(ps.take(i + 1)));
        i += 1;
    }
    assert(ps.take(i as int) =~= ps);
    res
}

/// `a == b` on string slices.
pub fn str_eq(a: &str, b: &str) -> (res: bool)
    ensures
        res == (a@ == b@),
{
    a.to_owned() == b.to_owned()
}



} // verus!
