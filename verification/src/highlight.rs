//! Taking the spoiler marks out of a highlighted line gives the line back, and
//! there is one pair of marks per run of censored characters.
use vstd::prelude::*;

use crate::profanity::{close_mark, highlight_piece, highlight_spec, highlight_upto, open_mark};

verus! {

/// Whether `s` begins with `p`.
pub open spec fn starts_with(s: Seq<char>, p: Seq<char>) -> bool {
    p.len() <= s.len() && s.take(p.len() as int) == p
}

/// Whether `p` occurs somewhere in `s`.
pub open spec fn contains_seq(s: Seq<char>, p: Seq<char>) -> bool {
    exists|k: int| 0 <= k && k + p.len() <= s.len() && #[trigger] s.subrange(k, k + p.len()) == p
}

/// `s` with every opening and closing mark deleted, scanning from the left, and how many
/// opening and closing marks were deleted.
pub open spec fn strip_marks(s: Seq<char>) -> (Seq<char>, nat, nat)
    decreases s.len(),
{
    if s.len() == 0 {
        (Seq::empty(), 0, 0)
    } else if starts_with(s, open_mark()) && s.len() >= 15 {
        let r = strip_marks(s.skip(15));
        (r.0, r.1 + 1, r.2)
    } else if starts_with(s, close_mark()) && s.len() >= 17 {
        let r = strip_marks(s.skip(17));
        (r.0, r.1, r.2 + 1)
    } else {
        let r = strip_marks(s.skip(1));
        (seq![s[0]] + r.0, r.1, r.2)
    }
}

/// How many runs of censored positions begin in `i..n`: a position is censored and the one
/// before it is not.
pub open spec fn run_starts(bad: Seq<usize>, i: int, n: int) -> nat
    decreases n - i,
{
    if i < 0 || i >= n {
        0
    } else {
        (if bad.contains(i as usize) && !(i != 0 && bad.contains((i - 1) as usize)) {
            1nat
        } else {
            0nat
        }) + run_starts(bad, i + 1, n)
    }
}

/// How many runs of censored positions end in `i..n`: a position is censored and the one
/// after it is not.
pub open spec fn run_ends(bad: Seq<usize>, i: int, n: int) -> nat
    decreases n - i,
{
    if i < 0 || i >= n {
        0
    } else {
        (if bad.contains(i as usize) && !bad.contains((i + 1) as usize) {
            1nat
        } else {
            0nat
        }) + run_ends(bad, i + 1, n)
    }
}

/// The highlighted line from position `i` on, built from the left.
spec fn highlight_from(line: Seq<char>, bad: Seq<usize>, i: int) -> Seq<char>
    decreases line.len() - i,
{
    if i < 0 || i >= line.len() {
        Seq::empty()
    } else {
        highlight_piece(
            line[i],
            i != 0 && bad.contains((i - 1) as usize),
            bad.contains(i as usize),
            bad.contains((i + 1) as usize),
        ) + highlight_from(line, bad, i + 1)
    }
}

proof fn lemma_marks_spelled()
    ensures
        open_mark() == seq!['<', 't', 'g', '-', 's', 'p', 'o', 'i', 'l', 'e', 'r', '>', '<', 'u', '>'],
        close_mark() == seq![
            '<', '/', 'u', '>', '<', '/', 't', 'g', '-', 's', 'p', 'o', 'i', 'l', 'e', 'r', '>',
        ],
{
    reveal_strlit("<tg-spoiler><u>");
    reveal_strlit("</u></tg-spoiler>");
    assert(open_mark() =~= seq!['<', 't', 'g', '-', 's', 'p', 'o', 'i', 'l', 'e', 'r', '>', '<', 'u', '>']);
    assert(close_mark() =~= seq![
        '<', '/', 'u', '>', '<', '/', 't', 'g', '-', 's', 'p', 'o', 'i', 'l', 'e', 'r', '>',
    ]);
}

/// The line highlighted up to `n`, then from `n` on, is the whole line highlighted from 0.
proof fn lemma_upto_from(line: Seq<char>, bad: Seq<usize>, n: int)
    requires
        0 <= n <= line.len(),
    ensures
        highlight_upto(line, bad, n) + highlight_from(line, bad, n) == highlight_from(line, bad, 0),
    decreases n,
{
    if n > 0 {
        lemma_upto_from(line, bad, n - 1);
        let p = highlight_piece(
            line[n - 1],
            n - 1 != 0 && bad.contains((n - 2) as usize),
            bad.contains((n - 1) as usize),
            bad.contains(n as usize),
        );
        assert(highlight_from(line, bad, n - 1) == p + highlight_from(line, bad, n));
        assert(highlight_upto(line, bad, n) == highlight_upto(line, bad, n - 1) + p);
        assert(highlight_upto(line, bad, n) + highlight_from(line, bad, n) =~= highlight_upto(
            line,
            bad,
            n - 1,
        ) + highlight_from(line, bad, n - 1));
    } else {
        assert(highlight_upto(line, bad, 0) + highlight_from(line, bad, 0) =~= highlight_from(
            line,
            bad,
            0,
        ));
    }
}

/// Whether `t` has no `'<'`, the first character of both marks.
spec fn no_angle(t: Seq<char>) -> bool {
    forall|k: int| 0 <= k < t.len() ==> t[k] != '<'
}

/// A stretch of the highlighted line without `'<'` is made of line characters, and after it
/// comes the rest of the line highlighted, maybe behind a closing mark.
proof fn lemma_plain_stretch(line: Seq<char>, bad: Seq<usize>, j: int, t: Seq<char>)
    requires
        0 <= j <= line.len(),
        no_angle(t),
        starts_with(highlight_from(line, bad, j), t),
    ensures
        j + t.len() <= line.len(),
        line.subrange(j, j + t.len()) == t,
        highlight_from(line, bad, j).skip(t.len() as int) == highlight_from(line, bad, j + t.len())
            || highlight_from(line, bad, j).skip(t.len() as int) == close_mark() + highlight_from(
            line,
            bad,
            j + t.len(),
        ),
    decreases t.len(),
{
    lemma_marks_spelled();
    let h = highlight_from(line, bad, j);
    if t.len() == 0 {
        assert(line.subrange(j, j) =~= t);
        assert(h.skip(0) =~= h);
    } else {
        assert(j < line.len());
        let prev = j != 0 && bad.contains((j - 1) as usize);
        let cur = bad.contains(j as usize);
        let next = bad.contains((j + 1) as usize);
        let c = line[j];
        let rest = highlight_from(line, bad, j + 1);
        assert(h == highlight_piece(c, prev, cur, next) + rest);
        assert(t[0] == h.take(t.len() as int)[0]);
        if !prev && cur {
            assert(h[0] == '<');
            assert(false);
        } else if prev && cur && !next {
            assert(h =~= seq![c] + (close_mark() + rest));
            assert(t[0] == c);
            if t.len() >= 2 {
                assert(t[1] == h.take(t.len() as int)[1]);
                assert(h[1] == '<');
                assert(false);
            }
            assert(line.subrange(j, j + 1) =~= t);
            assert(h.skip(1) =~= close_mark() + rest);
        } else {
            assert(h =~= seq![c] + rest);
            assert(t[0] == c);
            let t2 = t.skip(1);
            assert(starts_with(rest, t2)) by {
                assert(rest.take(t2.len() as int) =~= h.take(t.len() as int).skip(1));
            }
            lemma_plain_stretch(line, bad, j + 1, t2);
            assert(line.subrange(j, j + t.len()) =~= seq![c] + line.subrange(j + 1, j + 1 + t2.len()));
            assert(t =~= seq![c] + t2);
            assert(h.skip(t.len() as int) =~= rest.skip(t2.len() as int));
        }
    }
}

/// The characters that follow a highlighted run or a plain character: a closing mark when
/// the run ends there, then the rest of the line highlighted.
spec fn after_char(line: Seq<char>, bad: Seq<usize>, i: int, with_close: bool) -> Seq<char> {
    (if with_close {
        close_mark()
    } else {
        Seq::empty()
    }) + highlight_from(line, bad, i + 1)
}

/// Where the line holds no mark, no mark begins at a line character of the highlighted line.
proof fn lemma_no_false_mark(line: Seq<char>, bad: Seq<usize>, i: int, with_close: bool)
    requires
        0 <= i < line.len(),
        !contains_seq(line, open_mark()),
        !contains_seq(line, close_mark()),
    ensures
        !starts_with(seq![line[i]] + after_char(line, bad, i, with_close), open_mark()),
        !starts_with(seq![line[i]] + after_char(line, bad, i, with_close), close_mark()),
{
    lemma_marks_spelled();
    let rest = after_char(line, bad, i, with_close);
    let s = seq![line[i]] + rest;
    if starts_with(s, open_mark()) {
        assert(s.take(15)[0] == s[0]);
        assert(s[0] == '<');
        assert(s.take(15)[1] == s[1]);
        if with_close {
            assert(s[1] == '<');
            assert(false);
        }
        assert(rest =~= highlight_from(line, bad, i + 1));
        let t1 = seq!['t', 'g', '-', 's', 'p', 'o', 'i', 'l', 'e', 'r', '>'];
        assert(starts_with(rest, t1)) by {
            assert(s.take(15) == open_mark());
            assert(rest.len() >= 14);
            assert(rest.take(11) =~= s.take(15).subrange(1, 12));
            assert(s.take(15).subrange(1, 12) =~= t1);
        }
        lemma_plain_stretch(line, bad, i + 1, t1);
        let h = highlight_from(line, bad, i + 12);
        let r2 = rest.skip(11);
        assert(r2.take(3) =~= s.take(15).subrange(12, 15));
        assert(r2[0] == '<' && r2[1] == 'u' && r2[2] == '>') by {
            assert(r2.take(3)[0] == r2[0]);
            assert(r2.take(3)[1] == r2[1]);
            assert(r2.take(3)[2] == r2[2]);
        }
        if r2 == close_mark() + h {
            assert(r2[1] == '/');
            assert(false);
        }
        assert(r2 == h);
        assert(i + 12 < line.len());
        let j = i + 12;
        let prev = j != 0 && bad.contains((j - 1) as usize);
        let cur = bad.contains(j as usize);
        let next = bad.contains((j + 1) as usize);
        let c = line[j];
        let h2 = highlight_from(line, bad, j + 1);
        assert(h == highlight_piece(c, prev, cur, next) + h2);
        if !prev && cur {
            assert(h[1] == 't');
            assert(false);
        }
        assert(h[0] == c);
        if prev && cur && !next {
            assert(h[1] == '<');
            assert(false);
        }
        assert(h =~= seq![c] + h2);
        let t2 = seq!['u', '>'];
        assert(starts_with(h2, t2)) by {
            assert(r2.take(3) =~= open_mark().subrange(12, 15));
            assert(h2.len() >= 2);
            assert(h2.take(2) =~= r2.take(3).subrange(1, 3));
            assert(r2.take(3).subrange(1, 3) =~= t2);
        }
        lemma_plain_stretch(line, bad, j + 1, t2);
        assert(line.subrange(i, i + 15) =~= open_mark()) by {
            assert(line.subrange(i + 1, i + 12) == t1);
            assert(line.subrange(i + 13, i + 15) == t2);
            assert(line[i] == '<');
            assert(line[i + 12] == '<');
            assert forall|k: int| 0 <= k < 15 implies #[trigger] line.subrange(i, i + 15)[k] == open_mark()[k] by {
                if 1 <= k < 12 {
                    assert(line.subrange(i + 1, i + 12)[k - 1] == t1[k - 1]);
                } else if 13 <= k < 15 {
                    assert(line.subrange(i + 13, i + 15)[k - 13] == t2[k - 13]);
                }
            }
        }
        assert(line.subrange(i, i + open_mark().len()) == open_mark());
        assert(false);
    }
    if starts_with(s, close_mark()) {
        assert(s.take(17)[0] == s[0]);
        assert(s[0] == '<');
        assert(s.take(17)[1] == s[1]);
        if with_close {
            assert(s[1] == '<');
            assert(false);
        }
        assert(rest =~= highlight_from(line, bad, i + 1));
        let t1 = seq!['/', 'u', '>'];
        assert(starts_with(rest, t1)) by {
            assert(s.take(17) == close_mark());
            assert(rest.len() >= 16);
            assert(rest.take(3) =~= s.take(17).subrange(1, 4));
            assert(s.take(17).subrange(1, 4) =~= t1);
        }
        lemma_plain_stretch(line, bad, i + 1, t1);
        let h = highlight_from(line, bad, i + 4);
        let r2 = rest.skip(3);
        assert(r2.take(13) =~= s.take(17).subrange(4, 17));
        assert(r2[0] == '<' && r2[1] == '/' && r2[2] == 't') by {
            assert(r2.take(13)[0] == r2[0]);
            assert(r2.take(13)[1] == r2[1]);
            assert(r2.take(13)[2] == r2[2]);
        }
        if r2 == close_mark() + h {
            assert(r2[2] == 'u');
            assert(false);
        }
        assert(r2 == h);
        assert(i + 4 < line.len());
        let j = i + 4;
        let prev = j != 0 && bad.contains((j - 1) as usize);
        let cur = bad.contains(j as usize);
        let next = bad.contains((j + 1) as usize);
        let c = line[j];
        let h2 = highlight_from(line, bad, j + 1);
        assert(h == highlight_piece(c, prev, cur, next) + h2);
        if !prev && cur {
            assert(h[1] == 't');
            assert(false);
        }
        assert(h[0] == c);
        if prev && cur && !next {
            assert(h[1] == '<');
            assert(false);
        }
        assert(h =~= seq![c] + h2);
        let t2 = seq!['/', 't', 'g', '-', 's', 'p', 'o', 'i', 'l', 'e', 'r', '>'];
        assert(starts_with(h2, t2)) by {
            assert(r2.take(13) =~= close_mark().subrange(4, 17));
            assert(h2.len() >= 12);
            assert(h2.take(12) =~= r2.take(13).subrange(1, 13));
            assert(r2.take(13).subrange(1, 13) =~= t2);
        }
        lemma_plain_stretch(line, bad, j + 1, t2);
        assert(line.subrange(i, i + 17) =~= close_mark()) by {
            assert(line.subrange(i + 1, i + 4) == t1);
            assert(line.subrange(i + 5, i + 17) == t2);
            assert(line[i] == '<');
            assert(line[i + 4] == '<');
            assert forall|k: int| 0 <= k < 17 implies #[trigger] line.subrange(i, i + 17)[k] == close_mark()[k] by {
                if 1 <= k < 4 {
                    assert(line.subrange(i + 1, i + 4)[k - 1] == t1[k - 1]);
                } else if 5 <= k < 17 {
                    assert(line.subrange(i + 5, i + 17)[k - 5] == t2[k - 5]);
                }
            }
        }
        assert(line.subrange(i, i + close_mark().len()) == close_mark());
        assert(false);
    }
}

proof fn lemma_strip_open(y: Seq<char>)
    ensures
        strip_marks(open_mark() + y) == (strip_marks(y).0, strip_marks(y).1 + 1, strip_marks(y).2),
{
    lemma_marks_spelled();
    let s = open_mark() + y;
    assert(s.take(15) =~= open_mark());
    assert(s.skip(15) =~= y);
}

proof fn lemma_strip_close(y: Seq<char>)
    ensures
        strip_marks(close_mark() + y) == (strip_marks(y).0, strip_marks(y).1, strip_marks(y).2 + 1),
{
    lemma_marks_spelled();
    let s = close_mark() + y;
    assert(s.take(17) =~= close_mark());
    assert(!starts_with(s, open_mark())) by {
        if starts_with(s, open_mark()) {
            assert(s.take(15)[1] == s[1]);
        }
    }
    assert(s.skip(17) =~= y);
}

proof fn lemma_strip_plain(c: char, x: Seq<char>)
    requires
        !starts_with(seq![c] + x, open_mark()),
        !starts_with(seq![c] + x, close_mark()),
    ensures
        strip_marks(seq![c] + x) == (seq![c] + strip_marks(x).0, strip_marks(x).1, strip_marks(x).2),
{
    assert((seq![c] + x).skip(1) =~= x);
}

/// Stripping the marks from the line highlighted from `i` on gives the rest of the line,
/// with one opening mark per run beginning there and one closing mark per run ending there.
proof fn lemma_strip_from(line: Seq<char>, bad: Seq<usize>, i: int)
    requires
        0 <= i <= line.len(),
        !contains_seq(line, open_mark()),
        !contains_seq(line, close_mark()),
    ensures
        strip_marks(highlight_from(line, bad, i)) == (
            line.skip(i),
            run_starts(bad, i, line.len() as int),
            run_ends(bad, i, line.len() as int),
        ),
    decreases line.len() - i,
{
    if i == line.len() {
        assert(line.skip(i) =~= Seq::<char>::empty());
    } else {
        lemma_strip_from(line, bad, i + 1);
        let prev = i != 0 && bad.contains((i - 1) as usize);
        let cur = bad.contains(i as usize);
        let next = bad.contains((i + 1) as usize);
        let c = line[i];
        let r = highlight_from(line, bad, i + 1);
        let h = highlight_from(line, bad, i);
        assert(h == highlight_piece(c, prev, cur, next) + r);
        assert(line.skip(i) =~= seq![c] + line.skip(i + 1));
        let sr = strip_marks(r);
        if cur && !next {
            let a = after_char(line, bad, i, true);
            assert(a =~= close_mark() + r);
            lemma_no_false_mark(line, bad, i, true);
            lemma_strip_plain(c, a);
            lemma_strip_close(r);
            if !prev {
                assert(h =~= open_mark() + (seq![c] + a));
                lemma_strip_open(seq![c] + a);
            } else {
                assert(h =~= seq![c] + a);
            }
        } else {
            let a = after_char(line, bad, i, false);
            assert(a =~= r);
            lemma_no_false_mark(line, bad, i, false);
            lemma_strip_plain(c, a);
            if !prev && cur {
                assert(h =~= open_mark() + (seq![c] + a));
                lemma_strip_open(seq![c] + a);
            } else {
                assert(h =~= seq![c] + a);
            }
        }
    }
}

/// When no position at or beyond `n` is censored, every run that ends in `i..n` begins there,
/// except one already under way at `i`.
proof fn lemma_runs_balance(bad: Seq<usize>, i: int, n: int)
    requires
        0 <= i <= n < usize::MAX,
        forall|k: int| 0 <= k < bad.len() ==> bad[k] < n,
    ensures
        run_ends(bad, i, n) == run_starts(bad, i, n) + (if i != 0 && bad.contains((i - 1) as usize)
            && bad.contains(i as usize) {
            1nat
        } else {
            0nat
        }),
    decreases n - i,
{
    if i == n {
        if bad.contains(n as usize) {
            let k = choose|k: int| 0 <= k < bad.len() && bad[k] == n as usize;
            assert(bad[k] < n);
        }
    } else {
        lemma_runs_balance(bad, i + 1, n);
        assert((i + 1 - 1) as usize == i as usize);
    }
}

/// Taking every opening and closing mark out of a highlighted line gives the line back,
/// provided the line holds no mark itself; one opening mark stands for each run of censored
/// positions and one closing mark for each run that ends within the line, and when every
/// censored position lies within the line the two counts agree.
pub proof fn lemma_highlight_round_trip(line: Seq<char>, bad: Seq<usize>)
    requires
        !contains_seq(line, open_mark()),
        !contains_seq(line, close_mark()),
    ensures
        strip_marks(highlight_spec(line, bad)) == (
            line,
            run_starts(bad, 0, line.len() as int),
            run_ends(bad, 0, line.len() as int),
        ),
        line.len() < usize::MAX && (forall|k: int| 0 <= k < bad.len() ==> bad[k] < line.len())
            ==> run_ends(bad, 0, line.len() as int) == run_starts(bad, 0, line.len() as int),
{
    lemma_upto_from(line, bad, line.len() as int);
    assert(highlight_from(line, bad, line.len() as int) =~= Seq::<char>::empty());
    assert(highlight_spec(line, bad) =~= highlight_from(line, bad, 0));
    lemma_strip_from(line, bad, 0);
    assert(line.skip(0) =~= line);
    if line.len() < usize::MAX && (forall|k: int| 0 <= k < bad.len() ==> bad[k] < line.len()) {
        lemma_runs_balance(bad, 0, line.len() as int);
    }
}

} // verus!
