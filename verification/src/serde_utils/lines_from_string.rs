//! Lines stored as one newline-separated string.
use vstd::prelude::*;

use crate::text::{join_newline, join_newline_spec, lines, lines_spec, newline_sep, split_spec, strings_view, strip_cr};

verus! {

/// The lines of the stored string.
pub fn deserialize(s: &str) -> (res: Vec<String>)
    ensures
        strings_view(res@) == lines_spec(s@),
{
    lines(s)
}

/// The lines joined by newlines.
pub fn serialize(b: &Vec<String>) -> (res: String)
    ensures
        res@ == join_newline_spec(strings_view(b@)),
{
    join_newline(b)
}

/// Lines that survive a round trip: none holds a newline, none but the last ends with a
/// carriage return, and the last is not empty.
pub open spec fn storable_lines(v: Seq<Seq<char>>) -> bool {
    &&& forall|i: int, j: int| 0 <= i < v.len() && 0 <= j < v[i].len() ==> #[trigger] v[i][j] != '\n'
    &&& forall|i: int| 0 <= i < v.len() - 1 ==> strip_cr(#[trigger] v[i]) == v[i]
    &&& v.len() == 0 || v.last().len() > 0
}

proof fn lemma_split_no_newline(y: Seq<char>)
    requires
        forall|j: int| 0 <= j < y.len() ==> y[j] != '\n',
    ensures
        split_spec(y, newline_sep()) == seq![y],
    decreases y.len(),
{
    if y.len() == 0 {
        assert(y =~= Seq::<char>::empty());
    } else {
        lemma_split_no_newline(y.drop_last());
        assert(y.drop_last().push(y.last()) =~= y);
        assert(!newline_sep()(y.last()));
        assert(seq![y.drop_last()].update(0, y.drop_last().push(y.last())) =~= seq![y]);
    }
}

proof fn lemma_split_after_newline(x: Seq<char>, y: Seq<char>)
    requires
        forall|j: int| 0 <= j < y.len() ==> y[j] != '\n',
    ensures
        split_spec(x + seq!['\n'] + y, newline_sep()) == split_spec(x, newline_sep()).push(y),
    decreases y.len(),
{
    if y.len() == 0 {
        assert(y =~= Seq::<char>::empty());
        assert(x + seq!['\n'] + y =~= x.push('\n'));
        assert((x.push('\n')).drop_last() =~= x);
        assert(newline_sep()(x.push('\n').last()));
    } else {
        lemma_split_after_newline(x, y.drop_last());
        let whole = x + seq!['\n'] + y;
        assert(whole.drop_last() =~= x + seq!['\n'] + y.drop_last());
        assert(whole.last() == y.last());
        assert(!newline_sep()(y.last()));
        let rest = split_spec(x, newline_sep()).push(y.drop_last());
        assert(y.drop_last().push(y.last()) =~= y);
        assert(rest.last() == y.drop_last());
        assert(rest.update(rest.len() - 1, rest.last().push(y.last())) =~= split_spec(x, newline_sep()).push(y));
    }
}

proof fn lemma_split_join(v: Seq<Seq<char>>)
    requires
        v.len() > 0,
        forall|i: int, j: int| 0 <= i < v.len() && 0 <= j < v[i].len() ==> #[trigger] v[i][j] != '\n',
    ensures
        split_spec(join_newline_spec(v), newline_sep()) == v,
    decreases v.len(),
{
    if v.len() == 1 {
        assert(forall|j: int| 0 <= j < v[0].len() ==> v[0][j] != '\n');
        lemma_split_no_newline(v[0]);
        assert(seq![v[0]] =~= v);
    } else {
        let w = v.drop_last();
        assert forall|i: int, j: int| 0 <= i < w.len() && 0 <= j < w[i].len() implies #[trigger] w[i][j] != '\n' by {
            assert(w[i] == v[i]);
        }
        lemma_split_join(w);
        assert(forall|j: int| 0 <= j < v.last().len() ==> v.last()[j] != '\n') by {
            assert forall|j: int| 0 <= j < v.last().len() implies v.last()[j] != '\n' by {
                assert(v[v.len() - 1][j] != '\n');
            }
        }
        lemma_split_after_newline(join_newline_spec(w), v.last());
        assert(w.push(v.last()) =~= v);
    }
}

/// Storing lines in one string and reading them back gives the same lines, for lines that
/// [`storable_lines`] allows.
pub proof fn lemma_lines_round_trip(v: Seq<Seq<char>>)
    requires
        storable_lines(v),
    ensures
        lines_spec(join_newline_spec(v)) == v,
{
    if v.len() == 0 {
        assert(split_spec(Seq::<char>::empty(), newline_sep()) == seq![Seq::<char>::empty()]);
        assert(lines_spec(join_newline_spec(v)) =~= v);
    } else {
        lemma_split_join(v);
        assert(lines_spec(join_newline_spec(v)) =~= v);
    }
}

} // verus!
