//! Small formatting helpers: joining with a separator, zero-padded numbers,
//! and key/value pairs for query strings.
use vstd::prelude::*;
use crate::text::{decimal_spec, strings_view, u64_to_string};

verus! {

/// `parts.join(sep)`.
pub open spec fn join_with_spec(parts: Seq<Seq<char>>, sep: Seq<char>) -> Seq<char>
    decreases parts.len(),
{
    if parts.len() == 0 {
        Seq::empty()
    } else if parts.len() == 1 {
        parts[0]
    } else {
        join_with_spec(parts.drop_last(), sep) + sep + parts.last()
    }
}

/// `parts.join(sep)`.
pub fn join_with(parts: &Vec<String>, sep: &str) -> (res: String)
    ensures
        res@ == join_with_spec(strings_view(parts@), sep@),
{
    let ghost ps = strings_view(parts@);
    let mut res = String::new();
    let mut i: usize = 0;
    assert(ps.take(0) =~= Seq::<Seq<char>>::empty());
    while i < parts.len()
        invariant
            i <= parts@.len(),
            ps == strings_view(parts@),
            res@ == join_with_spec(ps.take(i as int), sep@),
        decreases parts@.len() - i,
    {
        assert(ps.take(i + 1).drop_last() =~= ps.take(i as int));
        assert(ps.take(i + 1).last() == parts@[i as int]@);
        if i > 0 {
            res.append(sep);
        }
        res.append(parts[i].as_str());
        assert(res@ =~= join_with_spec(ps.take(i + 1), sep@));
        i += 1;
    }
    assert(ps.take(i as int) =~= ps);
    res
}

/// `format!("{:02}", n)`: the decimal digits of `n`, with a leading zero below ten.
pub open spec fn pad2_spec(n: nat) -> Seq<char> {
    if n < 10 { seq!['0'] + decimal_spec(n) } else { decimal_spec(n) }
}

/// `format!("{:02}", n)`.
pub fn pad2(n: u64) -> (res: String)
    ensures
        res@ == pad2_spec(n as nat),
{
    let digits = u64_to_string(n);
    if n < 10 {
        let mut res = String::from_str("0");
        proof {
            reveal_strlit("0");
        }
        res.append(digits.as_str());
        res
    } else {
        digits
    }
}

/// A key/value pair of owned strings.
pub fn pair(key: &str, value: &str) -> (res: (String, String))
    ensures
        res.0@ == key@,
        res.1@ == value@,
{
    (key.to_owned(), value.to_owned())
}

/// The views of a list of key/value pairs.
pub open spec fn pairs_view(v: Seq<(String, String)>) -> Seq<(Seq<char>, Seq<char>)> {
    v.map_values(|p: (String, String)| (p.0@, p.1@))
}

} // verus!
