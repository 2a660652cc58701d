//! Decimal numbers written as text.
use vstd::prelude::*;
use crate::text::chars_of;

verus! {
/// The value of a decimal digit character, for `'0'..='9'`.
pub open spec fn digit_value(c: char) -> nat {
    (c as nat - '0' as nat) as nat
}

/// Whether every character of `s` is an ASCII decimal digit.
pub open spec fn all_digits(s: Seq<char>) -> bool {
    forall|i: int| 0 <= i < s.len() ==> '0' <= #[trigger] s[i] <= '9'
}

/// The number that a string of decimal digits spells.
pub open spec fn digits_value(s: Seq<char>) -> nat
    decreases s.len(),
{
    if s.len() == 0 {
        0
    } else {
        digits_value(s.drop_last()) * 10 + digit_value(s.last())
    }
}

/// `s` without its leading sign, if it has one.
pub open spec fn number_body(s: Seq<char>) -> Seq<char> {
    if s.len() > 0 && (s[0] == '-' || s[0] == '+') { s.drop_first() } else { s }
}

/// What `str::parse::<i64>` accepts and gives back: an optional `+` or `-`
/// followed by at least one decimal digit, whose value fits in an `i64`.
pub open spec fn parse_i64_spec(s: Seq<char>) -> Option<int> {
    let neg = s.len() > 0 && s[0] == '-';
    let body = number_body(s);
    let v: int = if neg { -digits_value(body) } else { digits_value(body) as int };
    if body.len() == 0 || !all_digits(body) || v < i64::MIN || v > i64::MAX {
        None
    } else {
        Some(v)
    }
}

/// Parses a decimal `i64`, as `str::parse::<i64>` does.
pub fn parse_i64(s: &str) -> (res: Option<i64>)
    ensures
        match parse_i64_spec(s@) {
            Some(v) => res == Some(v as i64),
            None => res is None,
        },
{
    let v = chars_of(s);
    let n = v.len();
    let neg = n > 0 && v[0] == '-';
    let start: usize = if n > 0 && (v[0] == '-' || v[0] == '+') { 1 } else { 0 };
    let ghost body = number_body(s@);
    assert(body =~= v@.subrange(start as int, n as int));
    if start == n {
        return None;
    }
    let mut mag: u64 = 0;
    let mut i: usize = start;
    while i < n
        invariant
            start <= i <= n == v@.len(),
            body == v@.subrange(start as int, n as int),
            body == number_body(s@),
            v@ == s@,
            all_digits(v@.subrange(start as int, i as int)),
            mag as nat == digits_value(v@.subrange(start as int, i as int)),
        decreases n - i,
    {
        let c = v[i];
        if !('0' <= c && c <= '9') {
            assert(body[i - start] == c);
            assert(!all_digits(body));
            return None;
        }
        let d: u64 = ((c as u32) - ('0' as u32)) as u64;
        let ghost prefix = v@.subrange(start as int, i + 1);
        assert(prefix.drop_last() =~= v@.subrange(start as int, i as int));
        assert(prefix.last() == c);
        assert(digit_value(c) == d);
        assert(digits_value(prefix) == mag * 10 + d);
        let m10 = mag.checked_mul(10);
        if m10.is_none() {
            assert(body.take((i + 1 - start) as int) =~= prefix);
            proof { lemma_too_long(body, prefix, (i + 1 - start) as int); }
            return None;
        }
        let next = m10.unwrap().checked_add(d);
        if next.is_none() {
            assert(body.take((i + 1 - start) as int) =~= prefix);
            proof { lemma_too_long(body, prefix, (i + 1 - start) as int); }
            return None;
        }
        mag = next.unwrap();
        i += 1;
    }
    assert(v@.subrange(start as int, n as int) =~= body);
    if neg {
        if mag <= 9223372036854775807 {
            Some(-(mag as i64))
        } else if mag == 9223372036854775808 {
            Some(-9223372036854775807i64 - 1)
        } else {
            None
        }
    } else {
        if mag <= 9223372036854775807 {
            Some(mag as i64)
        } else {
            None
        }
    }
}

/// A digit string whose prefix already spells more than `u64::MAX` is no `i64`.
proof fn lemma_too_long(body: Seq<char>, prefix: Seq<char>, k: int)
    requires
        0 <= k <= body.len(),
        prefix == body.take(k),
        digits_value(prefix) > u64::MAX,
    ensures
        spells_more_than_u64(body),
{
    lemma_digits_value_mono(body, k);
}

/// A digit string whose value does not fit in a `u64`, so that no sign makes it an `i64`.
pub open spec fn spells_more_than_u64(body: Seq<char>) -> bool {
    digits_value(body) > u64::MAX
}

/// A prefix of a digit string never spells more than the whole.
proof fn lemma_digits_value_mono(s: Seq<char>, k: int)
    requires
        0 <= k <= s.len(),
    ensures
        digits_value(s.take(k)) <= digits_value(s),
    decreases s.len() - k,
{
    if k < s.len() {
        lemma_digits_value_mono(s, k + 1);
        let t = s.take(k + 1);
        assert(t.drop_last() =~= s.take(k));
        assert(digits_value(t) == digits_value(s.take(k)) * 10 + digit_value(t.last()));
        assert(digits_value(s.take(k)) <= digits_value(s.take(k)) * 10) by (nonlinear_arith);
    } else {
        assert(s.take(k) =~= s);
    }
}

} // verus!
