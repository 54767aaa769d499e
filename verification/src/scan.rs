//! Searching and slicing character sequences: first occurrences of a
//! pattern, the text around them, and bounded decimal readings.

use vstd::prelude::*;
use crate::ports::{all_digits, digits_value, digits_value_grows};

verus! {

/// `n` occurs in `h` at position `i`.
pub open spec fn occurs_at<A>(h: Seq<A>, n: Seq<A>, i: int) -> bool {
    0 <= i && i + n.len() <= h.len() && h.subrange(i, i + n.len()) == n
}

/// The first position where `n` occurs in `h`.
#[verifier::opaque]
pub open spec fn first_occurrence<A>(h: Seq<A>, n: Seq<A>) -> Option<int> {
    if exists|i: int| occurs_at(h, n, i) {
        Some(choose|i: int| occurs_at(h, n, i) && forall|j: int| 0 <= j < i ==> !occurs_at(h, n, j))
    } else {
        None
    }
}

pub(crate) proof fn lemma_first_occurrence<A>(h: Seq<A>, n: Seq<A>, i: int)
    requires
        occurs_at(h, n, i),
        forall|j: int| 0 <= j < i ==> !occurs_at(h, n, j),
    ensures
        first_occurrence(h, n) == Some(i),
{
    reveal(first_occurrence);
    let k = choose|k: int| occurs_at(h, n, k) && forall|j: int| 0 <= j < k ==> !occurs_at(h, n, j);
    if k < i {
        assert(!occurs_at(h, n, k));
    } else if k > i {
        assert(!occurs_at(h, n, i));
    }
}

/// Where `n` does not occur in `h`, it has no first occurrence.
pub(crate) proof fn lemma_no_occurrence<A>(h: Seq<A>, n: Seq<A>)
    requires
        forall|j: int| !occurs_at(h, n, j),
    ensures
        first_occurrence(h, n) is None,
{
    reveal(first_occurrence);
}

/// The first position at or after `from` where `n` occurs in `h`.
pub(crate) fn find_text(h: &Vec<char>, n: &Vec<char>, from: usize) -> (found: Option<usize>)
    requires
        from <= h@.len(),
        forall|j: int| 0 <= j < from ==> !occurs_at(h@, n@, j),
    ensures
        match found {
            Some(i) => first_occurrence(h@, n@) == Some(i as int) && occurs_at(h@, n@, i as int)
                && forall|j: int| 0 <= j < i ==> !occurs_at(h@, n@, j),
            None => first_occurrence(h@, n@) is None && forall|j: int| !occurs_at(h@, n@, j),
        },
{
    if n.len() > h.len() {
        assert forall|j: int| !occurs_at(h@, n@, j) by {}
        proof { lemma_no_occurrence(h@, n@); }
        return None;
    }
    let last = h.len() - n.len();
    if from > last {
        assert forall|j: int| !occurs_at(h@, n@, j) by {}
        proof { lemma_no_occurrence(h@, n@); }
        return None;
    }
    let mut i: usize = from;
    assert(h@.len() == h.len());
    loop
        invariant
            h@.len() <= usize::MAX,
            from <= i <= last,
            last + n@.len() == h@.len(),
            forall|j: int| 0 <= j < i ==> !occurs_at(h@, n@, j),
        decreases last - i,
    {
        let mut k: usize = 0;
        while k < n.len() && h[i + k] == n[k]
            invariant
                h@.len() <= usize::MAX,
                i <= last,
                last + n@.len() == h@.len(),
                k <= n@.len(),
                forall|m: int| 0 <= m < k ==> h@[i + m] == n@[m],
            decreases n@.len() - k,
        {
            k = k + 1;
        }
        if k == n.len() {
            assert(h@.subrange(i as int, i + n@.len()) =~= n@);
            proof { lemma_first_occurrence(h@, n@, i as int); }
            return Some(i);
        }
        assert(!occurs_at(h@, n@, i as int)) by {
            assert(h@.subrange(i as int, i + n@.len())[k as int] == h@[i + k]);
        }
        if i == last {
            assert forall|j: int| !occurs_at(h@, n@, j) by {}
        proof { lemma_no_occurrence(h@, n@); }
            return None;
        }
        i = i + 1;
    }
}

/// The text that follows the first occurrence of `p` in `s`.
pub open spec fn after_pattern(s: Seq<char>, p: Seq<char>) -> Option<Seq<char>> {
    match first_occurrence(s, p) {
        Some(i) => Some(s.skip(i + p.len())),
        None => None,
    }
}

/// The text that precedes the first occurrence of `p` in `s`.
pub open spec fn before_pattern(s: Seq<char>, p: Seq<char>) -> Option<Seq<char>> {
    match first_occurrence(s, p) {
        Some(i) => Some(s.take(i)),
        None => None,
    }
}

/// The characters of `v` from `start` on.
pub(crate) fn suffix_from(v: &Vec<char>, start: usize) -> (s: Vec<char>)
    requires
        start <= v@.len(),
    ensures
        s@ == v@.skip(start as int),
{
    let mut s: Vec<char> = Vec::new();
    let mut i: usize = start;
    while i < v.len()
        invariant
            start <= i <= v@.len(),
            s@ == v@.subrange(start as int, i as int),
        decreases v@.len() - i,
    {
        s.push(v[i]);
        assert(s@ =~= v@.subrange(start as int, i + 1));
        i = i + 1;
    }
    assert(s@ =~= v@.skip(start as int));
    s
}

/// The characters of `v` before `end`.
pub(crate) fn prefix_to(v: &Vec<char>, end: usize) -> (s: Vec<char>)
    requires
        end <= v@.len(),
    ensures
        s@ == v@.take(end as int),
{
    let mut s: Vec<char> = Vec::new();
    let mut i: usize = 0;
    while i < end
        invariant
            i <= end <= v@.len(),
            s@ == v@.take(i as int),
        decreases end - i,
    {
        s.push(v[i]);
        assert(s@ =~= v@.take(i + 1));
        i = i + 1;
    }
    s
}

/// The text after the first occurrence of `pattern`.
pub(crate) fn split_after(line: &Vec<char>, pattern: &Vec<char>) -> (rest: Option<Vec<char>>)
    ensures
        match rest {
            Some(r) => after_pattern(line@, pattern@) == Some(r@),
            None => after_pattern(line@, pattern@) is None,
        },
{
    match find_text(line, pattern, 0) {
        Some(i) => {
            assert(line@.len() == line.len());
            Some(suffix_from(line, i + pattern.len()))
        },
        None => None,
    }
}

/// Reads a decimal value of at most `limit` from `digits[start..]`.
pub(crate) fn read_digits(digits: &Vec<char>, start: usize, limit: u64) -> (value: Option<u64>)
    requires
        start <= digits@.len(),
        limit >= 9,
    ensures
        match value {
            Some(v) => all_digits(digits@.skip(start as int)) && v == digits_value(digits@.skip(start as int)) && v <= limit,
            None => !all_digits(digits@.skip(start as int)) || digits_value(digits@.skip(start as int)) > limit,
        },
{
    let ghost body = digits@.skip(start as int);
    let n = digits.len();
    let mut value: u64 = 0;
    let mut i: usize = start;
    assert(digits@.subrange(start as int, start as int) =~= Seq::<char>::empty());
    while i < n
        invariant
            start <= i <= n,
            n == digits@.len(),
            body == digits@.skip(start as int),
            all_digits(digits@.subrange(start as int, i as int)),
            value == digits_value(digits@.subrange(start as int, i as int)),
            value <= limit,
            limit >= 9,
        decreases n - i,
    {
        let c = digits[i];
        if !('0' <= c && c <= '9') {
            assert(!all_digits(body)) by {
                assert(body[i - start] == c);
            }
            return None;
        }
        let d = (c as u64) - ('0' as u64);
        let ghost prefix = digits@.subrange(start as int, i + 1);
        assert(prefix.drop_last() =~= digits@.subrange(start as int, i as int));
        assert(prefix.last() == c);
        if value > (limit - d) / 10 {
            proof {
                assert(value * 10 + d > limit) by (nonlinear_arith)
                    requires value > (limit - d) / 10, d <= 9, d <= limit || value > 0;
                if all_digits(body) {
                    digits_value_grows(body, (i + 1 - start) as int);
                    assert(body.subrange(0, (i + 1 - start) as int) =~= prefix);
                }
            }
            return None;
        }
        proof {
            assert(value * 10 + d <= limit) by (nonlinear_arith)
                requires value <= (limit - d) / 10, d <= 9;
        }
        value = value * 10 + d;
        i = i + 1;
    }
    assert(digits@.subrange(start as int, n as int) =~= body);
    Some(value)
}

/// Whether `prefix` begins `s`.
pub(crate) fn starts_with(s: &Vec<char>, prefix: &Vec<char>) -> (yes: bool)
    ensures
        yes == prefix@.is_prefix_of(s@),
{
    if prefix.len() > s.len() {
        return false;
    }
    let mut i: usize = 0;
    while i < prefix.len()
        invariant
            prefix@.len() <= s@.len(),
            i <= prefix@.len(),
            forall|k: int| 0 <= k < i ==> prefix@[k] == s@[k],
        decreases prefix@.len() - i,
    {
        if prefix[i] != s[i] {
            return false;
        }
        i = i + 1;
    }
    true
}

/// What `usize`'s decimal parser reads: an optional `+` and at least one
/// digit, within range.
pub open spec fn usize_reading(t: Seq<char>) -> Option<usize> {
    let body = if t.len() > 0 && t[0] == '+' { t.drop_first() } else { t };
    if body.len() == 0 || !all_digits(body) || digits_value(body) > usize::MAX {
        None
    } else {
        Some(digits_value(body) as usize)
    }
}

/// Reads a `usize` as its decimal parser does.
pub(crate) fn read_usize(t: &Vec<char>) -> (value: Option<usize>)
    ensures
        value == usize_reading(t@),
{
    let start: usize = if t.len() > 0 && t[0] == '+' { 1 } else { 0 };
    assert(t@.skip(start as int) == (if t@.len() > 0 && t@[0] == '+' { t@.drop_first() } else { t@ }));
    if start == t.len() {
        return None;
    }
    match read_digits(t, start, usize::MAX as u64) {
        Some(v) => Some(v as usize),
        None => None,
    }
}

/// What `u64`'s decimal parser reads: an optional `+` and at least one
/// digit, within range.
pub open spec fn u64_reading(t: Seq<char>) -> Option<u64> {
    let body = if t.len() > 0 && t[0] == '+' { t.drop_first() } else { t };
    if body.len() == 0 || !all_digits(body) || digits_value(body) > u64::MAX {
        None
    } else {
        Some(digits_value(body) as u64)
    }
}

/// Reads a `u64` as its decimal parser does.
pub(crate) fn read_u64(t: &Vec<char>) -> (value: Option<u64>)
    ensures
        value == u64_reading(t@),
{
    let start: usize = if t.len() > 0 && t[0] == '+' { 1 } else { 0 };
    assert(t@.skip(start as int) == (if t@.len() > 0 && t@[0] == '+' { t@.drop_first() } else { t@ }));
    if start == t.len() {
        return None;
    }
    read_digits(t, start, u64::MAX)
}

} // verus!
