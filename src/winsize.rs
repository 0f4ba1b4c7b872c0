use vstd::prelude::*;

use crate::key::ESC;

verus! {

/// An ASCII decimal digit.
pub open spec fn is_digit(b: u8) -> bool {
    0x30 <= b <= 0x39
}

/// A non-empty run of ASCII decimal digits.
pub open spec fn all_digits(t: Seq<u8>) -> bool {
    &&& t.len() > 0
    &&& forall|i: int| 0 <= i < t.len() ==> is_digit(#[trigger] t[i])
}

/// The number that a run of decimal digits spells.
pub open spec fn digits_value(t: Seq<u8>) -> nat
    decreases t.len(),
{
    if t.len() == 0 {
        0
    } else {
        digits_value(t.drop_last()) * 10 + (t.last() - 0x30) as nat
    }
}

/// `s` is a cursor-position report `ESC '[' rows ';' cols 'R'` whose
/// separator stands at index `k`.
pub open spec fn size_reply_at(s: Seq<u8>, k: int) -> bool {
    &&& s.len() >= 3
    &&& s[0] == ESC
    &&& s[1] == 0x5b
    &&& s.last() == 0x52
    &&& 2 < k < s.len() - 2
    &&& s[k] == 0x3b
    &&& all_digits(s.subrange(2, k))
    &&& all_digits(s.subrange(k + 1, s.len() - 1))
}

/// The rows figure of a report whose separator is at `k`.
pub open spec fn reply_rows(s: Seq<u8>, k: int) -> nat {
    digits_value(s.subrange(2, k))
}

/// The columns figure of a report whose separator is at `k`.
pub open spec fn reply_cols(s: Seq<u8>, k: int) -> nat {
    digits_value(s.subrange(k + 1, s.len() - 1))
}

/// The terminal size that a cursor-position report gives, as rows and
/// columns; `None` where `s` is no such report.
pub open spec fn reported_size(s: Seq<u8>) -> Option<(nat, nat)> {
    if exists|k: int| size_reply_at(s, k) {
        let k = choose|k: int| size_reply_at(s, k);
        Some((reply_rows(s, k), reply_cols(s, k)))
    } else {
        None
    }
}

/// A longer run of digits never spells a smaller number than its prefix.
pub proof fn lemma_digits_value_mono(t: Seq<u8>, i: int, j: int)
    requires
        0 <= i <= j <= t.len(),
        forall|m: int| 0 <= m < t.len() ==> is_digit(#[trigger] t[m]),
    ensures
        digits_value(t.subrange(0, i)) <= digits_value(t.subrange(0, j)),
    decreases j - i,
{
    if i < j {
        lemma_digits_value_mono(t, i, j - 1);
        assert(t.subrange(0, j).drop_last() =~= t.subrange(0, j - 1));
    }
}

/// The number spelled by `s[from..to]`, or `None` where that is not a
/// non-empty run of digits or the number does not fit.
fn parse_digits(s: &[u8], from: usize, to: usize) -> (r: Option<usize>)
    requires
        from <= to <= s@.len(),
    ensures
        match r {
            Some(v) => all_digits(s@.subrange(from as int, to as int)) && v == digits_value(
                s@.subrange(from as int, to as int),
            ),
            None => !all_digits(s@.subrange(from as int, to as int)) || digits_value(
                s@.subrange(from as int, to as int),
            ) > usize::MAX,
        },
{
    let ghost t = s@.subrange(from as int, to as int);
    if from == to {
        return None;
    }
    let mut j: usize = from;
    while j < to
        invariant
            from <= j <= to <= s@.len(),
            t == s@.subrange(from as int, to as int),
            forall|m: int| from <= m < j ==> is_digit(#[trigger] s@[m]),
        decreases to - j,
    {
        if !(0x30 <= s[j] && s[j] <= 0x39) {
            assert(!is_digit(t[j - from]));
            return None;
        }
        j += 1;
    }
    assert(all_digits(t));
    let mut v: usize = 0;
    let mut j: usize = from;
    while j < to
        invariant
            from <= j <= to <= s@.len(),
            t == s@.subrange(from as int, to as int),
            all_digits(t),
            v == digits_value(t.subrange(0, j - from)),
        decreases to - j,
    {
        proof {
            assert(t[j - from] == s@[j as int]);
            assert(is_digit(t[j - from]));
        }
        let d: usize = (s[j] - 0x30) as usize;
        proof {
            assert(t.subrange(0, j - from + 1).drop_last() =~= t.subrange(0, j - from));
            assert(is_digit(t[j - from]));
        }
        if v > (usize::MAX - d) / 10 {
            proof {
                lemma_digits_value_mono(t, j - from + 1, t.len() as int);
                assert(t.subrange(0, t.len() as int) =~= t);
                assert(v * 10 + d > usize::MAX) by (nonlinear_arith)
                    requires v > (usize::MAX - d) / 10, d <= 9;
            }
            return None;
        }
        assert(v * 10 + d <= usize::MAX) by (nonlinear_arith)
            requires v <= (usize::MAX - d) / 10, d <= 9;
        v = v * 10 + d;
        j += 1;
    }
    assert(t.subrange(0, t.len() as int) =~= t);
    Some(v)
}

/// Reads the terminal's cursor-position report `ESC '[' rows ';' cols 'R'`
/// into its two figures; `None` for any other reply, or figures too large.
pub fn parse_window_size(s: &[u8]) -> (r: Option<(usize, usize)>)
    ensures
        match reported_size(s@) {
            Some((rows, cols)) => if rows <= usize::MAX && cols <= usize::MAX {
                r == Some((rows as usize, cols as usize))
            } else {
                r is None
            },
            None => r is None,
        },
{
    let n = s.len();
    if n < 3 || s[0] != ESC || s[1] != 0x5b || s[n - 1] != 0x52 {
        return None;
    }
    let mut k: usize = 2;
    while k < n && s[k] != 0x3b
        invariant
            2 <= k <= n,
            n == s@.len(),
            forall|m: int| 2 <= m < k ==> s@[m] != 0x3b,
        decreases n - k,
    {
        k += 1;
    }
    if k >= n - 1 {
        proof {
            assert forall|k2: int| size_reply_at(s@, k2) implies false by {
                assert(s@[k2] == 0x3b);
            }
        }
        return None;
    }
    proof {
        if exists|k2: int| size_reply_at(s@, k2) {
            let k2 = choose|k2: int| size_reply_at(s@, k2);
            lemma_size_reply_unique(s@, k2);
            if k2 > k {
                assert(s@.subrange(2, k2)[k - 2] == s@[k as int]);
            }
            assert(k2 == k);
        }
    }
    let rows = parse_digits(s, 2, k);
    let cols = parse_digits(s, k + 1, n - 1);
    match (rows, cols) {
        (Some(a), Some(b)) => {
            assert(size_reply_at(s@, k as int));
            Some((a, b))
        },
        _ => None,
    }
}

/// A cursor-position report has one separator only.
pub proof fn lemma_size_reply_unique(s: Seq<u8>, k: int)
    requires
        size_reply_at(s, k),
    ensures
        forall|k2: int| size_reply_at(s, k2) ==> k2 == k,
{
    assert forall|k2: int| size_reply_at(s, k2) implies k2 == k by {
        if k2 > k {
            assert(s.subrange(2, k2)[k - 2] == s[k]);
        } else if k2 < k {
            assert(s.subrange(2, k)[k2 - 2] == s[k2]);
        }
    }
}

} // verus!
