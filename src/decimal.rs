//! Decimal integer literals, as they appear in HTTP header values and in
//! stored credential files.

use vstd::prelude::*;

verus! {

/// Whether `c` is an ASCII decimal digit.
pub open spec fn is_digit(c: char) -> bool {
    '0' <= c && c <= '9'
}

/// The value of a single decimal digit.
pub open spec fn digit_value(c: char) -> int {
    c as int - '0' as int
}

/// A non-empty run of decimal digits.
pub open spec fn all_digits(s: Seq<char>) -> bool {
    s.len() > 0 && forall|i: int| 0 <= i < s.len() ==> is_digit(#[trigger] s[i])
}

/// The number that a run of decimal digits denotes, most significant digit first.
pub open spec fn digits_value(s: Seq<char>) -> int
    decreases s.len(),
{
    if s.len() == 0 {
        0
    } else {
        10 * digits_value(s.drop_last()) + digit_value(s.last())
    }
}

/// The value of an unsigned literal: an optional `+`, then digits.
pub open spec fn unsigned_literal(s: Seq<char>) -> Option<int> {
    if s.len() > 0 && s[0] == '+' {
        if all_digits(s.drop_first()) {
            Some(digits_value(s.drop_first()))
        } else {
            None
        }
    } else if all_digits(s) {
        Some(digits_value(s))
    } else {
        None
    }
}

/// The value of a signed literal: an optional `+` or `-`, then digits.
pub open spec fn signed_literal(s: Seq<char>) -> Option<int> {
    if s.len() > 0 && s[0] == '-' {
        if all_digits(s.drop_first()) {
            Some(-digits_value(s.drop_first()))
        } else {
            None
        }
    } else {
        unsigned_literal(s)
    }
}

/// The `u64` that `s` spells, if it spells one that fits.
pub open spec fn u64_of_text(s: Seq<char>) -> Option<u64> {
    match unsigned_literal(s) {
        Some(v) => if v <= u64::MAX {
            Some(v as u64)
        } else {
            None
        },
        None => None,
    }
}

/// The `i32` that `s` spells, if it spells one that fits.
pub open spec fn i32_of_text(s: Seq<char>) -> Option<i32> {
    match signed_literal(s) {
        Some(v) => if i32::MIN <= v <= i32::MAX {
            Some(v as i32)
        } else {
            None
        },
        None => None,
    }
}

proof fn lemma_digits_value_nonneg(s: Seq<char>)
    requires
        forall|i: int| 0 <= i < s.len() ==> is_digit(#[trigger] s[i]),
    ensures
        digits_value(s) >= 0,
    decreases s.len(),
{
    if s.len() > 0 {
        assert(is_digit(s[s.len() - 1]));
        lemma_digits_value_nonneg(s.drop_last());
    }
}

/// Appending digits never makes the value smaller.
proof fn lemma_digits_value_prefix(s: Seq<char>, k: int)
    requires
        0 <= k <= s.len(),
        forall|i: int| 0 <= i < s.len() ==> is_digit(#[trigger] s[i]),
    ensures
        digits_value(s.subrange(0, k)) <= digits_value(s),
    decreases s.len() - k,
{
    if k < s.len() {
        lemma_digits_value_prefix(s, k + 1);
        let p = s.subrange(0, k + 1);
        assert(p.drop_last() =~= s.subrange(0, k));
        assert(is_digit(p.last()));
        assert forall|i: int| 0 <= i < s.subrange(0, k).len() implies is_digit(
            #[trigger] s.subrange(0, k)[i],
        ) by {
            assert(s.subrange(0, k)[i] == s[i]);
        }
        lemma_digits_value_nonneg(s.subrange(0, k));
    } else {
        assert(s.subrange(0, k) =~= s);
    }
}

/// Reads the digits of `s` from character `start` to the end.
/// Returns `None` where a character there is not a digit, where there is
/// none, or where the value does not fit in a `u64`.
fn digits_from(s: &str, start: usize) -> (r: Option<u64>)
    requires
        start <= s@.len(),
    ensures
        r == (if all_digits(s@.skip(start as int)) && digits_value(s@.skip(start as int))
            <= u64::MAX {
            Some(digits_value(s@.skip(start as int)) as u64)
        } else {
            None
        }),
{
    let n = s.unicode_len();
    if start >= n {
        return None;
    }
    let ghost tail = s@.skip(start as int);
    let mut acc: u64 = 0;
    let mut i: usize = start;
    while i < n
        invariant
            start <= i <= n,
            n == s@.len(),
            tail == s@.skip(start as int),
            forall|j: int| 0 <= j < i - start ==> is_digit(#[trigger] tail[j]),
            acc as int == digits_value(tail.subrange(0, i - start)),
        decreases n - i,
    {
        let c = s.get_char(i);
        if !(c >= '0' && c <= '9') {
            assert(!is_digit(tail[i - start]));
            return None;
        }
        let d = (c as u32 - '0' as u32) as u64;
        let ghost k = i - start;
        proof {
            let p = tail.subrange(0, k + 1);
            assert(p.drop_last() =~= tail.subrange(0, k));
            assert(p.last() == c);
        }
        match acc.checked_mul(10) {
            Some(m) => match m.checked_add(d) {
                Some(v) => {
                    acc = v;
                },
                None => {
                    proof { lemma_overflow_none(tail, k + 1); }
                    return None;
                },
            },
            None => {
                proof {
                    lemma_digits_value_nonneg(tail.subrange(0, k));
                    lemma_overflow_none(tail, k + 1);
                }
                return None;
            },
        }
        i = i + 1;
    }
    assert(tail.subrange(0, n - start) =~= tail);
    Some(acc)
}

/// Once a prefix of digits is over `u64::MAX`, the whole run is too, or is
/// no run of digits at all.
proof fn lemma_overflow_none(tail: Seq<char>, k: int)
    requires
        0 < k <= tail.len(),
        forall|j: int| 0 <= j < k ==> is_digit(#[trigger] tail[j]),
        digits_value(tail.subrange(0, k)) > u64::MAX,
    ensures
        !(all_digits(tail) && digits_value(tail) <= u64::MAX),
{
    if all_digits(tail) {
        lemma_digits_value_prefix(tail, k);
    }
}

/// Parses an unsigned decimal literal as `u64`, as `str::parse::<u64>` does:
/// an optional `+` and at least one digit, with no other character.
pub fn parse_u64(s: &str) -> (r: Option<u64>)
    ensures
        r == u64_of_text(s@),
{
    let n = s.unicode_len();
    if n > 0 && s.get_char(0) == '+' {
        assert(s@.skip(1) =~= s@.drop_first());
        digits_from(s, 1)
    } else {
        assert(s@.skip(0) =~= s@);
        digits_from(s, 0)
    }
}

/// Parses a signed decimal literal as `i32`, as `str::parse::<i32>` does:
/// an optional `+` or `-` and at least one digit, with no other character.
pub fn parse_i32(s: &str) -> (r: Option<i32>)
    ensures
        r == i32_of_text(s@),
{
    let n = s.unicode_len();
    let first = if n > 0 {
        s.get_char(0)
    } else {
        ' '
    };
    let negative = n > 0 && first == '-';
    let start: usize = if n > 0 && (first == '-' || first == '+') {
        1
    } else {
        0
    };
    proof {
        if n > 0 {
            assert(s@[0] == first);
        }
        if start == 1 {
            assert(s@.skip(1) =~= s@.drop_first());
        } else {
            assert(s@.skip(0) =~= s@);
        }
    }
    match digits_from(s, start) {
        Some(m) => {
            proof {
                lemma_digits_value_nonneg(s@.skip(start as int));
            }
            if negative {
                if m <= 2147483648 {
                    Some((0 - m as i64) as i32)
                } else {
                    None
                }
            } else if m <= 2147483647 {
                Some(m as i32)
            } else {
                None
            }
        },
        None => {
            proof {
                if all_digits(s@.skip(start as int)) {
                    lemma_digits_value_nonneg(s@.skip(start as int));
                }
            }
            None
        },
    }
}

} // verus!
