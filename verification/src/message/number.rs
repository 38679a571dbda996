//! Whole numbers as text, and the latest of several times.

use crate::decimal::{all_digits, number_of};
use crate::text::{chars_of, is_digit, slice};
use vstd::prelude::*;

verus! {

/// The whole number that the text `s` writes: digits, with or without a
/// sign before them.
pub open spec fn integer_of(s: Seq<char>) -> Option<int> {
    if s.len() > 0 && s[0] == '-' {
        if s.len() > 1 && all_digits(s.skip(1)) {
            Some(-(number_of(s.skip(1)) as int))
        } else {
            None
        }
    } else if s.len() > 0 && s[0] == '+' {
        if s.len() > 1 && all_digits(s.skip(1)) {
            Some(number_of(s.skip(1)) as int)
        } else {
            None
        }
    } else if s.len() > 0 && all_digits(s) {
        Some(number_of(s) as int)
    } else {
        None
    }
}

/// The number that `s` writes, if it is a whole number that fits `i64`.
pub open spec fn i64_of(s: Seq<char>) -> Option<i64> {
    match integer_of(s) {
        Some(n) => if i64::MIN <= n <= i64::MAX {
            Some(n as i64)
        } else {
            None
        },
        None => None,
    }
}

/// The number that `s` writes, if it is a whole number without a minus sign
/// that fits `u64`.
pub open spec fn u64_of(s: Seq<char>) -> Option<u64> {
    match integer_of(s) {
        Some(n) => if (s.len() > 0 && s[0] == '-') || n > u64::MAX {
            None
        } else {
            Some(n as u64)
        },
        None => None,
    }
}

/// The largest of `times`; `None` where there are none.
pub open spec fn latest_of(times: Seq<i64>) -> Option<i64>
    decreases times.len(),
{
    if times.len() == 0 {
        None
    } else {
        match latest_of(times.drop_last()) {
            Some(t) => if t >= times.last() {
                Some(t)
            } else {
                Some(times.last())
            },
            None => Some(times.last()),
        }
    }
}

/// The latest of several times is one of them, and none of them is later.
pub proof fn lemma_latest(times: Seq<i64>)
    ensures
        latest_of(times) is None <==> times.len() == 0,
        latest_of(times) matches Some(t) ==> times.contains(t) && forall|i: int|
            0 <= i < times.len() ==> times[i] <= t,
    decreases times.len(),
{
    if times.len() > 0 {
        let rest = times.drop_last();
        lemma_latest(rest);
        let t = latest_of(times).unwrap();
        assert(times.last() == times[times.len() - 1]);
        match latest_of(rest) {
            Some(u) => {
                let k = choose|k: int| 0 <= k < rest.len() && rest[k] == u;
                assert(times[k] == u);
                assert forall|i: int| 0 <= i < times.len() implies times[i] <= t by {
                    if i < rest.len() {
                        assert(rest[i] == times[i]);
                    }
                }
            },
            None => {},
        }
    }
}

fn magnitude(s: &Vec<char>, from: usize) -> (r: Option<u128>)
    requires
        from <= s.len(),
    ensures
        match r {
            Some(n) => from < s.len() && all_digits(s@.skip(from as int)) && n == number_of(
                s@.skip(from as int),
            ),
            None => from == s.len() || !all_digits(s@.skip(from as int)) || number_of(
                s@.skip(from as int),
            ) > u128::MAX,
        },
{
    let part = slice(s, from, s.len());
    assert(part@ =~= s@.skip(from as int));
    if part.len() == 0 {
        return None;
    }
    let mut n: u128 = 0;
    let mut i: usize = 0;
    while i < part.len()
        invariant
            i <= part.len(),
            0 < part.len(),
            from < s.len(),
            part@ == s@.skip(from as int),
            all_digits(part@.take(i as int)),
            n == number_of(part@.take(i as int)),
        decreases part.len() - i,
    {
        let c = part[i];
        if !('0' <= c && c <= '9') {
            assert(!is_digit(part@[i as int]));
            return None;
        }
        let d: u128 = (c as u32 - '0' as u32) as u128;
        proof {
            assert(part@.take(i + 1).drop_last() =~= part@.take(i as int));
            assert(part@.take(i + 1).last() == part[i as int]);
            assert forall|j: int| 0 <= j < i + 1 implies is_digit(
                #[trigger] part@.take(i + 1)[j],
            ) by {
                if j < i {
                    assert(part@.take(i as int)[j] == part@.take(i + 1)[j]);
                }
            }
        }
        let next = match n.checked_mul(10) {
            Some(m) => m.checked_add(d),
            None => None,
        };
        match next {
            Some(next) => {
                n = next;
            },
            None => {
                proof {
                    // the digits go on, or not: the number only grows
                    if all_digits(part@) {
                        crate::decimal::lemma_number_grows(part@, i + 1);
                    }
                }
                return None;
            },
        }
        i += 1;
    }
    assert(part@.take(i as int) =~= part@);
    Some(n)
}

/// Reads a whole number that fits `i64`.
pub fn parse_i64(text: &str) -> (r: Option<i64>)
    ensures
        r == i64_of(text@),
{
    integer(&chars_of(text))
}

/// Reads a whole number that fits `i64` from its characters.
pub fn integer(s: &Vec<char>) -> (r: Option<i64>)
    ensures
        r == i64_of(s@),
{
    if s.len() == 0 {
        return None;
    }
    if s[0] == '-' {
        match magnitude(s, 1) {
            Some(n) => if n <= 9223372036854775808u128 {
                if n == 9223372036854775808u128 {
                    Some(i64::MIN)
                } else {
                    Some(-(n as i64))
                }
            } else {
                None
            },
            None => None,
        }
    } else {
        let from: usize = if s[0] == '+' {
            1
        } else {
            0
        };
        assert(s@.skip(0) =~= s@);
        match magnitude(s, from) {
            Some(n) => if n <= 9223372036854775807u128 {
                Some(n as i64)
            } else {
                None
            },
            None => None,
        }
    }
}

/// Reads a whole number that fits `u64`.
pub fn parse_u64(text: &str) -> (r: Option<u64>)
    ensures
        r == u64_of(text@),
{
    let s = chars_of(text);
    if s.len() == 0 || s[0] == '-' {
        return None;
    }
    let from: usize = if s[0] == '+' {
        1
    } else {
        0
    };
    assert(s@.skip(0) =~= s@);
    match magnitude(&s, from) {
        Some(n) => if n <= 18446744073709551615u128 {
            Some(n as u64)
        } else {
            None
        },
        None => None,
    }
}

/// The latest of several times.
pub fn latest(times: &Vec<i64>) -> (r: Option<i64>)
    ensures
        r == latest_of(times@),
{
    let mut best: Option<i64> = None;
    let mut i: usize = 0;
    while i < times.len()
        invariant
            i <= times.len(),
            best == latest_of(times@.take(i as int)),
        decreases times.len() - i,
    {
        proof {
            assert(times@.take(i + 1).drop_last() =~= times@.take(i as int));
            assert(times@.take(i + 1).last() == times[i as int]);
        }
        best = match best {
            Some(t) => if t >= times[i] {
                Some(t)
            } else {
                Some(times[i])
            },
            None => Some(times[i]),
        };
        i += 1;
    }
    assert(times@.take(i as int) =~= times@);
    best
}

} // verus!
