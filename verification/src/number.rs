//! The numeric-epoch interpreter: a string that is entirely an integer or
//! a simple decimal literal is read as an epoch count, whose magnitude
//! selects the unit (seconds, milliseconds, microseconds or nanoseconds).

use vstd::prelude::*;

use crate::calendar;
use crate::Timestamp;

verus! {

/// Whether `c` is a decimal digit.
pub open spec fn is_digit(c: char) -> bool {
    48 <= c as u32 <= 57
}

/// The value of the digit `c`.
pub open spec fn digit_val(c: char) -> int {
    c as u32 - 48
}

/// Every character of `s` is a decimal digit. True of the empty sequence.
pub open spec fn all_digits(s: Seq<char>) -> bool {
    forall|i: int| 0 <= i < s.len() ==> is_digit(#[trigger] s[i])
}

/// The non-negative integer the digit string `s` denotes; 0 when empty.
pub open spec fn digits_val(s: Seq<char>) -> int
    decreases s.len(),
{
    if s.len() == 0 {
        0
    } else {
        digits_val(s.drop_last()) * 10 + digit_val(s.last())
    }
}

/// The magnitude `mag` with sign `neg` clamped into `i64`, as a cast from
/// a wider float-like reading would clamp it.
pub open spec fn clamp_i64(neg: bool, mag: int) -> i64 {
    if neg {
        if mag > i64::MAX {
            i64::MIN
        } else {
            (-mag) as i64
        }
    } else {
        if mag > i64::MAX {
            i64::MAX
        } else {
            mag as i64
        }
    }
}

/// The sign of `s` and `s` without its sign character.
pub open spec fn strip_sign(s: Seq<char>) -> (bool, Seq<char>) {
    if s.len() > 0 && s[0] == '-' {
        (true, s.skip(1))
    } else if s.len() > 0 && s[0] == '+' {
        (false, s.skip(1))
    } else {
        (false, s)
    }
}

/// Index of the first `.` of `d`, or `d.len()` if there is none.
pub open spec fn first_dot_idx(d: Seq<char>) -> int
    decreases d.len(),
{
    if d.len() == 0 {
        0
    } else if d[0] == '.' {
        0
    } else {
        1 + first_dot_idx(d.skip(1))
    }
}

/// The whole number the text denotes, truncated toward zero, when the text
/// is an optionally signed integer (`-123`) or decimal literal (`8.25`);
/// `None` otherwise. Values beyond the range of `i64` clamp to its
/// extremes.
pub open spec fn number_value(s: Seq<char>) -> Option<i64> {
    let p = strip_sign(s);
    let neg = p.0;
    let d = p.1;
    let k = first_dot_idx(d);
    if d.len() == 0 {
        None
    } else if k == d.len() {
        if all_digits(d) {
            Some(clamp_i64(neg, digits_val(d)))
        } else {
            None
        }
    } else {
        let ip = d.take(k);
        let fp = d.skip(k + 1);
        if all_digits(ip) && all_digits(fp) && ip.len() + fp.len() > 0 {
            Some(clamp_i64(neg, digits_val(ip)))
        } else {
            None
        }
    }
}

fn is_digit_exec(c: char) -> (r: bool)
    ensures
        r == is_digit(c),
{
    let u = c as u32;
    48 <= u && u <= 57
}

fn check_all_digits(v: &Vec<char>, from: usize, to: usize) -> (r: bool)
    requires
        from <= to <= v@.len(),
    ensures
        r == all_digits(v@.subrange(from as int, to as int)),
{
    let mut i: usize = from;
    while i < to
        invariant
            from <= i <= to <= v@.len(),
            forall|j: int| from <= j < i ==> is_digit(#[trigger] v@[j]),
        decreases to - i,
    {
        if !is_digit_exec(v[i]) {
            proof {
                assert(v@.subrange(from as int, to as int)[i - from] == v@[i as int]);
            }
            return false;
        }
        i = i + 1;
    }
    proof {
        assert forall|j: int| 0 <= j < to - from implies is_digit(
            #[trigger] v@.subrange(from as int, to as int)[j],
        ) by {
            assert(v@.subrange(from as int, to as int)[j] == v@[from + j]);
        }
    }
    true
}

/// Read the digit run `v[from..to]` with clamping: the value when it fits
/// in the non-negative range of `i64`, `None` when it exceeds it.
fn digits_value_clamped(v: &Vec<char>, from: usize, to: usize) -> (r: Option<i64>)
    requires
        from <= to <= v@.len(),
        all_digits(v@.subrange(from as int, to as int)),
    ensures
        match r {
            Some(n) => 0 <= n && digits_val(v@.subrange(from as int, to as int)) == n,
            None => digits_val(v@.subrange(from as int, to as int)) > i64::MAX,
        },
{
    let ghost d = v@.subrange(from as int, to as int);
    let mut acc: i64 = 0;
    let mut sat: bool = false;
    let mut i: usize = from;
    proof {
        assert(d.take(0) =~= Seq::<char>::empty());
    }
    while i < to
        invariant
            from <= i <= to <= v@.len(),
            d == v@.subrange(from as int, to as int),
            all_digits(d),
            !sat ==> 0 <= acc && acc == digits_val(d.take(i - from)),
            sat ==> digits_val(d.take(i - from)) > i64::MAX,
        decreases to - i,
    {
        let c = v[i];
        proof {
            assert(d[i - from] == v@[i as int]);
            assert(d.take(i - from + 1).drop_last() =~= d.take(i - from));
            assert(d.take(i - from + 1).last() == d[i - from]);
        }
        let u = c as u32;
        let dv: i64 = (u - 48) as i64;
        proof {
            assert(is_digit(d[i - from]));
            assert(0 <= dv < 10);
        }
        if sat {
            proof {
                assert(digits_val(d.take(i - from + 1)) == digits_val(d.take(i - from)) * 10
                    + digit_val(d[i - from]));
                assert(digits_val(d.take(i - from)) * 10 >= digits_val(d.take(i - from)));
            }
        } else {
            if acc > (i64::MAX - dv) / 10 {
                sat = true;
                proof {
                    assert(acc * 10 + dv > i64::MAX) by (nonlinear_arith)
                        requires
                            acc > (i64::MAX - dv) / 10,
                            0 <= dv < 10,
                            0 <= acc,
                    ;
                }
            } else {
                proof {
                    assert(acc * 10 + dv <= i64::MAX) by (nonlinear_arith)
                        requires
                            acc <= (i64::MAX - dv) / 10,
                            0 <= dv < 10,
                            0 <= acc,
                    ;
                }
                acc = acc * 10 + dv;
            }
        }
        i = i + 1;
    }
    proof {
        assert(d.take(to - from) =~= d);
    }
    if sat {
        None
    } else {
        Some(acc)
    }
}

/// Read the whole of `v` as an optionally signed integer or decimal
/// literal, truncated toward zero and clamped into `i64`.
pub(crate) fn parse_number(v: &Vec<char>) -> (r: Option<i64>)
    ensures
        r == number_value(v@),
{
    let n = v.len();
    let start: usize = if n > 0 && (v[0] == '-' || v[0] == '+') {
        1
    } else {
        0
    };
    let neg = n > 0 && v[0] == '-';
    let ghost d = strip_sign(v@).1;
    proof {
        if start == 1 {
            assert(d =~= v@.subrange(1, n as int));
        } else {
            assert(d =~= v@.subrange(0, n as int));
        }
    }
    if start >= n {
        proof {
            assert(d.len() == 0);
        }
        return None;
    }
    // locate the first dot of the unsigned part
    let mut k: usize = start;
    proof {
        assert(d.skip(0) =~= d);
    }
    while k < n && v[k] != '.'
        invariant
            start <= k <= n,
            n == v@.len(),
            d == strip_sign(v@).1,
            d == v@.subrange(start as int, n as int),
            first_dot_idx(d) == k - start + first_dot_idx(d.skip(k - start)),
        decreases n - k,
    {
        proof {
            assert(d.skip(k - start)[0] == d[k - start]);
            assert(d[k - start] == v@[k as int]);
            assert(d.skip(k - start).skip(1) =~= d.skip(k - start + 1));
        }
        k = k + 1;
    }
    proof {
        if k < n {
            assert(d.skip(k - start)[0] == d[k - start]);
            assert(d[k - start] == v@[k as int]);
            assert(first_dot_idx(d.skip(k - start)) == 0);
        } else {
            assert(d.skip(k - start) =~= Seq::<char>::empty());
        }
        assert(first_dot_idx(d) == k - start);
    }
    if k == n {
        // integer form: every character after the sign is a digit
        if !check_all_digits(v, start, n) {
            proof {
                assert(d =~= v@.subrange(start as int, n as int));
            }
            return None;
        }
        let val = digits_value_clamped(v, start, n);
        match val {
            Some(m) => {
                if neg {
                    Some(-m)
                } else {
                    Some(m)
                }
            },
            None => {
                if neg {
                    Some(i64::MIN)
                } else {
                    Some(i64::MAX)
                }
            },
        }
    } else {
        // decimal form: digits around a single dot, at least one digit
        let ok_ip = check_all_digits(v, start, k);
        let ok_fp = check_all_digits(v, k + 1, n);
        proof {
            assert(v@.subrange(start as int, k as int) =~= d.take(k - start));
            assert(v@.subrange(k + 1, n as int) =~= d.skip(k - start + 1));
        }
        if !(ok_ip && ok_fp) {
            return None;
        }
        if k == start && k + 1 == n {
            // a bare dot is not a number
            proof {
                assert(d.take(0).len() + d.skip(1).len() == 0);
            }
            return None;
        }
        let val = digits_value_clamped(v, start, k);
        match val {
            Some(m) => {
                if neg {
                    Some(-m)
                } else {
                    Some(m)
                }
            },
            None => {
                if neg {
                    Some(i64::MIN)
                } else {
                    Some(i64::MAX)
                }
            },
        }
    }
}

/// The unit split of the epoch count `n`: counts of up to ten digits are
/// seconds, up to thirteen milliseconds, up to sixteen microseconds, and
/// anything larger nanoseconds; the sub-unit remainder becomes the
/// nanosecond part.
pub open spec fn epoch_split(n: i64) -> (i64, u32) {
    if n <= 9_999_999_999 {
        (n, 0u32)
    } else if n <= 9_999_999_999_999 {
        ((n / 1000) as i64, ((n % 1000) * 1_000_000) as u32)
    } else if n <= 9_999_999_999_999_999 {
        ((n / 1_000_000) as i64, ((n % 1_000_000) * 1000) as u32)
    } else {
        ((n / 1_000_000_000) as i64, (n % 1_000_000_000) as u32)
    }
}

/// What the numeric-epoch interpreter yields for `s`: the number read from
/// the whole text, split by magnitude into seconds and nanoseconds, always
/// at UTC (offset zero); `None` when `s` is not a number or the resulting
/// instant is out of calendar range.
pub open spec fn from_unix_timestamp_spec(s: Seq<char>) -> Option<Timestamp> {
    match number_value(s) {
        None => None,
        Some(n) => {
            let p = epoch_split(n);
            calendar::epoch_timestamp(p.0, p.1)
        },
    }
}

pub(crate) fn from_unix_timestamp(v: &Vec<char>) -> (r: Option<Timestamp>)
    ensures
        r == from_unix_timestamp_spec(v@),
{
    match parse_number(v) {
        None => None,
        Some(n) => {
            let (secs, nanos): (i64, u32) = if n <= 9_999_999_999 {
                (n, 0u32)
            } else if n <= 9_999_999_999_999 {
                (n / 1000, ((n % 1000) as u32) * 1_000_000)
            } else if n <= 9_999_999_999_999_999 {
                (n / 1_000_000, ((n % 1_000_000) as u32) * 1000)
            } else {
                (n / 1_000_000_000, (n % 1_000_000_000) as u32)
            };
            calendar::epoch_to_timestamp(secs, nanos)
        },
    }
}

} // verus!
