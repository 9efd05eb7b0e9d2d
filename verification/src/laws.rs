//! Properties of the parser that hold for every input, stated and proved
//! against the specifications of the interpreters and the chain.

use vstd::prelude::*;

use crate::calendar;
use crate::normalize;
use crate::number;
use crate::strategies;
use crate::{chain_from, parse_spec, strategy_count, strategy_spec};
use crate::{Clock, ParseError, Timestamp};

verus! {

/// Ten to the power `n`.
pub open spec fn pow10(n: nat) -> int
    decreases n,
{
    if n == 0 {
        1
    } else {
        10 * pow10((n - 1) as nat)
    }
}

/// A digit string's value is bounded by its length: below ten to the
/// length, and at least ten to the length less one when the leading digit
/// is not zero.
pub proof fn lemma_digits_val_bounds(s: Seq<char>)
    requires
        number::all_digits(s),
    ensures
        0 <= number::digits_val(s) < pow10(s.len()),
        s.len() >= 1 && number::digit_val(s[0]) >= 1 ==> number::digits_val(s) >= pow10(
            (s.len() - 1) as nat,
        ),
    decreases s.len(),
{
    if s.len() == 0 {
    } else {
        let b = s.drop_last();
        assert(number::all_digits(b)) by {
            assert(forall|i: int| 0 <= i < b.len() ==> b[i] == s[i]);
        }
        lemma_digits_val_bounds(b);
        assert(number::is_digit(s.last()));
        assert(0 <= number::digit_val(s.last()) < 10);
        if s.len() >= 1 && number::digit_val(s[0]) >= 1 {
            if s.len() == 1 {
                assert(number::digits_val(s) == number::digits_val(b) * 10 + number::digit_val(
                    s.last(),
                ));
            } else {
                assert(b[0] == s[0]);
                assert(number::digits_val(b) >= pow10((b.len() - 1) as nat));
            }
        }
    }
}

/// A digit string holds no dot.
pub proof fn lemma_digits_no_dot(s: Seq<char>)
    requires
        number::all_digits(s),
    ensures
        number::first_dot_idx(s) == s.len(),
    decreases s.len(),
{
    if s.len() == 0 {
    } else {
        assert(number::is_digit(s[0]));
        assert(s[0] != '.');
        let t = s.skip(1);
        assert(number::all_digits(t)) by {
            assert(forall|i: int| 0 <= i < t.len() ==> t[i] == s[i + 1]);
        }
        lemma_digits_no_dot(t);
    }
}

/// The epoch unit boundary: a bare digit string is read as an epoch count
/// whose unit follows its digit count — ten digits are seconds, thirteen
/// milliseconds, sixteen microseconds, and seventeen or more nanoseconds.
pub proof fn lemma_epoch_unit_boundary(s: Seq<char>)
    requires
        number::all_digits(s),
        s.len() >= 1,
        number::digit_val(s[0]) >= 1,
    ensures
        s.len() == 10 ==> number::from_unix_timestamp_spec(s) == calendar::epoch_timestamp(
            number::digits_val(s) as i64,
            0u32,
        ),
        s.len() == 13 ==> number::from_unix_timestamp_spec(s) == calendar::epoch_timestamp(
            (number::digits_val(s) / 1000) as i64,
            ((number::digits_val(s) % 1000) * 1_000_000) as u32,
        ),
        s.len() == 16 ==> number::from_unix_timestamp_spec(s) == calendar::epoch_timestamp(
            (number::digits_val(s) / 1_000_000) as i64,
            ((number::digits_val(s) % 1_000_000) * 1000) as u32,
        ),
        s.len() >= 17 ==> {
            let n = number::clamp_i64(false, number::digits_val(s));
            n > 9_999_999_999_999_999 && number::from_unix_timestamp_spec(s)
                == calendar::epoch_timestamp(
                (n as int / 1_000_000_000) as i64,
                (n as int % 1_000_000_000) as u32,
            )
        },
{
    assert(pow10(0) == 1);
    assert(pow10(1) == 10);
    assert(pow10(2) == 100);
    assert(pow10(3) == 1000);
    assert(pow10(4) == 10000);
    assert(pow10(5) == 100000);
    assert(pow10(6) == 1000000);
    assert(pow10(7) == 10000000);
    assert(pow10(8) == 100000000);
    assert(pow10(9) == 1000000000);
    assert(pow10(10) == 10000000000);
    assert(pow10(11) == 100000000000);
    assert(pow10(12) == 1000000000000);
    assert(pow10(13) == 10000000000000);
    assert(pow10(14) == 100000000000000);
    assert(pow10(15) == 1000000000000000);
    assert(pow10(16) == 10000000000000000);
    lemma_digits_val_bounds(s);
    lemma_digits_no_dot(s);
    let v = number::digits_val(s);
    assert(number::is_digit(s[0]));
    assert(s[0] != '-' && s[0] != '+');
    assert(number::strip_sign(s) == (false, s));
    assert(number::number_value(s) == Some(number::clamp_i64(false, v)));
    if s.len() >= 17 {
        assert(v >= pow10(16)) by {
            if s.len() == 17 {
            } else {
                lemma_pow10_increases(16nat, (s.len() - 1) as nat);
            }
        }
    }
}

/// `pow10` is positive.
pub proof fn lemma_pow10_pos(n: nat)
    ensures
        pow10(n) >= 1,
    decreases n,
{
    if n > 0 {
        lemma_pow10_pos((n - 1) as nat);
    }
}

/// `pow10` does not decrease as the exponent grows.
pub proof fn lemma_pow10_increases(a: nat, b: nat)
    requires
        a <= b,
    ensures
        pow10(a) <= pow10(b),
    decreases b - a,
{
    if a < b {
        lemma_pow10_increases(a, (b - 1) as nat);
        assert(pow10(b) == 10 * pow10((b - 1) as nat));
        lemma_pow10_pos((b - 1) as nat);
    }
}

/// Separator normalization: rewriting `.` and `/` to `-` in the
/// eight-character date prefix does not change what the parser sees, so
/// the rewritten input parses to the identical result. (For inputs of
/// fewer than eight characters the preprocessor leaves separators alone,
/// and the two spellings can genuinely differ.)
pub proof fn lemma_separator_normalization(s: Seq<char>, c: Clock)
    requires
        s.len() >= 8,
    ensures
        normalize::standardize_seq(normalize::dash_prefix(s)) == normalize::standardize_seq(s),
        parse_spec(normalize::dash_prefix(s), c) == parse_spec(s, c),
{
    let t = normalize::dash_prefix(s);
    assert(t.len() == s.len());
    assert(t.take(8) =~= s.take(8).map_values(|x: char| normalize::dash_char(x)));
    assert(t.skip(8) =~= s.skip(8));
    assert(t.take(8).map_values(|x: char| normalize::dash_char(x)) =~= s.take(8).map_values(
        |x: char| normalize::dash_char(x),
    )) by {
        let m = s.take(8).map_values(|x: char| normalize::dash_char(x));
        assert(forall|i: int|
            0 <= i < 8 ==> #[trigger] m[i] == normalize::dash_char(s.take(8)[i]));
        assert(forall|i: int|
            0 <= i < 8 ==> normalize::dash_char(normalize::dash_char(s.take(8)[i]))
                == normalize::dash_char(s.take(8)[i]));
    }
    assert(normalize::dash_prefix(t) =~= normalize::dash_prefix(s));
}

/// Precedence determinism: when the interpreter at position `i` accepts
/// the preprocessed input and every interpreter before it rejects it, the
/// chain returns exactly interpreter `i`'s result — a lower chain index
/// always wins.
pub proof fn lemma_precedence_determinism(raw: Seq<char>, c: Clock, i: int)
    requires
        raw.len() > 0,
        0 <= i < strategy_count(),
        strategy_spec(i, normalize::standardize_seq(raw), c) is Some,
        forall|j: int| 0 <= j < i ==> strategy_spec(j, normalize::standardize_seq(raw), c) is None,
    ensures
        parse_spec(raw, c) == Ok::<Timestamp, ParseError>(
            strategy_spec(i, normalize::standardize_seq(raw), c).unwrap(),
        ),
{
    let w = normalize::standardize_seq(raw);
    lemma_chain_first(i, 0, w, c);
}

/// The first success among interpreters `k..` is interpreter `i`'s result
/// when `i` accepts and every interpreter in `k..i` rejects.
pub proof fn lemma_chain_first(i: int, k: int, s: Seq<char>, c: Clock)
    requires
        0 <= k <= i < strategy_count(),
        strategy_spec(i, s, c) is Some,
        forall|j: int| k <= j < i ==> strategy_spec(j, s, c) is None,
    ensures
        chain_from(k, s, c) == strategy_spec(i, s, c),
    decreases i - k,
{
    if k < i {
        lemma_chain_first(i, k + 1, s, c);
    }
}

/// The failure taxonomy, exactly: the empty-input failure comes on the
/// empty string and on nothing else; the no-strategy failure comes exactly
/// when the input is non-empty and every interpreter rejects it; and a
/// timestamp comes exactly when some interpreter accepts.
pub proof fn lemma_error_classification(raw: Seq<char>, c: Clock)
    ensures
        parse_spec(raw, c) == Err::<Timestamp, ParseError>(ParseError::EmptyInput) <==> raw.len()
            == 0,
        parse_spec(raw, c) == Err::<Timestamp, ParseError>(ParseError::NoStrategyMatched) <==> (
        raw.len() > 0 && chain_from(0, normalize::standardize_seq(raw), c) is None),
        parse_spec(raw, c) is Ok <==> (raw.len() > 0 && chain_from(
            0,
            normalize::standardize_seq(raw),
            c,
        ) is Some),
{
}

/// Missing-offset substitution, per interpreter: every interpreter that
/// handles input without explicit offset information — the compound
/// date+time, date-only, time-only and token-count-heuristic interpreters
/// — attaches exactly the clock's current local offset to its result.
pub proof fn lemma_missing_offset_substitution(s: Seq<char>, c: Clock)
    ensures
        strategies::from_datetime_without_tz_spec(s, c) matches Some(t) ==> t.offset_secs
            == c.offset_secs,
        strategies::from_date_without_tz_spec(s, c) matches Some(t) ==> t.offset_secs
            == c.offset_secs,
        strategies::from_time_without_tz_spec(s, c) matches Some(t) ==> t.offset_secs
            == c.offset_secs,
        strategies::try_others_spec(s, c) matches Some(t) ==> t.offset_secs == c.offset_secs,
{
}

/// Missing-offset substitution, through the chain: when the first
/// interpreter to accept the input is one of those that substitute the
/// clock's offset, the timestamp the parse call returns carries exactly
/// that offset — not UTC and not any other default.
pub proof fn lemma_parse_substitutes_local_offset(raw: Seq<char>, c: Clock, i: int)
    requires
        raw.len() > 0,
        i == 3 || i == 4 || i == 5 || i == 11,
        strategy_spec(i, normalize::standardize_seq(raw), c) is Some,
        forall|j: int| 0 <= j < i ==> strategy_spec(j, normalize::standardize_seq(raw), c) is None,
    ensures
        parse_spec(raw, c) is Ok,
        parse_spec(raw, c).unwrap().offset_secs == c.offset_secs,
{
    let w = normalize::standardize_seq(raw);
    lemma_precedence_determinism(raw, c, i);
    lemma_missing_offset_substitution(w, c);
}

} // verus!
