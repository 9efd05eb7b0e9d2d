//! Parse date/time strings of many loosely-specified formats and normalize
//! them to a single timestamp representation with a fixed UTC offset.
//!
//! The entry points are [`parse_from`], which reads the process's local
//! clock, and [`parse_with_clock`], which takes the clock reading as an
//! argument and is a pure function of its inputs.

pub mod calendar;
pub mod laws;
pub mod normalize;
pub mod number;
pub mod strategies;
pub mod text;

use vstd::prelude::*;

pub use normalize::standardize_date;
pub use strategies::is_tz_alpha;

verus! {

/// A point in time paired with a concrete UTC offset.
///
/// `secs` and `nanos` locate the instant on the UTC timeline (seconds since
/// the epoch plus a sub-second part); `offset_secs` is the fixed offset,
/// in seconds east of UTC, that the value carries for display purposes.
#[derive(Clone, Copy, Debug)]
pub struct Timestamp {
    pub secs: i64,
    pub nanos: u32,
    pub offset_secs: i32,
}

/// Equality and ordering of timestamps go by the instant on the UTC
/// timeline — the `secs` and `nanos` pair — never by the offset: two
/// timestamps that denote the same instant under different offsets are
/// equal.
impl PartialEq for Timestamp {
    fn eq(&self, other: &Timestamp) -> (r: bool) {
        self.secs == other.secs && self.nanos == other.nanos
    }
}

impl vstd::std_specs::cmp::PartialEqSpecImpl for Timestamp {
    open spec fn obeys_eq_spec() -> bool {
        true
    }

    open spec fn eq_spec(&self, other: &Timestamp) -> bool {
        self.secs == other.secs && self.nanos == other.nanos
    }
}

impl PartialOrd for Timestamp {
    fn partial_cmp(&self, other: &Timestamp) -> (r: Option<core::cmp::Ordering>) {
        if self.secs < other.secs {
            Some(core::cmp::Ordering::Less)
        } else if self.secs > other.secs {
            Some(core::cmp::Ordering::Greater)
        } else if self.nanos < other.nanos {
            Some(core::cmp::Ordering::Less)
        } else if self.nanos > other.nanos {
            Some(core::cmp::Ordering::Greater)
        } else {
            Some(core::cmp::Ordering::Equal)
        }
    }
}

impl vstd::std_specs::cmp::PartialOrdSpecImpl for Timestamp {
    open spec fn obeys_partial_cmp_spec() -> bool {
        true
    }

    open spec fn partial_cmp_spec(&self, other: &Timestamp) -> Option<core::cmp::Ordering> {
        if self.secs < other.secs {
            Some(core::cmp::Ordering::Less)
        } else if self.secs > other.secs {
            Some(core::cmp::Ordering::Greater)
        } else if self.nanos < other.nanos {
            Some(core::cmp::Ordering::Less)
        } else if self.nanos > other.nanos {
            Some(core::cmp::Ordering::Greater)
        } else {
            Some(core::cmp::Ordering::Equal)
        }
    }
}

impl Timestamp {
    /// The instant this timestamp denotes, in nanoseconds since the epoch.
    /// Two timestamps with different offsets can denote the same instant.
    pub open spec fn instant(self) -> int {
        self.secs * 1_000_000_000 + self.nanos
    }

    /// Render the timestamp in RFC 3339 form, such as
    /// `1996-12-19T16:39:57-08:00`. `None` when the instant or the offset
    /// lies outside the range the calendar library can represent.
    pub fn to_rfc3339(&self) -> (r: Option<String>)
        ensures
            r is Some <==> (calendar::epoch_in_range(self.secs, self.nanos) && -86400
                < self.offset_secs < 86400),
            r matches Some(t) ==> t@ == calendar::rfc3339_text(
                self.secs,
                self.nanos,
                self.offset_secs,
            ),
    {
        calendar::format_rfc3339(self.secs, self.nanos, self.offset_secs)
    }
}

/// A date and time with no associated UTC offset, as seconds on a timeline
/// that counts from the epoch as if the wall readings were UTC.
#[derive(Clone, Copy, Debug)]
pub struct NaiveStamp {
    pub secs: i64,
    pub nanos: u32,
}

/// A reading of the process's clock: the current local UTC offset in
/// seconds east of UTC, and the current local calendar date. Interpreters
/// that must fill in a missing offset, date or year consult this value,
/// so parsing is a pure function of the input text and one `Clock`.
#[derive(Clone, Copy, Debug)]
pub struct Clock {
    pub offset_secs: i32,
    pub year: i32,
    pub month: u32,
    pub day: u32,
}

impl Clock {
    /// What every real clock reading satisfies: the offset is less than a
    /// day in magnitude and the calendar components are in range.
    pub open spec fn wf(self) -> bool {
        &&& -86400 < self.offset_secs < 86400
        &&& 1 <= self.month <= 12
        &&& 1 <= self.day <= 31
    }
}

/// Why a parse call returned no timestamp.
#[derive(Clone, Copy, Debug, PartialEq, Eq, Structural)]
pub enum ParseError {
    /// The input was the empty string; no interpreter was tried.
    EmptyInput,
    /// Every interpreter in the chain rejected the input.
    NoStrategyMatched,
}

impl ParseError {
    /// A short description of the failure.
    pub fn message(&self) -> (r: &'static str)
        ensures
            *self is EmptyInput ==> r@ == "cannot be empty"@,
            *self is NoStrategyMatched ==> r@ == "no format matched the input"@,
    {
        match self {
            ParseError::EmptyInput => "cannot be empty",
            ParseError::NoStrategyMatched => "no format matched the input",
        }
    }
}

/// The interpreter at position `i` of the precedence chain, applied to the
/// preprocessed input `s` under the clock reading `c`.
pub open spec fn strategy_spec(i: int, s: Seq<char>, c: Clock) -> Option<Timestamp> {
    if i == 0 {
        number::from_unix_timestamp_spec(s)
    } else if i == 1 {
        calendar::datetime_fmt_parse(s, "%+"@)
    } else if i == 2 {
        strategies::from_datetime_with_tz_spec(s)
    } else if i == 3 {
        strategies::from_datetime_without_tz_spec(s, c)
    } else if i == 4 {
        strategies::from_date_without_tz_spec(s, c)
    } else if i == 5 {
        strategies::from_time_without_tz_spec(s, c)
    } else if i == 6 {
        strategies::from_time_with_tz_spec(s, c)
    } else if i == 7 {
        strategies::try_yms_hms_tz_spec(s)
    } else if i == 8 {
        strategies::try_dmmmy_hms_tz_spec(s)
    } else if i == 9 {
        strategies::try_mmmddyyyy_hms_tz_spec(s)
    } else if i == 10 {
        strategies::from_datetime_with_tz_before_year_spec(s)
    } else if i == 11 {
        strategies::try_others_spec(s, c)
    } else {
        None
    }
}

/// The number of interpreters in the chain.
pub open spec fn strategy_count() -> int {
    12
}

/// The first success among the interpreters at positions `i` and later.
pub open spec fn chain_from(i: int, s: Seq<char>, c: Clock) -> Option<Timestamp>
    decreases strategy_count() - i,
{
    if i < 0 || i >= strategy_count() {
        None
    } else {
        strategies::orelse(strategy_spec(i, s, c), chain_from(i + 1, s, c))
    }
}

/// What a parse call returns for the raw input `raw` under the clock
/// reading `c`: the empty input is rejected outright; otherwise the input
/// is preprocessed and the interpreters run in order, the first success
/// winning; when all reject, the call fails.
pub open spec fn parse_spec(raw: Seq<char>, c: Clock) -> Result<Timestamp, ParseError> {
    if raw.len() == 0 {
        Err(ParseError::EmptyInput)
    } else {
        match chain_from(0, normalize::standardize_seq(raw), c) {
            Some(t) => Ok(t),
            None => Err(ParseError::NoStrategyMatched),
        }
    }
}

/// Interpret `date_time` under the clock reading `clock` and return the
/// normalized timestamp, or the reason no interpretation succeeded. A pure
/// function of its two arguments.
pub fn parse_with_clock(date_time: &str, clock: Clock) -> (r: Result<Timestamp, ParseError>)
    ensures
        r == parse_spec(date_time@, clock),
{
    let v = text::chars_of_str(date_time);
    if v.len() == 0 {
        return Err(ParseError::EmptyInput);
    }
    let w = normalize::standardize_chars(&v);
    let mut r = number::from_unix_timestamp(&w);
    if r.is_none() {
        r = calendar::parse_datetime_fmt(&w, "%+");
    }
    if r.is_none() {
        r = strategies::from_datetime_with_tz(&w);
    }
    if r.is_none() {
        r = strategies::from_datetime_without_tz(&w, clock);
    }
    if r.is_none() {
        r = strategies::from_date_without_tz(&w, clock);
    }
    if r.is_none() {
        r = strategies::from_time_without_tz(&w, clock);
    }
    if r.is_none() {
        r = strategies::from_time_with_tz(&w, clock);
    }
    if r.is_none() {
        r = strategies::try_yms_hms_tz(&w);
    }
    if r.is_none() {
        r = strategies::try_dmmmy_hms_tz(&w);
    }
    if r.is_none() {
        r = strategies::try_mmmddyyyy_hms_tz(&w);
    }
    if r.is_none() {
        r = strategies::from_datetime_with_tz_before_year(&w);
    }
    if r.is_none() {
        r = strategies::try_others(&w, clock);
    }
    proof {
        reveal_with_fuel(chain_from, 13);
    }
    match r {
        Some(t) => Ok(t),
        None => Err(ParseError::NoStrategyMatched),
    }
}

/// Interpret `date_time` under the process's current local clock: the
/// result is what [`parse_with_clock`] returns for some well-formed clock
/// reading.
pub fn parse_from(date_time: &str) -> (r: Result<Timestamp, ParseError>)
    ensures
        exists|c: Clock| c.wf() && r == parse_spec(date_time@, c),
{
    let clock = calendar::read_local_clock();
    let r = parse_with_clock(date_time, clock);
    proof {
        assert(clock.wf() && r == parse_spec(date_time@, clock));
    }
    r
}

/// The normalized result of parsing a date/time string: a timestamp with
/// a concrete fixed UTC offset.
///
/// ## Example usage:
/// ```
/// use datetime_parse::DateTimeFixedOffset;
///
/// let date_str = "Mon, 6 Jul 1970 15:30:00 PDT";
/// let result = date_str.parse::<DateTimeFixedOffset>();
/// assert!(result.is_ok());
/// match result {
///     Ok(parsed) => println!("{} => {:?}", date_str, parsed.0),
///     Err(e) => println!("Error: {}", e.message()),
/// }
/// ```
#[derive(Clone, Copy, Debug)]
pub struct DateTimeFixedOffset(pub Timestamp);

impl core::str::FromStr for DateTimeFixedOffset {
    type Err = ParseError;

    fn from_str(s: &str) -> Result<Self, ParseError> {
        match parse_from(s) {
            Ok(t) => Ok(DateTimeFixedOffset(t)),
            Err(e) => Err(e),
        }
    }
}

} // verus!
