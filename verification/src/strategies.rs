//! The candidate interpreters. Each one attempts to consume the whole
//! preprocessed input under one family of layouts and yields a
//! [`Timestamp`], or nothing; the chain in the crate root tries them in a
//! fixed precedence order.

use vstd::prelude::*;

use crate::calendar;
use crate::text;
use crate::{Clock, NaiveStamp, Timestamp};

verus! {

/// The first of `a` and `b` that holds a value.
pub open spec fn orelse<T>(a: Option<T>, b: Option<T>) -> Option<T> {
    if a is Some {
        a
    } else {
        b
    }
}

/// A naive reading resolved against the offset `off` (seconds east of
/// UTC): the instant whose local wall reading the naive value is. `None`
/// only when the subtraction leaves `i64`.
pub open spec fn attach_offset_spec(ns: NaiveStamp, off: i32) -> Option<Timestamp> {
    if i64::MIN <= ns.secs - (off as i64) <= i64::MAX {
        Some(
            Timestamp {
                secs: (ns.secs - (off as i64)) as i64,
                nanos: ns.nanos,
                offset_secs: off,
            },
        )
    } else {
        None
    }
}

pub(crate) fn attach_offset(ns: NaiveStamp, off: i32) -> (r: Option<Timestamp>)
    ensures
        r == attach_offset_spec(ns, off),
{
    match ns.secs.checked_sub(off as i64) {
        Some(utc) => Some(Timestamp { secs: utc, nanos: ns.nanos, offset_secs: off }),
        None => None,
    }
}

/// How the trailing token of `s` is classified as a zone candidate: trim
/// `s`, split it at its last space (an input without a space has an empty
/// date part and is all zone candidate), and accept when the candidate is
/// entirely alphabetic. The date part and the candidate are returned.
pub open spec fn is_tz_alpha_spec(s: Seq<char>) -> Option<(Seq<char>, Seq<char>)> {
    let t = text::trim_seq(s);
    let p = match text::split_last_space(t) {
        Some(q) => q,
        None => (Seq::<char>::empty(), t),
    };
    if text::all_alphabetic(p.1) {
        Some(p)
    } else {
        None
    }
}

pub(crate) fn is_tz_alpha_chars(v: &Vec<char>) -> (r: Option<(Vec<char>, Vec<char>)>)
    ensures
        match r {
            Some(p) => is_tz_alpha_spec(v@) == Some((p.0@, p.1@)),
            None => is_tz_alpha_spec(v@) is None,
        },
{
    let t = text::trim_chars(v);
    let empty: Vec<char> = Vec::new();
    proof {
        assert(empty@ =~= Seq::<char>::empty());
    }
    let (dt, tz): (Vec<char>, Vec<char>) = match text::split_at_last_space(&t) {
        Some(p) => p,
        None => (empty, t),
    };
    if text::check_all_alphabetic(&tz) {
        Some((dt, tz))
    } else {
        None
    }
}

/// Split the trimmed input at its last space and classify the trailing
/// token as a zone candidate: the candidate must be entirely alphabetic.
/// Returns the part before the split and the candidate.
pub fn is_tz_alpha(s: &str) -> (r: Option<(String, String)>)
    ensures
        match r {
            Some(p) => is_tz_alpha_spec(s@) == Some((p.0@, p.1@)),
            None => is_tz_alpha_spec(s@) is None,
        },
{
    let v = text::chars_of_str(s);
    match is_tz_alpha_chars(&v) {
        Some((dt, tz)) => Some((text::string_of_chars(&dt), text::string_of_chars(&tz))),
        None => None,
    }
}

/// The first fifth of the layouts the zone resolver tries.
pub open spec fn resolver_naive_a(s: Seq<char>) -> Option<NaiveStamp> {
    orelse(
        calendar::naive_fmt_parse(s, "%Y-%m-%d %H:%M:%S"@),
        orelse(
            calendar::naive_fmt_parse(s, "%Y-%m-%d %I:%M%P"@),
            orelse(
                calendar::naive_fmt_parse(s, "%Y-%m-%d %I:%M %P"@),
                orelse(
                    calendar::naive_fmt_parse(s, "%Y-%m-%d %H:%M"@),
                    orelse(
                        calendar::naive_fmt_parse(s, "%d %B %Y %T"@),
                        orelse(
                            calendar::naive_fmt_parse(s, "%d %B %Y %T.%f"@),
                            orelse(
                                calendar::naive_fmt_parse(s, "%B %d %Y %H:%M"@),
                                orelse(
                                    calendar::naive_fmt_parse(s, "%B %d %Y %T"@),
                                    orelse(
                                        calendar::naive_fmt_parse(s, "%B %d %Y %T.%f"@),
                                        calendar::naive_fmt_parse(s, "%A %B %d %Y %T.%f"@),
                                    ),
                                ),
                            ),
                        ),
                    ),
                ),
            ),
        ),
    )
}

fn resolver_naive_a_exec(v: &Vec<char>) -> (r: Option<NaiveStamp>)
    ensures
        r == resolver_naive_a(v@),
{
    let mut r = calendar::parse_naive_fmt(v, "%Y-%m-%d %H:%M:%S");
    if r.is_none() {
        r = calendar::parse_naive_fmt(v, "%Y-%m-%d %I:%M%P");
    }
    if r.is_none() {
        r = calendar::parse_naive_fmt(v, "%Y-%m-%d %I:%M %P");
    }
    if r.is_none() {
        r = calendar::parse_naive_fmt(v, "%Y-%m-%d %H:%M");
    }
    if r.is_none() {
        r = calendar::parse_naive_fmt(v, "%d %B %Y %T");
    }
    if r.is_none() {
        r = calendar::parse_naive_fmt(v, "%d %B %Y %T.%f");
    }
    if r.is_none() {
        r = calendar::parse_naive_fmt(v, "%B %d %Y %H:%M");
    }
    if r.is_none() {
        r = calendar::parse_naive_fmt(v, "%B %d %Y %T");
    }
    if r.is_none() {
        r = calendar::parse_naive_fmt(v, "%B %d %Y %T.%f");
    }
    if r.is_none() {
        r = calendar::parse_naive_fmt(v, "%A %B %d %Y %T.%f");
    }
    r
}

/// The second fifth of the layouts the zone resolver tries.
pub open spec fn resolver_naive_b(s: Seq<char>) -> Option<NaiveStamp> {
    orelse(
        calendar::naive_fmt_parse(s, "%A %B %d %Y %T"@),
        orelse(
            calendar::naive_fmt_parse(s, "%A %d %B %Y %T"@),
            orelse(
                calendar::naive_fmt_parse(s, "%A %d %B %Y %T.%f"@),
                orelse(
                    calendar::naive_fmt_parse(s, "%A %d %m %Y %T.%f"@),
                    orelse(
                        calendar::naive_fmt_parse(s, "%A %d %m %Y %T"@),
                        orelse(
                            calendar::naive_fmt_parse(s, "%A %d %m %Y %T"@),
                            orelse(
                                calendar::naive_fmt_parse(s, "%A %d %m %Y %T.%f"@),
                                orelse(
                                    calendar::naive_fmt_parse(s, "%A %d %m %T.%f %Y"@),
                                    orelse(
                                        calendar::naive_fmt_parse(s, "%A %d %m %T %Y"@),
                                        calendar::naive_fmt_parse(s, "%A %d %B %T.%f %Y"@),
                                    ),
                                ),
                            ),
                        ),
                    ),
                ),
            ),
        ),
    )
}

fn resolver_naive_b_exec(v: &Vec<char>) -> (r: Option<NaiveStamp>)
    ensures
        r == resolver_naive_b(v@),
{
    let mut r = calendar::parse_naive_fmt(v, "%A %B %d %Y %T");
    if r.is_none() {
        r = calendar::parse_naive_fmt(v, "%A %d %B %Y %T");
    }
    if r.is_none() {
        r = calendar::parse_naive_fmt(v, "%A %d %B %Y %T.%f");
    }
    if r.is_none() {
        r = calendar::parse_naive_fmt(v, "%A %d %m %Y %T.%f");
    }
    if r.is_none() {
        r = calendar::parse_naive_fmt(v, "%A %d %m %Y %T");
    }
    if r.is_none() {
        r = calendar::parse_naive_fmt(v, "%A %d %m %Y %T");
    }
    if r.is_none() {
        r = calendar::parse_naive_fmt(v, "%A %d %m %Y %T.%f");
    }
    if r.is_none() {
        r = calendar::parse_naive_fmt(v, "%A %d %m %T.%f %Y");
    }
    if r.is_none() {
        r = calendar::parse_naive_fmt(v, "%A %d %m %T %Y");
    }
    if r.is_none() {
        r = calendar::parse_naive_fmt(v, "%A %d %B %T.%f %Y");
    }
    r
}

/// The third fifth of the layouts the zone resolver tries.
pub open spec fn resolver_naive_c(s: Seq<char>) -> Option<NaiveStamp> {
    orelse(
        calendar::naive_fmt_parse(s, "%A %d %B %T %Y"@),
        orelse(
            calendar::naive_fmt_parse(s, "%A %B %d %T.%f %Y"@),
            orelse(
                calendar::naive_fmt_parse(s, "%A %B %d %T %Y"@),
                orelse(
                    calendar::naive_fmt_parse(s, "%A %m %d %H:%M %Y"@),
                    orelse(
                        calendar::naive_fmt_parse(s, "%A %d %m %H:%M %Y"@),
                        orelse(
                            calendar::naive_fmt_parse(s, "%A %d %B %H:%M %Y"@),
                            orelse(
                                calendar::naive_fmt_parse(s, "%A %B %d %H:%M %Y"@),
                                orelse(
                                    calendar::naive_fmt_parse(s, "%A %m %d %I:%M%P %Y"@),
                                    orelse(
                                        calendar::naive_fmt_parse(s, "%A %d %m %I:%M%P %Y"@),
                                        calendar::naive_fmt_parse(s, "%A %d %B %I:%M %P %Y"@),
                                    ),
                                ),
                            ),
                        ),
                    ),
                ),
            ),
        ),
    )
}

fn resolver_naive_c_exec(v: &Vec<char>) -> (r: Option<NaiveStamp>)
    ensures
        r == resolver_naive_c(v@),
{
    let mut r = calendar::parse_naive_fmt(v, "%A %d %B %T %Y");
    if r.is_none() {
        r = calendar::parse_naive_fmt(v, "%A %B %d %T.%f %Y");
    }
    if r.is_none() {
        r = calendar::parse_naive_fmt(v, "%A %B %d %T %Y");
    }
    if r.is_none() {
        r = calendar::parse_naive_fmt(v, "%A %m %d %H:%M %Y");
    }
    if r.is_none() {
        r = calendar::parse_naive_fmt(v, "%A %d %m %H:%M %Y");
    }
    if r.is_none() {
        r = calendar::parse_naive_fmt(v, "%A %d %B %H:%M %Y");
    }
    if r.is_none() {
        r = calendar::parse_naive_fmt(v, "%A %B %d %H:%M %Y");
    }
    if r.is_none() {
        r = calendar::parse_naive_fmt(v, "%A %m %d %I:%M%P %Y");
    }
    if r.is_none() {
        r = calendar::parse_naive_fmt(v, "%A %d %m %I:%M%P %Y");
    }
    if r.is_none() {
        r = calendar::parse_naive_fmt(v, "%A %d %B %I:%M %P %Y");
    }
    r
}

/// The fourth fifth of the layouts the zone resolver tries.
pub open spec fn resolver_naive_d(s: Seq<char>) -> Option<NaiveStamp> {
    orelse(
        calendar::naive_fmt_parse(s, "%A %d %B %I:%M%P %Y"@),
        orelse(
            calendar::naive_fmt_parse(s, "%A %B %d %I:%M %P %Y"@),
            orelse(
                calendar::naive_fmt_parse(s, "%A %B %d %I:%M%P %Y"@),
                orelse(
                    calendar::naive_fmt_parse(s, "%d %m %T.%f %Y"@),
                    orelse(
                        calendar::naive_fmt_parse(s, "%d %m %T %Y"@),
                        orelse(
                            calendar::naive_fmt_parse(s, "%d %B %T.%f %Y"@),
                            orelse(
                                calendar::naive_fmt_parse(s, "%d %B %T %Y"@),
                                orelse(
                                    calendar::naive_fmt_parse(s, "%B %d %T.%f %Y"@),
                                    orelse(
                                        calendar::naive_fmt_parse(s, "%B %d %T %Y"@),
                                        calendar::naive_fmt_parse(s, "%m %d %I:%M %Y"@),
                                    ),
                                ),
                            ),
                        ),
                    ),
                ),
            ),
        ),
    )
}

fn resolver_naive_d_exec(v: &Vec<char>) -> (r: Option<NaiveStamp>)
    ensures
        r == resolver_naive_d(v@),
{
    let mut r = calendar::parse_naive_fmt(v, "%A %d %B %I:%M%P %Y");
    if r.is_none() {
        r = calendar::parse_naive_fmt(v, "%A %B %d %I:%M %P %Y");
    }
    if r.is_none() {
        r = calendar::parse_naive_fmt(v, "%A %B %d %I:%M%P %Y");
    }
    if r.is_none() {
        r = calendar::parse_naive_fmt(v, "%d %m %T.%f %Y");
    }
    if r.is_none() {
        r = calendar::parse_naive_fmt(v, "%d %m %T %Y");
    }
    if r.is_none() {
        r = calendar::parse_naive_fmt(v, "%d %B %T.%f %Y");
    }
    if r.is_none() {
        r = calendar::parse_naive_fmt(v, "%d %B %T %Y");
    }
    if r.is_none() {
        r = calendar::parse_naive_fmt(v, "%B %d %T.%f %Y");
    }
    if r.is_none() {
        r = calendar::parse_naive_fmt(v, "%B %d %T %Y");
    }
    if r.is_none() {
        r = calendar::parse_naive_fmt(v, "%m %d %I:%M %Y");
    }
    r
}

/// The last fifth of the layouts the zone resolver tries.
pub open spec fn resolver_naive_e(s: Seq<char>) -> Option<NaiveStamp> {
    orelse(
        calendar::naive_fmt_parse(s, "%d %m %I:%M %Y"@),
        orelse(
            calendar::naive_fmt_parse(s, "%d %B %I:%M %Y"@),
            orelse(
                calendar::naive_fmt_parse(s, "%B %d %I:%M %Y"@),
                orelse(
                    calendar::naive_fmt_parse(s, "%m %d %I:%M%P %Y"@),
                    orelse(
                        calendar::naive_fmt_parse(s, "%d %m %I:%M%P %Y"@),
                        orelse(
                            calendar::naive_fmt_parse(s, "%d %B %I:%M %P %Y"@),
                            orelse(
                                calendar::naive_fmt_parse(s, "%d %B %I:%M%P %Y"@),
                                orelse(
                                    calendar::naive_fmt_parse(s, "%B %d %I:%M %P %Y"@),
                                    calendar::naive_fmt_parse(s, "%B %d %I:%M%P %Y"@),
                                ),
                            ),
                        ),
                    ),
                ),
            ),
        ),
    )
}

fn resolver_naive_e_exec(v: &Vec<char>) -> (r: Option<NaiveStamp>)
    ensures
        r == resolver_naive_e(v@),
{
    let mut r = calendar::parse_naive_fmt(v, "%d %m %I:%M %Y");
    if r.is_none() {
        r = calendar::parse_naive_fmt(v, "%d %B %I:%M %Y");
    }
    if r.is_none() {
        r = calendar::parse_naive_fmt(v, "%B %d %I:%M %Y");
    }
    if r.is_none() {
        r = calendar::parse_naive_fmt(v, "%m %d %I:%M%P %Y");
    }
    if r.is_none() {
        r = calendar::parse_naive_fmt(v, "%d %m %I:%M%P %Y");
    }
    if r.is_none() {
        r = calendar::parse_naive_fmt(v, "%d %B %I:%M %P %Y");
    }
    if r.is_none() {
        r = calendar::parse_naive_fmt(v, "%d %B %I:%M%P %Y");
    }
    if r.is_none() {
        r = calendar::parse_naive_fmt(v, "%B %d %I:%M %P %Y");
    }
    if r.is_none() {
        r = calendar::parse_naive_fmt(v, "%B %d %I:%M%P %Y");
    }
    r
}

/// The naive reading the zone resolver takes from the date/time fragment:
/// the first of its layouts that parses the whole fragment.
pub open spec fn resolver_naive_spec(s: Seq<char>) -> Option<NaiveStamp> {
    orelse(
        resolver_naive_a(s),
        orelse(
            resolver_naive_b(s),
            orelse(resolver_naive_c(s), orelse(resolver_naive_d(s), resolver_naive_e(s))),
        ),
    )
}

/// What the shared zone resolver yields for a date/time fragment `dt` and
/// a zone token `tz`: the fragment's naive reading reformatted as an RFC
/// 2822 date-time with `tz` appended, handed to the RFC 2822 parser (which
/// resolves the zone token or rejects it).
pub open spec fn to_rfc2822_spec(dt: Seq<char>, tz: Seq<char>) -> Option<Timestamp> {
    match resolver_naive_spec(dt) {
        None => None,
        Some(ns) => if calendar::epoch_in_range(ns.secs, 0) {
            calendar::rfc2822_parse(calendar::rfc2822_prefix(ns.secs) + seq![' '] + tz)
        } else {
            None
        },
    }
}

/// Resolve the date/time fragment `dt` against the zone token `tz` through
/// the RFC 2822 parser.
pub(crate) fn to_rfc2822(dt: &Vec<char>, tz: &Vec<char>) -> (r: Option<Timestamp>)
    ensures
        r == to_rfc2822_spec(dt@, tz@),
{
    let mut ns = resolver_naive_a_exec(dt);
    if ns.is_none() {
        ns = resolver_naive_b_exec(dt);
    }
    if ns.is_none() {
        ns = resolver_naive_c_exec(dt);
    }
    if ns.is_none() {
        ns = resolver_naive_d_exec(dt);
    }
    if ns.is_none() {
        ns = resolver_naive_e_exec(dt);
    }
    match ns {
        None => None,
        Some(ns) => {
            match calendar::format_rfc2822_prefix(ns.secs) {
                None => None,
                Some(prefix) => {
                    let mut buf = text::chars_of_str(prefix.as_str());
                    buf.push(' ');
                    text::append_chars(&mut buf, tz);
                    proof {
                        assert(buf@ =~= calendar::rfc2822_prefix(ns.secs) + seq![' '] + tz@);
                    }
                    calendar::parse_rfc2822(&buf)
                },
            }
        },
    }
}

/// The first half of the explicit-offset layouts.
pub open spec fn with_tz_fmt_a(s: Seq<char>) -> Option<Timestamp> {
    orelse(
        calendar::datetime_fmt_parse(s, "%Y-%m-%dT%T%.f%z"@),
        orelse(
            calendar::datetime_fmt_parse(s, "%Y-%m-%d %T%#z"@),
            orelse(
                calendar::datetime_fmt_parse(s, "%Y-%m-%d %T.%f%#z"@),
                orelse(
                    calendar::datetime_fmt_parse(s, "%B %d %Y %T %#z"@),
                    orelse(
                        calendar::datetime_fmt_parse(s, "%B %d %Y %T.%f%#z"@),
                        orelse(
                            calendar::datetime_fmt_parse(s, "%A %d %B %Y %T.%f%#z"@),
                            orelse(
                                calendar::datetime_fmt_parse(s, "%A %d %B %Y %T %#z"@),
                                orelse(
                                    calendar::datetime_fmt_parse(s, "%A %d %B %T %#z %Y"@),
                                    calendar::datetime_fmt_parse(s, "%A %B %d %T %#z %Y"@),
                                ),
                            ),
                        ),
                    ),
                ),
            ),
        ),
    )
}

fn with_tz_fmt_a_exec(v: &Vec<char>) -> (r: Option<Timestamp>)
    ensures
        r == with_tz_fmt_a(v@),
{
    let mut r = calendar::parse_datetime_fmt(v, "%Y-%m-%dT%T%.f%z");
    if r.is_none() {
        r = calendar::parse_datetime_fmt(v, "%Y-%m-%d %T%#z");
    }
    if r.is_none() {
        r = calendar::parse_datetime_fmt(v, "%Y-%m-%d %T.%f%#z");
    }
    if r.is_none() {
        r = calendar::parse_datetime_fmt(v, "%B %d %Y %T %#z");
    }
    if r.is_none() {
        r = calendar::parse_datetime_fmt(v, "%B %d %Y %T.%f%#z");
    }
    if r.is_none() {
        r = calendar::parse_datetime_fmt(v, "%A %d %B %Y %T.%f%#z");
    }
    if r.is_none() {
        r = calendar::parse_datetime_fmt(v, "%A %d %B %Y %T %#z");
    }
    if r.is_none() {
        r = calendar::parse_datetime_fmt(v, "%A %d %B %T %#z %Y");
    }
    if r.is_none() {
        r = calendar::parse_datetime_fmt(v, "%A %B %d %T %#z %Y");
    }
    r
}

/// The second half of the explicit-offset layouts.
pub open spec fn with_tz_fmt_b(s: Seq<char>) -> Option<Timestamp> {
    orelse(
        calendar::datetime_fmt_parse(s, "%A %d %B %T.%f %#z %Y"@),
        orelse(
            calendar::datetime_fmt_parse(s, "%A %B %d %T.%f %#z %Y"@),
            orelse(
                calendar::datetime_fmt_parse(s, "%A %d %B %H:%M %#z %Y"@),
                orelse(
                    calendar::datetime_fmt_parse(s, "%A %B %d %H:%M %#z %Y"@),
                    orelse(
                        calendar::datetime_fmt_parse(s, "%A %d %B %I:%M %P %#z %Y"@),
                        orelse(
                            calendar::datetime_fmt_parse(s, "%A %B %d %I:%M %P %#z %Y"@),
                            orelse(
                                calendar::datetime_fmt_parse(s, "%A %d %B %I:%M%P %#z %Y"@),
                                calendar::datetime_fmt_parse(s, "%A %B %d %I:%M%P %#z %Y"@),
                            ),
                        ),
                    ),
                ),
            ),
        ),
    )
}

fn with_tz_fmt_b_exec(v: &Vec<char>) -> (r: Option<Timestamp>)
    ensures
        r == with_tz_fmt_b(v@),
{
    let mut r = calendar::parse_datetime_fmt(v, "%A %d %B %T.%f %#z %Y");
    if r.is_none() {
        r = calendar::parse_datetime_fmt(v, "%A %B %d %T.%f %#z %Y");
    }
    if r.is_none() {
        r = calendar::parse_datetime_fmt(v, "%A %d %B %H:%M %#z %Y");
    }
    if r.is_none() {
        r = calendar::parse_datetime_fmt(v, "%A %B %d %H:%M %#z %Y");
    }
    if r.is_none() {
        r = calendar::parse_datetime_fmt(v, "%A %d %B %I:%M %P %#z %Y");
    }
    if r.is_none() {
        r = calendar::parse_datetime_fmt(v, "%A %B %d %I:%M %P %#z %Y");
    }
    if r.is_none() {
        r = calendar::parse_datetime_fmt(v, "%A %d %B %I:%M%P %#z %Y");
    }
    if r.is_none() {
        r = calendar::parse_datetime_fmt(v, "%A %B %d %I:%M%P %#z %Y");
    }
    r
}

/// What the explicit-offset interpreter yields: RFC 3339, then RFC 2822,
/// then the fixed textual layouts that carry a numeric or signed offset
/// token. The offset is taken verbatim from the input.
pub open spec fn from_datetime_with_tz_spec(s: Seq<char>) -> Option<Timestamp> {
    orelse(
        calendar::rfc3339_parse(s),
        orelse(calendar::rfc2822_parse(s), orelse(with_tz_fmt_a(s), with_tz_fmt_b(s))),
    )
}

pub(crate) fn from_datetime_with_tz(v: &Vec<char>) -> (r: Option<Timestamp>)
    ensures
        r == from_datetime_with_tz_spec(v@),
{
    let mut r = calendar::parse_rfc3339(v);
    if r.is_none() {
        r = calendar::parse_rfc2822(v);
    }
    if r.is_none() {
        r = with_tz_fmt_a_exec(v);
    }
    if r.is_none() {
        r = with_tz_fmt_b_exec(v);
    }
    r
}

/// The first half of the offset-less compound layouts.
pub open spec fn without_tz_fmt_a(s: Seq<char>) -> Option<NaiveStamp> {
    orelse(
        calendar::naive_fmt_parse(s, "%Y-%m-%dT%T"@),
        orelse(
            calendar::naive_fmt_parse(s, "%c"@),
            orelse(
                calendar::naive_fmt_parse(s, "%Y-%m-%dT%T.%f"@),
                orelse(
                    calendar::naive_fmt_parse(s, "%Y-%m-%d %T"@),
                    orelse(
                        calendar::naive_fmt_parse(s, "%Y-%m-%d %T.%f"@),
                        orelse(
                            calendar::naive_fmt_parse(s, "%Y %b %d %T"@),
                            orelse(
                                calendar::naive_fmt_parse(s, "%B %d %Y %T"@),
                                orelse(
                                    calendar::naive_fmt_parse(s, "%B %d %Y %T.%f"@),
                                    orelse(
                                        calendar::naive_fmt_parse(s, "%B %d, %Y %T"@),
                                        orelse(
                                            calendar::naive_fmt_parse(s, "%B %d, %Y %T.%f"@),
                                            orelse(
                                                calendar::naive_fmt_parse(s, "%Y-%m-%d %T"@),
                                                orelse(
                                                    calendar::naive_fmt_parse(s, "%Y-%m-%d %T.%f"@),
                                                    orelse(
                                                        calendar::naive_fmt_parse(
                                                            s,
                                                            "%A %d %B %Y %T.%f"@,
                                                        ),
                                                        orelse(
                                                            calendar::naive_fmt_parse(
                                                                s,
                                                                "%A %d %B %Y %T"@,
                                                            ),
                                                            orelse(
                                                                calendar::naive_fmt_parse(
                                                                    s,
                                                                    "%A %d %B %Y %I:%M%P"@,
                                                                ),
                                                                calendar::naive_fmt_parse(
                                                                    s,
                                                                    "%A %d %B %Y %I:%M %P"@,
                                                                ),
                                                            ),
                                                        ),
                                                    ),
                                                ),
                                            ),
                                        ),
                                    ),
                                ),
                            ),
                        ),
                    ),
                ),
            ),
        ),
    )
}

fn without_tz_fmt_a_exec(v: &Vec<char>) -> (r: Option<NaiveStamp>)
    ensures
        r == without_tz_fmt_a(v@),
{
    let mut r = calendar::parse_naive_fmt(v, "%Y-%m-%dT%T");
    if r.is_none() {
        r = calendar::parse_naive_fmt(v, "%c");
    }
    if r.is_none() {
        r = calendar::parse_naive_fmt(v, "%Y-%m-%dT%T.%f");
    }
    if r.is_none() {
        r = calendar::parse_naive_fmt(v, "%Y-%m-%d %T");
    }
    if r.is_none() {
        r = calendar::parse_naive_fmt(v, "%Y-%m-%d %T.%f");
    }
    if r.is_none() {
        r = calendar::parse_naive_fmt(v, "%Y %b %d %T");
    }
    if r.is_none() {
        r = calendar::parse_naive_fmt(v, "%B %d %Y %T");
    }
    if r.is_none() {
        r = calendar::parse_naive_fmt(v, "%B %d %Y %T.%f");
    }
    if r.is_none() {
        r = calendar::parse_naive_fmt(v, "%B %d, %Y %T");
    }
    if r.is_none() {
        r = calendar::parse_naive_fmt(v, "%B %d, %Y %T.%f");
    }
    if r.is_none() {
        r = calendar::parse_naive_fmt(v, "%Y-%m-%d %T");
    }
    if r.is_none() {
        r = calendar::parse_naive_fmt(v, "%Y-%m-%d %T.%f");
    }
    if r.is_none() {
        r = calendar::parse_naive_fmt(v, "%A %d %B %Y %T.%f");
    }
    if r.is_none() {
        r = calendar::parse_naive_fmt(v, "%A %d %B %Y %T");
    }
    if r.is_none() {
        r = calendar::parse_naive_fmt(v, "%A %d %B %Y %I:%M%P");
    }
    if r.is_none() {
        r = calendar::parse_naive_fmt(v, "%A %d %B %Y %I:%M %P");
    }
    r
}

/// The second half of the offset-less compound layouts.
pub open spec fn without_tz_fmt_b(s: Seq<char>) -> Option<NaiveStamp> {
    orelse(
        calendar::naive_fmt_parse(s, "%A %d %B %Y %I:%M:%S%P"@),
        orelse(
            calendar::naive_fmt_parse(s, "%A %d %B %Y %I:%M:%S %P"@),
            orelse(
                calendar::naive_fmt_parse(s, "%A %d %m %Y %I:%M%P"@),
                orelse(
                    calendar::naive_fmt_parse(s, "%A %d %m %Y %I:%M %P"@),
                    orelse(
                        calendar::naive_fmt_parse(s, "%A %d %m %Y %I:%M:%S%P"@),
                        orelse(
                            calendar::naive_fmt_parse(s, "%A %d %m %Y %I:%M:%S %P"@),
                            orelse(
                                calendar::naive_fmt_parse(s, "%d %B %Y %I:%M%P"@),
                                orelse(
                                    calendar::naive_fmt_parse(s, "%d %B %Y %I:%M %P"@),
                                    orelse(
                                        calendar::naive_fmt_parse(s, "%d %B %Y %I:%M:%S%P"@),
                                        orelse(
                                            calendar::naive_fmt_parse(s, "%d %B %Y %I:%M:%S %P"@),
                                            orelse(
                                                calendar::naive_fmt_parse(s, "%d %m %Y %I:%M%P"@),
                                                orelse(
                                                    calendar::naive_fmt_parse(
                                                        s,
                                                        "%d %m %Y %I:%M %P"@,
                                                    ),
                                                    orelse(
                                                        calendar::naive_fmt_parse(
                                                            s,
                                                            "%d %m %Y %I:%M:%S%P"@,
                                                        ),
                                                        orelse(
                                                            calendar::naive_fmt_parse(
                                                                s,
                                                                "%d %m %Y %I:%M:%S %P"@,
                                                            ),
                                                            orelse(
                                                                calendar::naive_fmt_parse(
                                                                    s,
                                                                    "%-m-%-d-%Y %-H:%-M:%-S %p"@,
                                                                ),
                                                                calendar::naive_fmt_parse(
                                                                    s,
                                                                    "%d %b %Y %H:%M:%S"@,
                                                                ),
                                                            ),
                                                        ),
                                                    ),
                                                ),
                                            ),
                                        ),
                                    ),
                                ),
                            ),
                        ),
                    ),
                ),
            ),
        ),
    )
}

fn without_tz_fmt_b_exec(v: &Vec<char>) -> (r: Option<NaiveStamp>)
    ensures
        r == without_tz_fmt_b(v@),
{
    let mut r = calendar::parse_naive_fmt(v, "%A %d %B %Y %I:%M:%S%P");
    if r.is_none() {
        r = calendar::parse_naive_fmt(v, "%A %d %B %Y %I:%M:%S %P");
    }
    if r.is_none() {
        r = calendar::parse_naive_fmt(v, "%A %d %m %Y %I:%M%P");
    }
    if r.is_none() {
        r = calendar::parse_naive_fmt(v, "%A %d %m %Y %I:%M %P");
    }
    if r.is_none() {
        r = calendar::parse_naive_fmt(v, "%A %d %m %Y %I:%M:%S%P");
    }
    if r.is_none() {
        r = calendar::parse_naive_fmt(v, "%A %d %m %Y %I:%M:%S %P");
    }
    if r.is_none() {
        r = calendar::parse_naive_fmt(v, "%d %B %Y %I:%M%P");
    }
    if r.is_none() {
        r = calendar::parse_naive_fmt(v, "%d %B %Y %I:%M %P");
    }
    if r.is_none() {
        r = calendar::parse_naive_fmt(v, "%d %B %Y %I:%M:%S%P");
    }
    if r.is_none() {
        r = calendar::parse_naive_fmt(v, "%d %B %Y %I:%M:%S %P");
    }
    if r.is_none() {
        r = calendar::parse_naive_fmt(v, "%d %m %Y %I:%M%P");
    }
    if r.is_none() {
        r = calendar::parse_naive_fmt(v, "%d %m %Y %I:%M %P");
    }
    if r.is_none() {
        r = calendar::parse_naive_fmt(v, "%d %m %Y %I:%M:%S%P");
    }
    if r.is_none() {
        r = calendar::parse_naive_fmt(v, "%d %m %Y %I:%M:%S %P");
    }
    if r.is_none() {
        r = calendar::parse_naive_fmt(v, "%-m-%-d-%Y %-H:%-M:%-S %p");
    }
    if r.is_none() {
        r = calendar::parse_naive_fmt(v, "%d %b %Y %H:%M:%S");
    }
    r
}

/// What the offset-less compound interpreter yields: the first of its
/// layouts that parses the whole input, resolved against the clock's
/// offset.
pub open spec fn from_datetime_without_tz_spec(s: Seq<char>, c: Clock) -> Option<Timestamp> {
    match orelse(without_tz_fmt_a(s), without_tz_fmt_b(s)) {
        None => None,
        Some(ns) => attach_offset_spec(ns, c.offset_secs),
    }
}

pub(crate) fn from_datetime_without_tz(v: &Vec<char>, c: Clock) -> (r: Option<Timestamp>)
    ensures
        r == from_datetime_without_tz_spec(v@, c),
{
    let mut ns = without_tz_fmt_a_exec(v);
    if ns.is_none() {
        ns = without_tz_fmt_b_exec(v);
    }
    match ns {
        None => None,
        Some(ns) => attach_offset(ns, c.offset_secs),
    }
}

/// What the date-only interpreter yields: the first date-only layout that
/// parses the whole input, at midnight, resolved against the clock's
/// offset.
pub open spec fn from_date_without_tz_spec(s: Seq<char>, c: Clock) -> Option<Timestamp> {
    let d = orelse(
        calendar::date_fmt_parse(s, "%Y-%m-%d"@),
        orelse(
            calendar::date_fmt_parse(s, "%m-%d-%y"@),
            orelse(
                calendar::date_fmt_parse(s, "%D"@),
                orelse(
                    calendar::date_fmt_parse(s, "%F"@),
                    orelse(
                        calendar::date_fmt_parse(s, "%v"@),
                        orelse(
                            calendar::date_fmt_parse(s, "%B %d %Y"@),
                            calendar::date_fmt_parse(s, "%d %B %Y"@),
                        ),
                    ),
                ),
            ),
        ),
    );
    match d {
        None => None,
        Some(secs) => attach_offset_spec(NaiveStamp { secs, nanos: 0 }, c.offset_secs),
    }
}

pub(crate) fn from_date_without_tz(v: &Vec<char>, c: Clock) -> (r: Option<Timestamp>)
    ensures
        r == from_date_without_tz_spec(v@, c),
{
    let mut d = calendar::parse_date_fmt(v, "%Y-%m-%d");
    if d.is_none() {
        d = calendar::parse_date_fmt(v, "%m-%d-%y");
    }
    if d.is_none() {
        d = calendar::parse_date_fmt(v, "%D");
    }
    if d.is_none() {
        d = calendar::parse_date_fmt(v, "%F");
    }
    if d.is_none() {
        d = calendar::parse_date_fmt(v, "%v");
    }
    if d.is_none() {
        d = calendar::parse_date_fmt(v, "%B %d %Y");
    }
    if d.is_none() {
        d = calendar::parse_date_fmt(v, "%d %B %Y");
    }
    match d {
        None => None,
        Some(secs) => attach_offset(NaiveStamp { secs, nanos: 0 }, c.offset_secs),
    }
}

/// What the time-only interpreter yields: a bare time of day, given the
/// clock's current date, resolved against the clock's offset.
pub open spec fn from_time_without_tz_spec(s: Seq<char>, c: Clock) -> Option<Timestamp> {
    let t = orelse(
        calendar::time_fmt_parse(s, "%T"@),
        orelse(calendar::time_fmt_parse(s, "%I:%M%P"@), calendar::time_fmt_parse(s, "%I:%M %P"@)),
    );
    match t {
        None => None,
        Some(p) => match calendar::ymd_time_secs(c.year, c.month, c.day, p.0) {
            None => None,
            Some(secs) => attach_offset_spec(NaiveStamp { secs, nanos: p.1 }, c.offset_secs),
        },
    }
}

pub(crate) fn from_time_without_tz(v: &Vec<char>, c: Clock) -> (r: Option<Timestamp>)
    ensures
        r == from_time_without_tz_spec(v@, c),
{
    let mut t = calendar::parse_time_fmt(v, "%T");
    if t.is_none() {
        t = calendar::parse_time_fmt(v, "%I:%M%P");
    }
    if t.is_none() {
        t = calendar::parse_time_fmt(v, "%I:%M %P");
    }
    match t {
        None => None,
        Some((tsecs, tnanos)) => {
            match calendar::naive_of_ymd_time(c.year, c.month, c.day, tsecs) {
                None => None,
                Some(secs) => attach_offset(NaiveStamp { secs, nanos: tnanos }, c.offset_secs),
            }
        },
    }
}

/// What the time-with-zone interpreter yields: when the trailing token is
/// alphabetic, today's date (from the clock) is prefixed to the rest and
/// the pair goes to the shared zone resolver.
pub open spec fn from_time_with_tz_spec(s: Seq<char>, c: Clock) -> Option<Timestamp> {
    match is_tz_alpha_spec(s) {
        None => None,
        Some(p) => to_rfc2822_spec(
            text::ymd_str(c.year as int, c.month as int, c.day as int) + seq![' '] + p.0,
            p.1,
        ),
    }
}

pub(crate) fn from_time_with_tz(v: &Vec<char>, c: Clock) -> (r: Option<Timestamp>)
    ensures
        r == from_time_with_tz_spec(v@, c),
{
    match is_tz_alpha_chars(v) {
        None => None,
        Some((dt, tz)) => {
            let mut buf = text::ymd_chars(c.year, c.month, c.day);
            buf.push(' ');
            text::append_chars(&mut buf, &dt);
            proof {
                assert(buf@ =~= text::ymd_str(c.year as int, c.month as int, c.day as int)
                    + seq![' '] + dt@);
            }
            to_rfc2822(&buf, &tz)
        },
    }
}

/// What the generic trailing-zone interpreter yields: the whole input
/// split at its last space, the trailing alphabetic token treated as the
/// zone, the rest handed to the shared resolver. Covers layouts such as
/// `1970-12-25 16:16:16 PST`.
pub open spec fn try_yms_hms_tz_spec(s: Seq<char>) -> Option<Timestamp> {
    match is_tz_alpha_spec(s) {
        None => None,
        Some(p) => to_rfc2822_spec(p.0, p.1),
    }
}

pub(crate) fn try_yms_hms_tz(v: &Vec<char>) -> (r: Option<Timestamp>)
    ensures
        r == try_yms_hms_tz_spec(v@),
{
    match is_tz_alpha_chars(v) {
        None => None,
        Some((dt, tz)) => to_rfc2822(&dt, &tz),
    }
}

/// The `Day Month-name Year Time ZONE` interpreter: the same dispatch as
/// [`try_yms_hms_tz`], kept as a distinct strategy for clarity of
/// precedence. Covers layouts such as `1 Jan 1970 22:00:00 PDT`.
pub open spec fn try_dmmmy_hms_tz_spec(s: Seq<char>) -> Option<Timestamp> {
    match is_tz_alpha_spec(s) {
        None => None,
        Some(p) => to_rfc2822_spec(p.0, p.1),
    }
}

pub(crate) fn try_dmmmy_hms_tz(v: &Vec<char>) -> (r: Option<Timestamp>)
    ensures
        r == try_dmmmy_hms_tz_spec(v@),
{
    match is_tz_alpha_chars(v) {
        None => None,
        Some((dt, tz)) => to_rfc2822(&dt, &tz),
    }
}

/// What the `Month Day Year Time GMT±offset` interpreter yields: the
/// trailing token with any `GMT` removed and `:` dropped becomes a numeric
/// offset token, reattached to the leading date/time part, and the pair is
/// parsed under the explicit-offset layouts.
pub open spec fn try_mmmddyyyy_hms_tz_spec(s: Seq<char>) -> Option<Timestamp> {
    match text::split_last_space(s) {
        None => None,
        Some(p) => {
            let tz = text::replace_seq(p.1, "GMT"@, Seq::empty());
            if tz.len() == 0 {
                None
            } else {
                let x = p.0 + seq![' '] + text::strip_two(tz, ':', ':');
                orelse(
                    calendar::datetime_fmt_parse(x, "%B %d %Y %H:%M:%S %z"@),
                    orelse(
                        calendar::datetime_fmt_parse(x, "%B %d %Y %I:%M:%S%P %z"@),
                        orelse(
                            calendar::datetime_fmt_parse(x, "%B %d %Y %I:%M:%S %P %z"@),
                            orelse(
                                calendar::datetime_fmt_parse(x, "%A %B %d %Y %H:%M:%S %z"@),
                                orelse(
                                    calendar::datetime_fmt_parse(x, "%A %B %d %Y %I:%M%P %z"@),
                                    calendar::datetime_fmt_parse(x, "%A %B %d %Y %I:%M %P %z"@),
                                ),
                            ),
                        ),
                    ),
                )
            }
        },
    }
}

pub(crate) fn try_mmmddyyyy_hms_tz(v: &Vec<char>) -> (r: Option<Timestamp>)
    ensures
        r == try_mmmddyyyy_hms_tz_spec(v@),
{
    match text::split_at_last_space(v) {
        None => None,
        Some((dt, tzraw)) => {
            let pat_gmt: Vec<char> = vec!['G', 'M', 'T'];
            let rep_empty: Vec<char> = Vec::new();
            proof {
                reveal_strlit("GMT");
                assert(pat_gmt@ =~= "GMT"@);
                assert(rep_empty@ =~= Seq::<char>::empty());
            }
            let tz = text::replace_all_chars(&tzraw, &pat_gmt, &rep_empty);
            if tz.len() == 0 {
                None
            } else {
                let tz2 = text::strip_two_chars(&tz, ':', ':');
                let mut x = dt;
                x.push(' ');
                text::append_chars(&mut x, &tz2);
                let ghost xs = split_last_space_first(v@) + seq![' '] + text::strip_two(
                    text::replace_seq(split_last_space_second(v@), "GMT"@, Seq::empty()),
                    ':',
                    ':',
                );
                proof {
                    assert(x@ =~= xs);
                }
                let mut r = calendar::parse_datetime_fmt(&x, "%B %d %Y %H:%M:%S %z");
                if r.is_none() {
                    r = calendar::parse_datetime_fmt(&x, "%B %d %Y %I:%M:%S%P %z");
                }
                if r.is_none() {
                    r = calendar::parse_datetime_fmt(&x, "%B %d %Y %I:%M:%S %P %z");
                }
                if r.is_none() {
                    r = calendar::parse_datetime_fmt(&x, "%A %B %d %Y %H:%M:%S %z");
                }
                if r.is_none() {
                    r = calendar::parse_datetime_fmt(&x, "%A %B %d %Y %I:%M%P %z");
                }
                if r.is_none() {
                    r = calendar::parse_datetime_fmt(&x, "%A %B %d %Y %I:%M %P %z");
                }
                r
            }
        },
    }
}

/// The part before the last space of `s`, when `s` holds a space.
pub open spec fn split_last_space_first(s: Seq<char>) -> Seq<char> {
    match text::split_last_space(s) {
        Some(p) => p.0,
        None => Seq::empty(),
    }
}

/// The part after the last space of `s`, when `s` holds a space.
pub open spec fn split_last_space_second(s: Seq<char>) -> Seq<char> {
    match text::split_last_space(s) {
        Some(p) => p.1,
        None => Seq::empty(),
    }
}

/// What the zone-before-year interpreter yields, for layouts such as
/// `Wed Jul 1, 3:33pm PST 1970`: the last token (the year) moves next to
/// the date/time part, the second-to-last token is the zone, and the pair
/// goes to the shared resolver.
pub open spec fn from_datetime_with_tz_before_year_spec(s: Seq<char>) -> Option<Timestamp> {
    let toks = text::split_ws(s);
    if toks.len() < 2 {
        None
    } else {
        let dt = text::join_space(toks.take(toks.len() - 2)) + seq![' '] + toks[toks.len() - 1];
        to_rfc2822_spec(dt, toks[toks.len() - 2])
    }
}

pub(crate) fn from_datetime_with_tz_before_year(v: &Vec<char>) -> (r: Option<Timestamp>)
    ensures
        r == from_datetime_with_tz_before_year_spec(v@),
{
    let tokens = text::split_whitespace_chars(v);
    let n = tokens.len();
    if n < 2 {
        return None;
    }
    let mut dt = text::join_space_upto(&tokens, n - 2);
    dt.push(' ');
    text::append_chars(&mut dt, &tokens[n - 1]);
    proof {
        let toks = text::split_ws(v@);
        assert(dt@ =~= text::join_space(toks.take(n - 2)) + seq![' '] + toks[n - 1]);
        assert(tokens@[n - 2]@ == toks[n - 2]);
    }
    to_rfc2822(&dt, &tokens[n - 2])
}

/// The layouts tried for three tokens whose first is alphabetic, such as
/// `Feb 12 14:00:01`, after the clock's year is inserted.
pub open spec fn brute_alpha_first_3(t: Seq<char>) -> Option<NaiveStamp> {
    orelse(
        calendar::naive_fmt_parse(t, "%B %d %Y %H:%M"@),
        orelse(
            calendar::naive_fmt_parse(t, "%b %d %Y %H:%M"@),
            orelse(
                calendar::naive_fmt_parse(t, "%B %d %Y %T"@),
                orelse(
                    calendar::naive_fmt_parse(t, "%b %d %Y %T"@),
                    orelse(
                        calendar::naive_fmt_parse(t, "%b %d %Y %T%.f"@),
                        orelse(
                            calendar::naive_fmt_parse(t, "%B %d %Y %T"@),
                            calendar::naive_fmt_parse(t, "%B %d %Y %I:%M%P"@),
                        ),
                    ),
                ),
            ),
        ),
    )
}

fn brute_alpha_first_3_exec(t: &Vec<char>) -> (r: Option<NaiveStamp>)
    ensures
        r == brute_alpha_first_3(t@),
{
    let mut r = calendar::parse_naive_fmt(t, "%B %d %Y %H:%M");
    if r.is_none() {
        r = calendar::parse_naive_fmt(t, "%b %d %Y %H:%M");
    }
    if r.is_none() {
        r = calendar::parse_naive_fmt(t, "%B %d %Y %T");
    }
    if r.is_none() {
        r = calendar::parse_naive_fmt(t, "%b %d %Y %T");
    }
    if r.is_none() {
        r = calendar::parse_naive_fmt(t, "%b %d %Y %T%.f");
    }
    if r.is_none() {
        r = calendar::parse_naive_fmt(t, "%B %d %Y %T");
    }
    if r.is_none() {
        r = calendar::parse_naive_fmt(t, "%B %d %Y %I:%M%P");
    }
    r
}

/// The layouts tried for three tokens whose second is alphabetic, such as
/// `12 Feb 14:00:01`, after the clock's year is inserted.
pub open spec fn brute_alpha_second_3(t: Seq<char>) -> Option<NaiveStamp> {
    orelse(
        calendar::naive_fmt_parse(t, "%d %B %Y %H:%M"@),
        orelse(
            calendar::naive_fmt_parse(t, "%d %B %Y %T"@),
            calendar::naive_fmt_parse(t, "%d %B %Y %I:%M%P"@),
        ),
    )
}

fn brute_alpha_second_3_exec(t: &Vec<char>) -> (r: Option<NaiveStamp>)
    ensures
        r == brute_alpha_second_3(t@),
{
    let mut r = calendar::parse_naive_fmt(t, "%d %B %Y %H:%M");
    if r.is_none() {
        r = calendar::parse_naive_fmt(t, "%d %B %Y %T");
    }
    if r.is_none() {
        r = calendar::parse_naive_fmt(t, "%d %B %Y %I:%M%P");
    }
    r
}

/// What the token-count heuristics yield, the lowest-precedence
/// interpreter: by the count of whitespace tokens (two, three or four) and
/// which token is alphabetic, the clock's year is assumed and a small set
/// of `Month Day` / `Day Month` layouts is tried, with a time of day in
/// the three- and four-token forms.
pub open spec fn try_others_spec(s: Seq<char>, c: Clock) -> Option<Timestamp> {
    let toks = text::split_ws(s);
    let ys = text::int_str(c.year as int);
    if toks.len() == 2 && text::all_alphabetic(toks[0]) {
        match calendar::date_fmt_parse(s + seq![' '] + ys, "%B %d %Y"@) {
            None => None,
            Some(secs) => attach_offset_spec(NaiveStamp { secs, nanos: 0 }, c.offset_secs),
        }
    } else if toks.len() == 2 && text::all_alphabetic(toks[1]) {
        match calendar::date_fmt_parse(s + seq![' '] + ys, "%d %B %Y"@) {
            None => None,
            Some(secs) => attach_offset_spec(NaiveStamp { secs, nanos: 0 }, c.offset_secs),
        }
    } else if toks.len() == 3 && text::all_alphabetic(text::strip_two(toks[0], ',', ',')) {
        match brute_alpha_first_3(
            toks[0] + seq![' '] + toks[1] + seq![' '] + ys + seq![' '] + toks[2],
        ) {
            None => None,
            Some(ns) => attach_offset_spec(ns, c.offset_secs),
        }
    } else if toks.len() == 3 && text::all_alphabetic(toks[1]) {
        match brute_alpha_second_3(
            toks[0] + seq![' '] + toks[1] + seq![' '] + ys + seq![' '] + toks[2],
        ) {
            None => None,
            Some(ns) => attach_offset_spec(ns, c.offset_secs),
        }
    } else if toks.len() == 4 && text::all_alphabetic(toks[0]) {
        match calendar::naive_fmt_parse(
            toks[0] + seq![' '] + toks[1] + seq![' '] + ys + seq![' '] + toks[2] + seq![' ']
                + toks[3],
            "%B %d %Y %I:%M %P"@,
        ) {
            None => None,
            Some(ns) => attach_offset_spec(ns, c.offset_secs),
        }
    } else if toks.len() == 4 && text::all_alphabetic(toks[1]) {
        match calendar::naive_fmt_parse(
            toks[0] + seq![' '] + toks[1] + seq![' '] + ys + seq![' '] + toks[2] + seq![' ']
                + toks[3],
            "%d %B %Y %I:%M %P"@,
        ) {
            None => None,
            Some(ns) => attach_offset_spec(ns, c.offset_secs),
        }
    } else {
        None
    }
}

/// Join `tokens[0]`, `tokens[1]`, the year, `tokens[2]` and (when asked)
/// `tokens[3]` with single spaces.
fn brute_rejoin(tokens: &Vec<Vec<char>>, year_chars: &Vec<char>, four: bool) -> (r: Vec<char>)
    requires
        four ==> tokens@.len() >= 4,
        !four ==> tokens@.len() >= 3,
    ensures
        !four ==> r@ == tokens@[0]@ + seq![' '] + tokens@[1]@ + seq![' '] + year_chars@ + seq![' ']
            + tokens@[2]@,
        four ==> r@ == tokens@[0]@ + seq![' '] + tokens@[1]@ + seq![' '] + year_chars@ + seq![' ']
            + tokens@[2]@ + seq![' '] + tokens@[3]@,
{
    let mut t: Vec<char> = Vec::new();
    text::append_chars(&mut t, &tokens[0]);
    t.push(' ');
    text::append_chars(&mut t, &tokens[1]);
    t.push(' ');
    text::append_chars(&mut t, year_chars);
    t.push(' ');
    text::append_chars(&mut t, &tokens[2]);
    if four {
        t.push(' ');
        text::append_chars(&mut t, &tokens[3]);
        proof {
            assert(t@ =~= tokens@[0]@ + seq![' '] + tokens@[1]@ + seq![' '] + year_chars@
                + seq![' '] + tokens@[2]@ + seq![' '] + tokens@[3]@);
        }
    } else {
        proof {
            assert(t@ =~= tokens@[0]@ + seq![' '] + tokens@[1]@ + seq![' '] + year_chars@
                + seq![' '] + tokens@[2]@);
        }
    }
    t
}

pub(crate) fn try_others(v: &Vec<char>, c: Clock) -> (r: Option<Timestamp>)
    ensures
        r == try_others_spec(v@, c),
{
    let tokens = text::split_whitespace_chars(v);
    let ghost toks = text::split_ws(v@);
    let year_chars = text::int_to_chars(c.year);
    if tokens.len() == 2 && text::check_all_alphabetic(&tokens[0]) {
        let mut t: Vec<char> = Vec::new();
        text::append_chars(&mut t, v);
        t.push(' ');
        text::append_chars(&mut t, &year_chars);
        proof {
            assert(t@ =~= v@ + seq![' '] + text::int_str(c.year as int));
        }
        match calendar::parse_date_fmt(&t, "%B %d %Y") {
            None => None,
            Some(secs) => attach_offset(NaiveStamp { secs, nanos: 0 }, c.offset_secs),
        }
    } else if tokens.len() == 2 && text::check_all_alphabetic(&tokens[1]) {
        let mut t: Vec<char> = Vec::new();
        text::append_chars(&mut t, v);
        t.push(' ');
        text::append_chars(&mut t, &year_chars);
        proof {
            assert(t@ =~= v@ + seq![' '] + text::int_str(c.year as int));
        }
        match calendar::parse_date_fmt(&t, "%d %B %Y") {
            None => None,
            Some(secs) => attach_offset(NaiveStamp { secs, nanos: 0 }, c.offset_secs),
        }
    } else if tokens.len() == 3 && {
        let bare = text::strip_two_chars(&tokens[0], ',', ',');
        text::check_all_alphabetic(&bare)
    } {
        let t = brute_rejoin(&tokens, &year_chars, false);
        match brute_alpha_first_3_exec(&t) {
            None => None,
            Some(ns) => attach_offset(ns, c.offset_secs),
        }
    } else if tokens.len() == 3 && text::check_all_alphabetic(&tokens[1]) {
        let t = brute_rejoin(&tokens, &year_chars, false);
        match brute_alpha_second_3_exec(&t) {
            None => None,
            Some(ns) => attach_offset(ns, c.offset_secs),
        }
    } else if tokens.len() == 4 && text::check_all_alphabetic(&tokens[0]) {
        let t = brute_rejoin(&tokens, &year_chars, true);
        match calendar::parse_naive_fmt(&t, "%B %d %Y %I:%M %P") {
            None => None,
            Some(ns) => attach_offset(ns, c.offset_secs),
        }
    } else if tokens.len() == 4 && text::check_all_alphabetic(&tokens[1]) {
        let t = brute_rejoin(&tokens, &year_chars, true);
        match calendar::parse_naive_fmt(&t, "%d %B %Y %I:%M %P") {
            None => None,
            Some(ns) => attach_offset(ns, c.offset_secs),
        }
    } else {
        None
    }
}

} // verus!
