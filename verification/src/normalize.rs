//! The preprocessor: regularize separator punctuation in the date-shaped
//! prefix of the input and strip list punctuation, before any interpreter
//! runs.

use vstd::prelude::*;

use crate::text;

verus! {

/// `.` and `/` become `-`; every other character stands.
pub open spec fn dash_char(c: char) -> char {
    if c == '.' || c == '/' {
        '-'
    } else {
        c
    }
}

/// The first eight characters with `.` and `/` rewritten to `-`, the rest
/// unchanged; inputs shorter than eight characters are left alone.
pub open spec fn dash_prefix(s: Seq<char>) -> Seq<char> {
    if s.len() < 8 {
        s
    } else {
        s.take(8).map_values(|c: char| dash_char(c)) + s.skip(8)
    }
}

/// What the preprocessor makes of `s`: the date-prefix separators unified
/// to `-`, the spellings `" UTC"` and `" UT"` unified to `" GMT"`, and the
/// list punctuation `,` and `;` removed.
pub open spec fn standardize_seq(s: Seq<char>) -> Seq<char> {
    text::strip_two(
        text::replace_seq(
            text::replace_seq(dash_prefix(s), " UTC"@, " GMT"@),
            " UT"@,
            " GMT"@,
        ),
        ',',
        ';',
    )
}

pub(crate) fn standardize_chars(v: &Vec<char>) -> (r: Vec<char>)
    ensures
        r@ == standardize_seq(v@),
{
    let mut w: Vec<char> = Vec::new();
    if v.len() < 8 {
        text::append_chars(&mut w, v);
        proof {
            assert(w@ =~= v@);
        }
    } else {
        let mut i: usize = 0;
        while i < 8
            invariant
                i <= 8 <= v@.len(),
                w@ == v@.take(i as int).map_values(|c: char| dash_char(c)),
            decreases 8 - i,
        {
            let c = v[i];
            let d: char = if c == '.' || c == '/' {
                '-'
            } else {
                c
            };
            w.push(d);
            proof {
                assert(v@.take(i + 1).map_values(|c: char| dash_char(c)) =~= v@.take(
                    i as int,
                ).map_values(|c: char| dash_char(c)).push(dash_char(v@[i as int])));
            }
            i = i + 1;
        }
        let mut j: usize = 8;
        while j < v.len()
            invariant
                8 <= j <= v@.len(),
                w@ == v@.take(8).map_values(|c: char| dash_char(c)) + v@.subrange(8, j as int),
            decreases v.len() - j,
        {
            w.push(v[j]);
            proof {
                assert(v@.take(8).map_values(|c: char| dash_char(c)) + v@.subrange(8, j + 1) =~= (
                v@.take(8).map_values(|c: char| dash_char(c)) + v@.subrange(8, j as int)).push(
                    v@[j as int],
                ));
            }
            j = j + 1;
        }
        proof {
            assert(v@.subrange(8, v@.len() as int) =~= v@.skip(8));
        }
    }
    let pat_utc: Vec<char> = vec![' ', 'U', 'T', 'C'];
    let pat_ut: Vec<char> = vec![' ', 'U', 'T'];
    let rep_gmt: Vec<char> = vec![' ', 'G', 'M', 'T'];
    proof {
        reveal_strlit(" UTC");
        reveal_strlit(" UT");
        reveal_strlit(" GMT");
        assert(pat_utc@ =~= " UTC"@);
        assert(pat_ut@ =~= " UT"@);
        assert(rep_gmt@ =~= " GMT"@);
    }
    let w1 = text::replace_all_chars(&w, &pat_utc, &rep_gmt);
    let w2 = text::replace_all_chars(&w1, &pat_ut, &rep_gmt);
    text::strip_two_chars(&w2, ',', ';')
}

/// Rewrite `.` and `/` separators in the first eight characters of `s` to
/// `-`, unify `" UTC"` and `" UT"` to `" GMT"`, and drop `,` and `;`.
pub fn standardize_date(s: &str) -> (r: String)
    ensures
        r@ == standardize_seq(s@),
{
    let v = text::chars_of_str(s);
    let w = standardize_chars(&v);
    text::string_of_chars(&w)
}

} // verus!
