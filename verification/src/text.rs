//! Verified utilities over character sequences: the parser works on
//! `Vec<char>` values whose views are the `Seq<char>` views of the
//! input strings.

use vstd::prelude::*;

verus! {

/// Whether `c` counts as alphabetic, as `char::is_alphabetic` decides it.
pub uninterp spec fn alphabetic(c: char) -> bool;

/// Whether `c` counts as whitespace, as `char::is_whitespace` decides it.
pub uninterp spec fn whitespace(c: char) -> bool;

/// Relies on `char::is_alphabetic`: the result depends on the character
/// alone (the Unicode `Alphabetic` property).
#[verifier::external_body]
pub(crate) fn char_is_alphabetic(c: char) -> (r: bool)
    ensures
        r == alphabetic(c),
{
    c.is_alphabetic()
}

/// Relies on `char::is_whitespace`: the result depends on the character
/// alone (the Unicode `White_Space` property), and a plain space has it.
#[verifier::external_body]
pub(crate) fn char_is_whitespace(c: char) -> (r: bool)
    ensures
        r == whitespace(c),
        c == ' ' ==> r,
{
    c.is_whitespace()
}

/// Relies on `String::push`: appends exactly the one character.
#[verifier::external_body]
pub(crate) fn push_char(s: &mut String, c: char)
    ensures
        final(s)@ == old(s)@.push(c),
{
    s.push(c);
}

/// Build an owned `String` whose view is the view of `v`.
pub(crate) fn string_of_chars(v: &Vec<char>) -> (s: String)
    ensures
        s@ == v@,
{
    let mut s = String::new();
    let mut i: usize = 0;
    while i < v.len()
        invariant
            i <= v.len(),
            s@ == v@.take(i as int),
        decreases v.len() - i,
    {
        push_char(&mut s, v[i]);
        proof {
            assert(v@.take(i + 1) =~= v@.take(i as int).push(v@[i as int]));
        }
        i = i + 1;
    }
    proof {
        assert(v@.take(v.len() as int) =~= v@);
    }
    s
}

/// Collect the characters of `s` into a vector with the same view.
pub(crate) fn chars_of_str(s: &str) -> (v: Vec<char>)
    ensures
        v@ == s@,
{
    let n = s.unicode_len();
    let mut v: Vec<char> = Vec::new();
    let mut i: usize = 0;
    while i < n
        invariant
            i <= n,
            n == s@.len(),
            v@ == s@.take(i as int),
        decreases n - i,
    {
        v.push(s.get_char(i));
        proof {
            assert(s@.take(i + 1) =~= s@.take(i as int).push(s@[i as int]));
        }
        i = i + 1;
    }
    proof {
        assert(s@.take(n as int) =~= s@);
    }
    v
}

/// Every character of `s` is alphabetic. True of the empty sequence.
pub open spec fn all_alphabetic(s: Seq<char>) -> bool {
    forall|i: int| 0 <= i < s.len() ==> alphabetic(#[trigger] s[i])
}

pub(crate) fn check_all_alphabetic(v: &Vec<char>) -> (r: bool)
    ensures
        r == all_alphabetic(v@),
{
    let mut i: usize = 0;
    while i < v.len()
        invariant
            i <= v.len(),
            forall|j: int| 0 <= j < i ==> alphabetic(#[trigger] v@[j]),
        decreases v.len() - i,
    {
        if !char_is_alphabetic(v[i]) {
            return false;
        }
        i = i + 1;
    }
    true
}

/// `s` with every occurrence of `a` or `b` removed.
pub open spec fn strip_two(s: Seq<char>, a: char, b: char) -> Seq<char>
    decreases s.len(),
{
    if s.len() == 0 {
        s
    } else if s[0] == a || s[0] == b {
        strip_two(s.skip(1), a, b)
    } else {
        seq![s[0]] + strip_two(s.skip(1), a, b)
    }
}

pub(crate) fn strip_two_chars(v: &Vec<char>, a: char, b: char) -> (r: Vec<char>)
    ensures
        r@ == strip_two(v@, a, b),
{
    let mut r: Vec<char> = Vec::new();
    let mut i: usize = 0;
    proof {
        assert(v@.skip(0) =~= v@);
        assert(r@ + strip_two(v@, a, b) =~= strip_two(v@, a, b));
    }
    while i < v.len()
        invariant
            i <= v.len(),
            strip_two(v@, a, b) == r@ + strip_two(v@.skip(i as int), a, b),
        decreases v.len() - i,
    {
        let c = v[i];
        proof {
            assert(v@.skip(i as int).len() > 0);
            assert(v@.skip(i as int)[0] == v@[i as int]);
            assert(v@.skip(i as int).skip(1) =~= v@.skip(i + 1));
        }
        if !(c == a || c == b) {
            r.push(c);
            proof {
                assert(r@ =~= r@.drop_last() + seq![v@[i as int]]);
                assert(r@.drop_last() + (seq![v@[i as int]] + strip_two(v@.skip(i + 1), a, b))
                    =~= r@ + strip_two(v@.skip(i + 1), a, b));
            }
        }
        i = i + 1;
    }
    proof {
        assert(v@.skip(v.len() as int) =~= Seq::<char>::empty());
        assert(r@ + Seq::<char>::empty() =~= r@);
    }
    r
}

/// Append all characters of `add` to `r`.
pub(crate) fn append_chars(r: &mut Vec<char>, add: &Vec<char>)
    ensures
        final(r)@ == old(r)@ + add@,
{
    let mut i: usize = 0;
    while i < add.len()
        invariant
            i <= add.len(),
            r@ == old(r)@ + add@.take(i as int),
        decreases add.len() - i,
    {
        r.push(add[i]);
        proof {
            assert(old(r)@ + add@.take(i + 1) =~= (old(r)@ + add@.take(i as int)).push(
                add@[i as int],
            ));
        }
        i = i + 1;
    }
    proof {
        assert(old(r)@ + add@.take(add.len() as int) =~= old(r)@ + add@);
    }
}

/// Whether `pat` occurs in `v` starting at position `i`.
pub(crate) fn match_at(v: &Vec<char>, i: usize, pat: &Vec<char>) -> (m: bool)
    requires
        i <= v@.len(),
    ensures
        m == (i + pat@.len() <= v@.len() && v@.subrange(i as int, i + pat@.len()) == pat@),
{
    let n = v.len();
    let plen = pat.len();
    if n - i < plen {
        proof {
            assert(i + pat@.len() > v@.len());
        }
        return false;
    }
    let mut j: usize = 0;
    while j < plen
        invariant
            j <= plen,
            plen == pat@.len(),
            n == v@.len(),
            i + plen <= n,
            forall|k: int| 0 <= k < j ==> v@[i + k] == #[trigger] pat@[k],
        decreases plen - j,
    {
        if v[i + j] != pat[j] {
            proof {
                assert(v@.subrange(i as int, i + pat@.len())[j as int] == v@[i + j]);
            }
            return false;
        }
        j = j + 1;
    }
    proof {
        assert(v@.subrange(i as int, i + pat@.len()) =~= pat@);
    }
    true
}

/// `s` with every occurrence of `pat` replaced by `rep`, scanning left to
/// right over non-overlapping occurrences, as `str::replace` does.
pub open spec fn replace_seq(s: Seq<char>, pat: Seq<char>, rep: Seq<char>) -> Seq<char>
    decreases s.len(),
{
    if s.len() == 0 || pat.len() == 0 {
        s
    } else if s.len() >= pat.len() && s.subrange(0, pat.len() as int) == pat {
        rep + replace_seq(s.skip(pat.len() as int), pat, rep)
    } else {
        seq![s[0]] + replace_seq(s.skip(1), pat, rep)
    }
}

pub(crate) fn replace_all_chars(v: &Vec<char>, pat: &Vec<char>, rep: &Vec<char>) -> (r: Vec<char>)
    requires
        pat@.len() > 0,
    ensures
        r@ == replace_seq(v@, pat@, rep@),
{
    let mut r: Vec<char> = Vec::new();
    let mut i: usize = 0;
    proof {
        assert(v@.skip(0) =~= v@);
        assert(r@ + replace_seq(v@, pat@, rep@) =~= replace_seq(v@, pat@, rep@));
    }
    while i < v.len()
        invariant
            i <= v.len(),
            pat@.len() > 0,
            replace_seq(v@, pat@, rep@) == r@ + replace_seq(v@.skip(i as int), pat@, rep@),
        decreases v.len() - i,
    {
        proof {
            assert(v@.skip(i as int).len() > 0);
            assert(v@.skip(i as int)[0] == v@[i as int]);
            assert(v@.skip(i as int).skip(1) =~= v@.skip(i + 1));
            if i + pat@.len() <= v@.len() {
                assert(v@.skip(i as int).subrange(0, pat@.len() as int) =~= v@.subrange(
                    i as int,
                    i + pat@.len(),
                ));
            }
        }
        if match_at(v, i, pat) {
            proof {
                assert(v@.skip(i as int).skip(pat@.len() as int) =~= v@.skip(i + pat@.len()));
            }
            let ghost r0 = r@;
            append_chars(&mut r, rep);
            proof {
                assert((r0 + rep@) + replace_seq(v@.skip(i + pat@.len()), pat@, rep@) =~= r0 + (rep@
                    + replace_seq(v@.skip(i + pat@.len()), pat@, rep@)));
            }
            i = i + pat.len();
        } else {
            r.push(v[i]);
            proof {
                assert(r@ =~= r@.drop_last() + seq![v@[i as int]]);
                assert(r@.drop_last() + (seq![v@[i as int]] + replace_seq(
                    v@.skip(i + 1),
                    pat@,
                    rep@,
                )) =~= r@ + replace_seq(v@.skip(i + 1), pat@, rep@));
            }
            i = i + 1;
        }
    }
    proof {
        assert(v@.skip(v.len() as int) =~= Seq::<char>::empty());
        assert(r@ + Seq::<char>::empty() =~= r@);
    }
    r
}

/// `s` without its leading whitespace.
pub open spec fn trim_start_seq(s: Seq<char>) -> Seq<char>
    decreases s.len(),
{
    if s.len() > 0 && whitespace(s[0]) {
        trim_start_seq(s.skip(1))
    } else {
        s
    }
}

/// `s` without its trailing whitespace.
pub open spec fn trim_end_seq(s: Seq<char>) -> Seq<char>
    decreases s.len(),
{
    if s.len() > 0 && whitespace(s.last()) {
        trim_end_seq(s.drop_last())
    } else {
        s
    }
}

/// `s` without leading and trailing whitespace, as `str::trim` leaves it.
pub open spec fn trim_seq(s: Seq<char>) -> Seq<char> {
    trim_end_seq(trim_start_seq(s))
}

pub(crate) fn trim_chars(v: &Vec<char>) -> (r: Vec<char>)
    ensures
        r@ == trim_seq(v@),
{
    let mut a: usize = 0;
    proof {
        assert(v@.skip(0) =~= v@);
    }
    while a < v.len() && char_is_whitespace(v[a])
        invariant
            a <= v.len(),
            trim_start_seq(v@) == trim_start_seq(v@.skip(a as int)),
        decreases v.len() - a,
    {
        proof {
            assert(v@.skip(a as int)[0] == v@[a as int]);
            assert(v@.skip(a as int).skip(1) =~= v@.skip(a + 1));
        }
        a = a + 1;
    }
    let ghost t = v@.skip(a as int);
    proof {
        if a < v.len() {
            assert(t[0] == v@[a as int]);
        }
        assert(trim_start_seq(t) == t);
        assert(trim_start_seq(v@) == t);
    }
    let mut b: usize = v.len();
    while b > a && char_is_whitespace(v[b - 1])
        invariant
            a <= b <= v.len(),
            t == v@.skip(a as int),
            trim_end_seq(t) == trim_end_seq(v@.subrange(a as int, b as int)),
        decreases b,
    {
        proof {
            let u = v@.subrange(a as int, b as int);
            assert(u.last() == v@[b - 1]);
            assert(u.drop_last() =~= v@.subrange(a as int, b - 1));
        }
        b = b - 1;
    }
    proof {
        let u = v@.subrange(a as int, b as int);
        if b > a {
            assert(u.last() == v@[b - 1]);
        }
        assert(trim_end_seq(u) == u);
    }
    let mut r: Vec<char> = Vec::new();
    let mut i: usize = a;
    while i < b
        invariant
            a <= i <= b <= v.len(),
            r@ == v@.subrange(a as int, i as int),
        decreases b - i,
    {
        r.push(v[i]);
        proof {
            assert(v@.subrange(a as int, i + 1) =~= v@.subrange(a as int, i as int).push(
                v@[i as int],
            ));
        }
        i = i + 1;
    }
    proof {
        assert(t =~= v@.subrange(a as int, v.len() as int));
        assert(trim_seq(v@) == trim_end_seq(t));
    }
    r
}

/// Index of the last space character of `t`, or `-1` if there is none.
pub open spec fn last_space_idx(t: Seq<char>) -> int
    decreases t.len(),
{
    if t.len() == 0 {
        -1
    } else if t.last() == ' ' {
        t.len() - 1
    } else {
        last_space_idx(t.drop_last())
    }
}

/// Split `t` at its last space: the part before it and the part after it,
/// neither containing that space. `None` if `t` holds no space.
pub open spec fn split_last_space(t: Seq<char>) -> Option<(Seq<char>, Seq<char>)> {
    let k = last_space_idx(t);
    if k < 0 {
        None
    } else {
        Some((t.take(k), t.skip(k + 1)))
    }
}

pub(crate) fn split_at_last_space(v: &Vec<char>) -> (r: Option<(Vec<char>, Vec<char>)>)
    ensures
        match r {
            Some((a, b)) => split_last_space(v@) == Some((a@, b@)),
            None => split_last_space(v@) is None,
        },
{
    let mut j: usize = v.len();
    proof {
        assert(v@.take(v.len() as int) =~= v@);
    }
    while j > 0
        invariant
            j <= v.len(),
            last_space_idx(v@) == last_space_idx(v@.take(j as int)),
        decreases j,
    {
        proof {
            let u = v@.take(j as int);
            assert(u.last() == v@[j - 1]);
            assert(u.drop_last() =~= v@.take(j - 1));
        }
        if v[j - 1] == ' ' {
            let k = j - 1;
            let mut a: Vec<char> = Vec::new();
            let mut i: usize = 0;
            while i < k
                invariant
                    i <= k < v.len(),
                    a@ == v@.take(k as int).take(i as int),
                decreases k - i,
            {
                a.push(v[i]);
                proof {
                    assert(v@.take(k as int).take(i + 1) =~= v@.take(k as int).take(
                        i as int,
                    ).push(v@[i as int]));
                }
                i = i + 1;
            }
            let mut b: Vec<char> = Vec::new();
            let mut i2: usize = k + 1;
            while i2 < v.len()
                invariant
                    k + 1 <= i2 <= v.len(),
                    b@ == v@.subrange(k + 1, i2 as int),
                decreases v.len() - i2,
            {
                b.push(v[i2]);
                proof {
                    assert(v@.subrange(k + 1, i2 + 1) =~= v@.subrange(k + 1, i2 as int).push(
                        v@[i2 as int],
                    ));
                }
                i2 = i2 + 1;
            }
            proof {
                assert(last_space_idx(v@) == k);
                assert(a@ =~= v@.take(k as int));
                assert(b@ =~= v@.skip(k + 1));
            }
            return Some((a, b));
        }
        j = j - 1;
    }
    proof {
        assert(v@.take(0) =~= Seq::<char>::empty());
        assert(last_space_idx(v@) == -1);
    }
    None
}

/// Helper for [`split_ws`]: the remaining input is `s` and `cur` holds the
/// characters of the token being read.
pub open spec fn split_ws_acc(s: Seq<char>, cur: Seq<char>) -> Seq<Seq<char>>
    decreases s.len(),
{
    if s.len() == 0 {
        if cur.len() == 0 {
            Seq::empty()
        } else {
            seq![cur]
        }
    } else if whitespace(s[0]) {
        if cur.len() == 0 {
            split_ws_acc(s.skip(1), Seq::empty())
        } else {
            seq![cur] + split_ws_acc(s.skip(1), Seq::empty())
        }
    } else {
        split_ws_acc(s.skip(1), cur.push(s[0]))
    }
}

/// The maximal runs of non-whitespace characters of `s`, in order, as
/// `str::split_whitespace` yields them.
pub open spec fn split_ws(s: Seq<char>) -> Seq<Seq<char>> {
    split_ws_acc(s, Seq::empty())
}

pub(crate) fn split_whitespace_chars(v: &Vec<char>) -> (r: Vec<Vec<char>>)
    ensures
        r.deep_view() == split_ws(v@),
        r@.len() == split_ws(v@).len(),
        forall|i: int| 0 <= i < r@.len() ==> (#[trigger] r@[i])@ == split_ws(v@)[i],
{
    let mut r: Vec<Vec<char>> = Vec::new();
    let mut cur: Vec<char> = Vec::new();
    let mut i: usize = 0;
    proof {
        assert(v@.skip(0) =~= v@);
        assert(r.deep_view() =~~= Seq::<Seq<char>>::empty());
        assert(r.deep_view() + split_ws_acc(v@, cur@) =~~= split_ws_acc(v@, cur@));
    }
    while i < v.len()
        invariant
            i <= v.len(),
            split_ws(v@) == r.deep_view() + split_ws_acc(v@.skip(i as int), cur@),
        decreases v.len() - i,
    {
        proof {
            assert(v@.skip(i as int)[0] == v@[i as int]);
            assert(v@.skip(i as int).skip(1) =~= v@.skip(i + 1));
        }
        let c = v[i];
        if char_is_whitespace(c) {
            if cur.len() > 0 {
                let ghost rd = r.deep_view();
                let ghost cv = cur@;
                r.push(cur);
                cur = Vec::new();
                proof {
                    assert(r.deep_view() =~~= rd.push(cv));
                    assert((rd.push(cv)) + split_ws_acc(v@.skip(i + 1), Seq::empty()) =~~= rd + (
                    seq![cv] + split_ws_acc(v@.skip(i + 1), Seq::empty())));
                }
            } else {
                proof {
                    assert(cur@ =~= Seq::<char>::empty());
                }
            }
        } else {
            cur.push(c);
        }
        i = i + 1;
    }
    proof {
        assert(v@.skip(v.len() as int) =~= Seq::<char>::empty());
    }
    if cur.len() > 0 {
        let ghost rd = r.deep_view();
        let ghost cv = cur@;
        r.push(cur);
        proof {
            assert(r.deep_view() =~~= rd.push(cv));
            assert(rd.push(cv) =~~= rd + seq![cv]);
        }
    } else {
        proof {
            assert(r.deep_view() + Seq::<Seq<char>>::empty() =~~= r.deep_view());
        }
    }
    proof {
        assert forall|k: int| 0 <= k < r@.len() implies (#[trigger] r@[k])@ == split_ws(v@)[k] by {
            assert(r.deep_view()[k] == r@[k].deep_view());
            assert(r@[k].deep_view() =~= r@[k]@);
        }
    }
    r
}

/// `parts` joined with a single space between consecutive parts.
pub open spec fn join_space(parts: Seq<Seq<char>>) -> Seq<char>
    decreases parts.len(),
{
    if parts.len() == 0 {
        Seq::empty()
    } else if parts.len() == 1 {
        parts[0]
    } else {
        join_space(parts.drop_last()) + seq![' '] + parts.last()
    }
}

/// Join the first `end` elements of `tokens` with single spaces.
pub(crate) fn join_space_upto(tokens: &Vec<Vec<char>>, end: usize) -> (r: Vec<char>)
    requires
        end <= tokens@.len(),
    ensures
        r@ == join_space(tokens.deep_view().take(end as int)),
{
    let mut r: Vec<char> = Vec::new();
    let mut i: usize = 0;
    proof {
        assert(tokens.deep_view().take(0) =~= Seq::<Seq<char>>::empty());
    }
    while i < end
        invariant
            i <= end <= tokens@.len(),
            r@ == join_space(tokens.deep_view().take(i as int)),
        decreases end - i,
    {
        let ghost d = tokens.deep_view();
        if i > 0 {
            r.push(' ');
        }
        append_chars(&mut r, &tokens[i]);
        proof {
            assert(d.take(i + 1).drop_last() =~= d.take(i as int));
            assert(d.take(i + 1).last() == d[i as int]);
            assert(tokens@[i as int]@ == d[i as int]);
            if i == 0 {
                assert(d.take(1) =~= seq![d[0]]);
                assert(r@ =~= d[0]);
            } else {
                assert(r@ =~= join_space(d.take(i as int)) + seq![' '] + d[i as int]);
            }
        }
        i = i + 1;
    }
    r
}

/// The character for the decimal digit `d`.
pub open spec fn digit_char(d: int) -> char {
    if d == 0 {
        '0'
    } else if d == 1 {
        '1'
    } else if d == 2 {
        '2'
    } else if d == 3 {
        '3'
    } else if d == 4 {
        '4'
    } else if d == 5 {
        '5'
    } else if d == 6 {
        '6'
    } else if d == 7 {
        '7'
    } else if d == 8 {
        '8'
    } else {
        '9'
    }
}

/// The decimal digits of the non-negative integer `n`, most significant
/// first, with no sign and no leading zeros (but `0` itself is `"0"`).
pub open spec fn digits_str(n: int) -> Seq<char>
    decreases n,
{
    if n < 10 {
        seq![digit_char(n)]
    } else {
        digits_str(n / 10).push(digit_char(n % 10))
    }
}

/// The decimal form of `n`, with a leading `-` when `n` is negative.
pub open spec fn int_str(n: int) -> Seq<char> {
    if n < 0 {
        seq!['-'] + digits_str(-n)
    } else {
        digits_str(n)
    }
}

fn push_digit(out: &mut Vec<char>, d: u32)
    requires
        d < 10,
    ensures
        final(out)@ == old(out)@.push(digit_char(d as int)),
{
    let c: char = if d == 0 {
        '0'
    } else if d == 1 {
        '1'
    } else if d == 2 {
        '2'
    } else if d == 3 {
        '3'
    } else if d == 4 {
        '4'
    } else if d == 5 {
        '5'
    } else if d == 6 {
        '6'
    } else if d == 7 {
        '7'
    } else {
        '8'
    };
    let c: char = if d == 9 {
        '9'
    } else {
        c
    };
    out.push(c);
}

fn push_digits(out: &mut Vec<char>, n: u32)
    ensures
        final(out)@ == old(out)@ + digits_str(n as int),
    decreases n,
{
    if n < 10 {
        push_digit(out, n);
        proof {
            assert(old(out)@.push(digit_char(n as int)) =~= old(out)@ + digits_str(n as int));
        }
    } else {
        push_digits(out, n / 10);
        push_digit(out, n % 10);
        proof {
            assert((old(out)@ + digits_str(n as int / 10)).push(digit_char(n as int % 10)) =~= old(
                out,
            )@ + digits_str(n as int));
        }
    }
}

/// The decimal form of `n`, exactly as `format!("{}", n)` writes an `i32`.
pub(crate) fn int_to_chars(n: i32) -> (r: Vec<char>)
    ensures
        r@ == int_str(n as int),
{
    let mut out: Vec<char> = Vec::new();
    if n < 0 {
        out.push('-');
        let mag: u32 = (-(n as i64)) as u32;
        push_digits(&mut out, mag);
        proof {
            assert(seq!['-'] + digits_str(mag as int) =~= out@);
        }
    } else {
        push_digits(&mut out, n as u32);
        proof {
            assert(Seq::<char>::empty() + digits_str(n as int) =~= digits_str(n as int));
        }
    }
    out
}

/// `s` preceded by as many `'0'` characters as needed to reach width `w`.
pub open spec fn zpad(s: Seq<char>, w: int) -> Seq<char> {
    if s.len() >= w {
        s
    } else {
        Seq::new((w - s.len()) as nat, |i: int| '0') + s
    }
}

/// The digits of `n` zero-padded to width `w`.
fn push_padded_digits(out: &mut Vec<char>, n: u32, w: usize)
    requires
        w <= 10,
    ensures
        final(out)@ == old(out)@ + zpad(digits_str(n as int), w as int),
{
    let mut digs: Vec<char> = Vec::new();
    push_digits(&mut digs, n);
    proof {
        assert(Seq::<char>::empty() + digits_str(n as int) =~= digits_str(n as int));
    }
    let ghost d0 = digs@;
    proof {
        assert(digs@ =~= Seq::new(0, |i: int| '0') + d0);
    }
    while digs.len() < w
        invariant
            w <= 10,
            digs@.len() >= d0.len(),
            digs@.len() == d0.len() || digs@.len() <= w,
            digs@ == Seq::new((digs@.len() - d0.len()) as nat, |i: int| '0') + d0,
        decreases w - digs.len(),
    {
        digs.insert(0, '0');
        proof {
            assert(digs@ =~= Seq::new((digs@.len() - d0.len()) as nat, |i: int| '0') + d0);
        }
    }
    append_chars(out, &digs);
    proof {
        if d0.len() >= w {
            assert(digs@ =~= d0);
        } else {
            assert(digs@ =~= zpad(d0, w as int));
        }
    }
}

/// The text `YYYY-MM-DD` for the given calendar components: the year
/// zero-padded to four places when it lies in `0..=9999` and written as a
/// plain decimal otherwise, month and day zero-padded to two places.
pub open spec fn ymd_str(y: int, m: int, d: int) -> Seq<char> {
    (if 0 <= y <= 9999 {
        zpad(digits_str(y), 4)
    } else {
        int_str(y)
    }) + seq!['-'] + zpad(digits_str(m), 2) + seq!['-'] + zpad(digits_str(d), 2)
}

pub(crate) fn ymd_chars(y: i32, m: u32, d: u32) -> (r: Vec<char>)
    ensures
        r@ == ymd_str(y as int, m as int, d as int),
{
    let mut out: Vec<char> = Vec::new();
    if 0 <= y && y <= 9999 {
        push_padded_digits(&mut out, y as u32, 4);
        proof {
            assert(Seq::<char>::empty() + zpad(digits_str(y as int), 4) =~= zpad(
                digits_str(y as int),
                4,
            ));
        }
    } else {
        let ic = int_to_chars(y);
        append_chars(&mut out, &ic);
        proof {
            assert(Seq::<char>::empty() + int_str(y as int) =~= int_str(y as int));
        }
    }
    out.push('-');
    let ghost p1 = out@;
    push_padded_digits(&mut out, m, 2);
    out.push('-');
    let ghost p2 = out@;
    push_padded_digits(&mut out, d, 2);
    proof {
        assert(out@ =~= ymd_str(y as int, m as int, d as int));
    }
    out
}

} // verus!
