//! Verified text utilities over character sequences.
//!
//! The stderr classifier reasons about text as sequences of characters.  This
//! module holds the shared building blocks: collecting a `&str` into a
//! character vector, locating characters and substrings, and trimming
//! whitespace, each with an exact specification.

use vstd::prelude::*;
use vstd::string::StrSliceExecFns;

verus! {

/// Whitespace as `str::trim` understands it: the characters with the
/// Unicode `White_Space` property.
pub open spec fn spec_ws(c: char) -> bool {
    ||| c == ' '
    ||| '\u{0009}' <= c <= '\u{000d}'
    ||| c == '\u{0085}'
    ||| c == '\u{00a0}'
    ||| c == '\u{1680}'
    ||| '\u{2000}' <= c <= '\u{200a}'
    ||| c == '\u{2028}'
    ||| c == '\u{2029}'
    ||| c == '\u{202f}'
    ||| c == '\u{205f}'
    ||| c == '\u{3000}'
}

/// Executable counterpart of [`spec_ws`].
pub fn is_ws(c: char) -> (r: bool)
    ensures
        r == spec_ws(c),
{
    c == ' ' || ('\u{0009}' <= c && c <= '\u{000d}') || c == '\u{0085}' || c == '\u{00a0}'
        || c == '\u{1680}' || ('\u{2000}' <= c && c <= '\u{200a}') || c == '\u{2028}'
        || c == '\u{2029}' || c == '\u{202f}' || c == '\u{205f}' || c == '\u{3000}'
}

/// Collect the characters of a string slice into a vector.
pub fn chars_of(s: &str) -> (r: Vec<char>)
    ensures
        r@ == s@,
{
    let n = s.unicode_len();
    let mut r: Vec<char> = Vec::new();
    let mut i: usize = 0;
    while i < n
        invariant
            n == s@.len(),
            i <= n,
            r@ == s@.take(i as int),
        decreases n - i,
    {
        let c = s.get_char(i);
        r.push(c);
        i = i + 1;
        proof {
            assert(r@ =~= s@.take(i as int));
        }
    }
    proof {
        assert(r@ =~= s@);
    }
    r
}

/// Index of the first occurrence of `c` in `s`, or `s.len()` if absent.
pub open spec fn spec_first_at(s: Seq<char>, c: char) -> int
    decreases s.len(),
{
    if s.len() == 0 {
        0
    } else if s[0] == c {
        0
    } else {
        1 + spec_first_at(s.drop_first(), c)
    }
}

pub proof fn lemma_first_at(s: Seq<char>, c: char)
    ensures
        0 <= spec_first_at(s, c) <= s.len(),
        forall|j: int| 0 <= j < spec_first_at(s, c) ==> s[j] != c,
        spec_first_at(s, c) < s.len() ==> s[spec_first_at(s, c)] == c,
    decreases s.len(),
{
    if s.len() > 0 && s[0] != c {
        lemma_first_at(s.drop_first(), c);
        assert forall|j: int| 0 <= j < spec_first_at(s, c) implies s[j] != c by {
            if j > 0 {
                assert(s.drop_first()[j - 1] != c);
            }
        }
    }
}

/// The first occurrence is the least index holding `c`, or the length.
pub proof fn lemma_first_at_unique(s: Seq<char>, c: char, k: int)
    requires
        0 <= k <= s.len(),
        forall|j: int| 0 <= j < k ==> s[j] != c,
        k < s.len() ==> s[k] == c,
    ensures
        spec_first_at(s, c) == k,
{
    lemma_first_at(s, c);
    let f = spec_first_at(s, c);
    if f < k {
        assert(s[f] != c);
    }
    if k < f {
        assert(s[k] != c);
    }
}

/// Find the first occurrence of `c` within `cs[lo..hi]`; `hi` means absent.
pub fn find_char_in(cs: &Vec<char>, lo: usize, hi: usize, c: char) -> (r: usize)
    requires
        lo <= hi <= cs.len(),
    ensures
        lo <= r <= hi,
        spec_first_at(cs@.subrange(lo as int, hi as int), c) == r - lo,
        forall|j: int| lo <= j < r ==> cs@[j] != c,
        r < hi ==> cs@[r as int] == c,
{
    let mut i: usize = lo;
    while i < hi
        invariant
            lo <= i <= hi <= cs.len(),
            forall|j: int| lo <= j < i ==> cs@[j] != c,
        decreases hi - i,
    {
        if cs[i] == c {
            proof {
                let sub = cs@.subrange(lo as int, hi as int);
                assert forall|j: int| 0 <= j < i - lo implies sub[j] != c by {
                    assert(sub[j] == cs@[lo + j]);
                }
                lemma_first_at_unique(sub, c, i - lo);
            }
            return i;
        }
        i = i + 1;
    }
    proof {
        let sub = cs@.subrange(lo as int, hi as int);
        assert forall|j: int| 0 <= j < hi - lo implies sub[j] != c by {
            assert(sub[j] == cs@[lo + j]);
        }
        lemma_first_at_unique(sub, c, hi - lo);
    }
    hi
}

/// `pat` occurs in `l` starting at position `i`.
pub open spec fn spec_match_at(l: Seq<char>, pat: Seq<char>, i: int) -> bool {
    0 <= i && i + pat.len() <= l.len() && l.subrange(i, i + pat.len()) == pat
}

/// Check whether `pat` occurs at position `i` of `cs[lo..hi]`.
pub fn match_at(cs: &Vec<char>, lo: usize, hi: usize, pat: &Vec<char>, i: usize) -> (r: bool)
    requires
        lo <= hi <= cs.len(),
        lo <= i <= hi,
    ensures
        r == spec_match_at(cs@.subrange(lo as int, hi as int), pat@, i - lo),
{
    let ghost sub = cs@.subrange(lo as int, hi as int);
    if hi - i < pat.len() {
        return false;
    }
    let mut k: usize = 0;
    while k < pat.len()
        invariant
            lo <= i,
            i + pat@.len() <= hi <= cs.len(),
            k <= pat@.len(),
            sub == cs@.subrange(lo as int, hi as int),
            forall|m: int| 0 <= m < k ==> sub[i - lo + m] == pat@[m],
        decreases pat@.len() - k,
    {
        if cs[i + k] != pat[k] {
            proof {
                assert(sub[i - lo + k] == cs@[i + k]);
                let w = sub.subrange(i - lo, i - lo + pat@.len() as int);
                assert(w[k as int] == sub[i - lo + k]);
                assert(w[k as int] != pat@[k as int]);
            }
            return false;
        }
        k = k + 1;
    }
    proof {
        let w = sub.subrange(i - lo, i - lo + pat@.len() as int);
        assert forall|m: int| 0 <= m < pat@.len() implies w[m] == pat@[m] by {
            assert(w[m] == sub[i - lo + m]);
        }
        assert(w =~= pat@);
    }
    true
}

/// Find the first occurrence of `pat` within `cs[lo..hi]`.
pub fn find_first_match(cs: &Vec<char>, lo: usize, hi: usize, pat: &Vec<char>) -> (r: Option<
    usize,
>)
    requires
        lo <= hi <= cs.len(),
    ensures
        ({
            let sub = cs@.subrange(lo as int, hi as int);
            match r {
                Some(i) => {
                    &&& lo <= i <= hi
                    &&& spec_match_at(sub, pat@, i - lo)
                    &&& forall|j: int| 0 <= j < i - lo ==> !spec_match_at(sub, pat@, j)
                },
                None => forall|j: int| !spec_match_at(sub, pat@, j),
            }
        }),
{
    let ghost sub = cs@.subrange(lo as int, hi as int);
    if pat.len() > hi - lo {
        proof {
            assert forall|j: int| !spec_match_at(sub, pat@, j) by {}
        }
        return None;
    }
    if pat.len() == 0 {
        proof {
            assert(sub.subrange(0, 0) =~= pat@);
        }
        return Some(lo);
    }
    let last = hi - lo - pat.len();
    let mut i: usize = 0;
    while i <= last
        invariant
            lo <= hi <= cs.len(),
            0 < pat@.len() <= hi - lo,
            last == hi - lo - pat@.len(),
            i <= last + 1,
            sub == cs@.subrange(lo as int, hi as int),
            forall|j: int| 0 <= j < i ==> !spec_match_at(sub, pat@, j),
        decreases last + 1 - i,
    {
        if match_at(cs, lo, hi, pat, lo + i) {
            return Some(lo + i);
        }
        i = i + 1;
    }
    proof {
        assert forall|j: int| !spec_match_at(sub, pat@, j) by {
            if j > last {
                assert(j + pat@.len() > sub.len());
            }
        }
    }
    None
}

/// Relies on `String::push`: appends the given character to the end of
/// the string.
#[verifier::external_body]
pub fn push_char(s: &mut String, c: char)
    ensures
        final(s)@ == old(s)@.push(c),
{
    s.push(c);
}

/// What `str::to_lowercase` maps the given characters to; the result
/// depends on the characters alone.
pub uninterp spec fn lower_of(s: Seq<char>) -> Seq<char>;

/// Relies on `str::to_lowercase`: the lowercase mapping depends on the
/// characters alone; an empty string stays empty.
#[verifier::external_body]
pub fn lowercase(s: &str) -> (r: String)
    ensures
        r@ == lower_of(s@),
        s@.len() == 0 ==> r@.len() == 0,
{
    s.to_lowercase()
}

/// The decimal digit character for `d`.
pub open spec fn spec_digit(d: int) -> char {
    if d == 0 {
        '0'
    } else if d == 1 {
        '1'
    } else if d == 2 {
        '2'
    } else if d == 3 {
        '3'
    } else if d == 4 {
        '4'
    } else if d == 5 {
        '5'
    } else if d == 6 {
        '6'
    } else if d == 7 {
        '7'
    } else if d == 8 {
        '8'
    } else {
        '9'
    }
}

/// The decimal rendering of `n`, most significant digit first.
pub open spec fn spec_u64_dec(n: int) -> Seq<char>
    decreases n,
{
    if n < 10 {
        seq![spec_digit(n)]
    } else {
        spec_u64_dec(n / 10).push(spec_digit(n % 10))
    }
}

/// The digit character for `d`.
fn digit_char(d: u64) -> (c: char)
    requires
        d < 10,
    ensures
        c == spec_digit(d as int),
{
    if d == 0 {
        '0'
    } else if d == 1 {
        '1'
    } else if d == 2 {
        '2'
    } else if d == 3 {
        '3'
    } else if d == 4 {
        '4'
    } else if d == 5 {
        '5'
    } else if d == 6 {
        '6'
    } else if d == 7 {
        '7'
    } else if d == 8 {
        '8'
    } else {
        '9'
    }
}

/// Append the decimal rendering of `n` to `s`.
fn u64_dec_into(n: u64, s: &mut String)
    ensures
        final(s)@ == old(s)@ + spec_u64_dec(n as int),
    decreases n,
{
    if n < 10 {
        push_char(s, digit_char(n));
    } else {
        proof {
            assert(n / 10 < n) by (nonlinear_arith)
                requires
                    n >= 10,
            ;
        }
        u64_dec_into(n / 10, s);
        push_char(s, digit_char(n % 10));
    }
}

/// Render `n` in decimal.
pub fn u64_to_dec(n: u64) -> (r: String)
    ensures
        r@ == spec_u64_dec(n as int),
{
    let mut s = String::new();
    u64_dec_into(n, &mut s);
    proof {
        assert(s@ =~= spec_u64_dec(n as int));
    }
    s
}

/// Compare two string slices character by character.
pub fn str_eq(a: &str, b: &str) -> (r: bool)
    ensures
        r == (a@ == b@),
{
    let na = a.unicode_len();
    let nb = b.unicode_len();
    if na != nb {
        return false;
    }
    let mut i: usize = 0;
    while i < na
        invariant
            na == a@.len(),
            na == b@.len(),
            i <= na,
            forall|j: int| 0 <= j < i ==> a@[j] == b@[j],
        decreases na - i,
    {
        if a.get_char(i) != b.get_char(i) {
            return false;
        }
        i = i + 1;
    }
    proof {
        assert(a@ =~= b@);
    }
    true
}

/// `s` with leading and trailing whitespace removed.
pub open spec fn spec_trim(s: Seq<char>) -> Seq<char>
    decreases s.len(),
{
    if s.len() == 0 {
        s
    } else if spec_ws(s[0]) {
        spec_trim(s.drop_first())
    } else if spec_ws(s.last()) {
        spec_trim(s.drop_last())
    } else {
        s
    }
}

/// Narrow `[lo, hi)` to the whitespace-trimmed core of `cs[lo..hi]`.
pub fn trim_range(cs: &Vec<char>, lo: usize, hi: usize) -> (r: (usize, usize))
    requires
        lo <= hi <= cs.len(),
    ensures
        lo <= r.0 <= r.1 <= hi,
        cs@.subrange(r.0 as int, r.1 as int) == spec_trim(cs@.subrange(lo as int, hi as int)),
{
    let mut a: usize = lo;
    let mut b: usize = hi;
    while a < b && is_ws(cs[a])
        invariant
            lo <= a <= b <= hi <= cs.len(),
            spec_trim(cs@.subrange(a as int, b as int)) == spec_trim(
                cs@.subrange(lo as int, hi as int),
            ),
        decreases b - a,
    {
        proof {
            let s = cs@.subrange(a as int, b as int);
            assert(s[0] == cs@[a as int]);
            assert(s.drop_first() =~= cs@.subrange(a + 1, b as int));
        }
        a = a + 1;
    }
    while a < b && is_ws(cs[b - 1])
        invariant
            lo <= a <= b <= hi <= cs.len(),
            spec_trim(cs@.subrange(a as int, b as int)) == spec_trim(
                cs@.subrange(lo as int, hi as int),
            ),
            a < b ==> !spec_ws(cs@[a as int]),
        decreases b - a,
    {
        proof {
            let s = cs@.subrange(a as int, b as int);
            assert(s[0] == cs@[a as int]);
            assert(s.last() == cs@[b - 1]);
            assert(s.drop_last() =~= cs@.subrange(a as int, b - 1));
        }
        b = b - 1;
    }
    proof {
        let s = cs@.subrange(a as int, b as int);
        if s.len() > 0 {
            assert(s[0] == cs@[a as int]);
            assert(s.last() == cs@[b - 1]);
        }
    }
    (a, b)
}

} // verus!
