use vstd::prelude::*;
use vstd::string::*;

verus! {

/// Whether `c` has the Unicode `White_Space` property, the set that
/// `char::is_whitespace` recognizes.
pub open spec fn is_ws(c: char) -> bool {
    c == ' ' || c == '\t' || c == '\n' || c == '\u{b}' || c == '\u{c}' || c == '\r'
        || c == '\u{85}' || c == '\u{a0}' || c == '\u{1680}'
        || ('\u{2000}' <= c && c <= '\u{200a}')
        || c == '\u{2028}' || c == '\u{2029}' || c == '\u{202f}' || c == '\u{205f}'
        || c == '\u{3000}'
}

pub fn is_ws_char(c: char) -> (r: bool)
    ensures
        r == is_ws(c),
{
    c == ' ' || c == '\t' || c == '\n' || c == '\u{b}' || c == '\u{c}' || c == '\r'
        || c == '\u{85}' || c == '\u{a0}' || c == '\u{1680}'
        || ('\u{2000}' <= c && c <= '\u{200a}')
        || c == '\u{2028}' || c == '\u{2029}' || c == '\u{202f}' || c == '\u{205f}'
        || c == '\u{3000}'
}

/// First index in `[lo, hi)` holding a non-whitespace character, or `hi`.
pub open spec fn skip_ws(s: Seq<char>, lo: int, hi: int) -> int
    decreases hi - lo,
{
    if lo >= hi {
        hi
    } else if is_ws(s[lo]) {
        skip_ws(s, lo + 1, hi)
    } else {
        lo
    }
}

pub proof fn lemma_skip_ws_bounds(s: Seq<char>, lo: int, hi: int)
    requires
        lo <= hi,
    ensures
        lo <= skip_ws(s, lo, hi) <= hi,
        skip_ws(s, lo, hi) < hi ==> !is_ws(s[skip_ws(s, lo, hi)]),
        forall|k: int| lo <= k < skip_ws(s, lo, hi) ==> is_ws(s[k]),
    decreases hi - lo,
{
    if lo < hi && is_ws(s[lo]) {
        lemma_skip_ws_bounds(s, lo + 1, hi);
    }
}

/// One past the last non-whitespace character in `[lo, hi)`, or `lo`.
pub open spec fn rskip_ws(s: Seq<char>, lo: int, hi: int) -> int
    decreases hi - lo,
{
    if hi <= lo {
        lo
    } else if is_ws(s[hi - 1]) {
        rskip_ws(s, lo, hi - 1)
    } else {
        hi
    }
}

pub proof fn lemma_rskip_ws_bounds(s: Seq<char>, lo: int, hi: int)
    requires
        lo <= hi,
    ensures
        lo <= rskip_ws(s, lo, hi) <= hi,
        rskip_ws(s, lo, hi) > lo ==> !is_ws(s[rskip_ws(s, lo, hi) - 1]),
        forall|k: int| rskip_ws(s, lo, hi) <= k < hi ==> is_ws(s[k]),
    decreases hi - lo,
{
    if lo < hi && is_ws(s[hi - 1]) {
        lemma_rskip_ws_bounds(s, lo, hi - 1);
    }
}

/// Start of the whitespace-trimmed form of the range `[lo, hi)`.
pub open spec fn trim_lo(s: Seq<char>, lo: int, hi: int) -> int {
    skip_ws(s, lo, hi)
}

/// End of the whitespace-trimmed form of the range `[lo, hi)`.
pub open spec fn trim_hi(s: Seq<char>, lo: int, hi: int) -> int {
    rskip_ws(s, trim_lo(s, lo, hi), hi)
}

/// The whitespace-trimmed form of the range `[lo, hi)` of `s`.
pub open spec fn trim_in(s: Seq<char>, lo: int, hi: int) -> Seq<char> {
    s.subrange(trim_lo(s, lo, hi), trim_hi(s, lo, hi))
}

/// The whitespace-trimmed form of a whole sequence.
pub open spec fn trim_spec(s: Seq<char>) -> Seq<char> {
    trim_in(s, 0, s.len() as int)
}

/// Whether the range `[lo, hi)` of `s` is blank, that is all whitespace.
pub open spec fn blank_in(s: Seq<char>, lo: int, hi: int) -> bool {
    skip_ws(s, lo, hi) == hi
}

/// Computes the bounds of the whitespace-trimmed form of `[lo, hi)`.
pub fn trim_range(s: &str, lo: usize, hi: usize) -> (r: (usize, usize))
    requires
        lo <= hi <= s@.len(),
    ensures
        r.0 == trim_lo(s@, lo as int, hi as int),
        r.1 == trim_hi(s@, lo as int, hi as int),
        lo <= r.0 <= r.1 <= hi,
{
    proof {
        lemma_skip_ws_bounds(s@, lo as int, hi as int);
    }
    let mut a = lo;
    while a < hi && is_ws_char(s.get_char(a))
        invariant
            lo <= a <= hi <= s@.len(),
            skip_ws(s@, lo as int, hi as int) == skip_ws(s@, a as int, hi as int),
        decreases hi - a,
    {
        a = a + 1;
    }
    assert(skip_ws(s@, a as int, hi as int) == a as int);
    proof {
        lemma_rskip_ws_bounds(s@, a as int, hi as int);
    }
    let mut b = hi;
    while b > a && is_ws_char(s.get_char(b - 1))
        invariant
            a <= b <= hi <= s@.len(),
            rskip_ws(s@, a as int, hi as int) == rskip_ws(s@, a as int, b as int),
        decreases b,
    {
        b = b - 1;
    }
    assert(rskip_ws(s@, a as int, b as int) == b as int);
    (a, b)
}

/// First index in `[lo, hi)` holding `c`, or `hi` if there is none.
pub open spec fn find_char(s: Seq<char>, lo: int, hi: int, c: char) -> int
    decreases hi - lo,
{
    if lo >= hi {
        hi
    } else if s[lo] == c {
        lo
    } else {
        find_char(s, lo + 1, hi, c)
    }
}

pub proof fn lemma_find_char_bounds(s: Seq<char>, lo: int, hi: int, c: char)
    requires
        lo <= hi,
    ensures
        lo <= find_char(s, lo, hi, c) <= hi,
        find_char(s, lo, hi, c) < hi ==> s[find_char(s, lo, hi, c)] == c,
        forall|k: int| lo <= k < find_char(s, lo, hi, c) ==> s[k] != c,
    decreases hi - lo,
{
    if lo < hi && s[lo] != c {
        lemma_find_char_bounds(s, lo + 1, hi, c);
    }
}

/// Finds the first occurrence of `c` in `[lo, hi)`, or `hi`.
pub fn find_char_from(s: &str, lo: usize, hi: usize, c: char) -> (r: usize)
    requires
        lo <= hi <= s@.len(),
    ensures
        r == find_char(s@, lo as int, hi as int, c),
        lo <= r <= hi,
{
    proof {
        lemma_find_char_bounds(s@, lo as int, hi as int, c);
    }
    let mut i = lo;
    while i < hi && s.get_char(i) != c
        invariant
            lo <= i <= hi <= s@.len(),
            find_char(s@, lo as int, hi as int, c) == find_char(s@, i as int, hi as int, c),
        decreases hi - i,
    {
        i = i + 1;
    }
    assert(find_char(s@, i as int, hi as int, c) == i as int);
    i
}

/// First index in `[lo, hi)` holding a whitespace character, or `hi`.
pub open spec fn find_ws(s: Seq<char>, lo: int, hi: int) -> int
    decreases hi - lo,
{
    if lo >= hi {
        hi
    } else if is_ws(s[lo]) {
        lo
    } else {
        find_ws(s, lo + 1, hi)
    }
}

/// Finds the first whitespace character in `[lo, hi)`, or `hi`.
pub fn find_ws_from(s: &str, lo: usize, hi: usize) -> (r: usize)
    requires
        lo <= hi <= s@.len(),
    ensures
        r == find_ws(s@, lo as int, hi as int),
        lo <= r <= hi,
{
    let mut i = lo;
    while i < hi && !is_ws_char(s.get_char(i))
        invariant
            lo <= i <= hi <= s@.len(),
            find_ws(s@, lo as int, hi as int) == find_ws(s@, i as int, hi as int),
        decreases hi - i,
    {
        i = i + 1;
    }
    assert(find_ws(s@, i as int, hi as int) == i as int);
    i
}

/// Whether two string slices hold the same characters.
pub fn str_eq(a: &str, b: &str) -> (r: bool)
    ensures
        r == (a@ == b@),
{
    let na = a.unicode_len();
    let nb = b.unicode_len();
    if na != nb {
        assert(a@ != b@);
        return false;
    }
    let mut i: usize = 0;
    while i < na
        invariant
            i <= na,
            na == a@.len(),
            na == b@.len(),
            forall|k: int| 0 <= k < i ==> a@[k] == b@[k],
        decreases na - i,
    {
        if a.get_char(i) != b.get_char(i) {
            assert(a@ != b@);
            return false;
        }
        i = i + 1;
    }
    assert(a@ =~= b@);
    true
}

/// Whether `x` occurs among the character sequences of `v`.
pub open spec fn contains_str(v: Seq<String>, x: Seq<char>) -> bool {
    exists|i: int| 0 <= i < v.len() && v[i]@ == x
}

/// The character sequences of a sequence of strings.
pub open spec fn views_of(v: Seq<String>) -> Seq<Seq<char>> {
    v.map_values(|x: String| x@)
}

/// The view of an optional owned string.
pub open spec fn opt_view(o: Option<String>) -> Option<Seq<char>> {
    match o {
        Some(s) => Some(s@),
        None => None,
    }
}

/// Whether `x` occurs in a sequence of character sequences.
pub open spec fn seq_contains(ss: Seq<Seq<char>>, x: Seq<char>) -> bool {
    exists|i: int| 0 <= i < ss.len() && ss[i] == x
}

pub proof fn lemma_contains_views(v: Seq<String>, x: Seq<char>)
    ensures
        contains_str(v, x) == seq_contains(views_of(v), x),
{
    if contains_str(v, x) {
        let i = choose|i: int| 0 <= i < v.len() && v[i]@ == x;
        assert(views_of(v)[i] == x);
    }
    if seq_contains(views_of(v), x) {
        let i = choose|i: int| 0 <= i < views_of(v).len() && views_of(v)[i] == x;
        assert(v[i]@ == x);
    }
}

/// Whether some element of `v` holds the characters of `x`.
pub fn vec_contains_str(v: &Vec<String>, x: &str) -> (r: bool)
    ensures
        r == contains_str(v@, x@),
{
    let n = v.len();
    let mut i: usize = 0;
    while i < n
        invariant
            i <= n,
            n == v@.len(),
            forall|k: int| 0 <= k < i ==> v@[k]@ != x@,
        decreases n - i,
    {
        if str_eq(v[i].as_str(), x) {
            return true;
        }
        i = i + 1;
    }
    false
}

/// The value of the decimal digits in `[lo, hi)`, read left to right.
pub open spec fn digits_val(s: Seq<char>, lo: int, hi: int) -> int
    decreases hi - lo,
{
    if hi <= lo {
        0
    } else {
        digits_val(s, lo, hi - 1) * 10 + (s[hi - 1] as int - '0' as int)
    }
}

/// Whether every character in `[lo, hi)` is a decimal digit.
pub open spec fn all_digits(s: Seq<char>, lo: int, hi: int) -> bool {
    forall|k: int| lo <= k < hi ==> '0' <= #[trigger] s[k] <= '9'
}

/// What `str::parse::<i64>` returns on the range `[lo, hi)`: an optional
/// sign followed by at least one digit, with the value in `i64` range.
pub open spec fn parse_i64_spec(s: Seq<char>, lo: int, hi: int) -> Option<int> {
    let neg = lo < hi && s[lo] == '-';
    let d0 = if lo < hi && (s[lo] == '-' || s[lo] == '+') {
        lo + 1
    } else {
        lo
    };
    if d0 < hi && all_digits(s, d0, hi) {
        let mag = digits_val(s, d0, hi);
        let v = if neg {
            -mag
        } else {
            mag
        };
        if i64::MIN <= v <= i64::MAX {
            Some(v)
        } else {
            None
        }
    } else {
        None
    }
}

proof fn lemma_parse_none_bad_digit(s: Seq<char>, lo: int, hi: int)
    requires
        lo <= hi,
        !all_digits(s, if lo < hi && (s[lo] == '-' || s[lo] == '+') { lo + 1 } else { lo }, hi),
    ensures
        parse_i64_spec(s, lo, hi) is None,
{
}

proof fn lemma_parse_none_too_big(s: Seq<char>, lo: int, hi: int)
    requires
        lo < hi,
        ({
            let d0 = if s[lo] == '-' || s[lo] == '+' {
                lo + 1
            } else {
                lo
            };
            all_digits(s, d0, hi) ==> digits_val(s, d0, hi) > 0x8000_0000_0000_0000
        }),
    ensures
        parse_i64_spec(s, lo, hi) is None,
{
}

proof fn lemma_parse_none_pos_bound(s: Seq<char>, lo: int, hi: int)
    requires
        lo < hi,
        s[lo] != '-',
        ({
            let d0 = if s[lo] == '+' {
                lo + 1
            } else {
                lo
            };
            all_digits(s, d0, hi) ==> digits_val(s, d0, hi) >= 0x8000_0000_0000_0000
        }),
    ensures
        parse_i64_spec(s, lo, hi) is None,
{
}

proof fn lemma_digits_val_nonneg(s: Seq<char>, lo: int, hi: int)
    requires
        all_digits(s, lo, hi),
    ensures
        digits_val(s, lo, hi) >= 0,
    decreases hi - lo,
{
    if hi > lo {
        lemma_digits_val_nonneg(s, lo, hi - 1);
    }
}

/// Parses the range `[lo, hi)` as a signed 64-bit decimal integer,
/// as `str::parse::<i64>` would.
pub fn parse_i64_range(s: &str, lo: usize, hi: usize) -> (r: Option<i64>)
    requires
        lo <= hi <= s@.len(),
    ensures
        match r {
            Some(v) => parse_i64_spec(s@, lo as int, hi as int) == Some(v as int),
            None => parse_i64_spec(s@, lo as int, hi as int) is None,
        },
{
    if lo >= hi {
        return None;
    }
    let c0 = s.get_char(lo);
    let neg = c0 == '-';
    let d0 = if c0 == '-' || c0 == '+' {
        lo + 1
    } else {
        lo
    };
    if d0 >= hi {
        return None;
    }
    let mut i = d0;
    let mut mag: i128 = 0;
    let bound: i128 = 9223372036854775808i128;
    #[verifier::loop_isolation(false)]
    while i < hi
        invariant
            d0 <= i <= hi <= s@.len(),
            all_digits(s@, d0 as int, i as int),
            mag == digits_val(s@, d0 as int, i as int),
            0 <= mag <= bound,
            bound == 0x8000_0000_0000_0000i128,
        decreases hi - i,
    {
        let c = s.get_char(i);
        if c < '0' || c > '9' {
            proof {
                assert(!all_digits(s@, d0 as int, hi as int));
                lemma_parse_none_bad_digit(s@, lo as int, hi as int);
            }
            return None;
        }
        let d = (c as u32 - '0' as u32) as i128;
        mag = mag * 10 + d;
        i = i + 1;
        if mag > bound {
            proof {
                lemma_digits_overflow(s@, d0 as int, i as int, hi as int, bound as int);
                lemma_parse_none_too_big(s@, lo as int, hi as int);
            }
            return None;
        }
    }
    if neg {
        let v: i64 = (-mag) as i64;
        Some(v)
    } else {
        if mag == bound {
            proof {
                lemma_parse_none_pos_bound(s@, lo as int, hi as int);
            }
            return None;
        }
        Some(mag as i64)
    }
}

proof fn lemma_digits_overflow(s: Seq<char>, d0: int, i: int, hi: int, bound: int)
    requires
        d0 <= i <= hi,
        all_digits(s, d0, i),
        digits_val(s, d0, i) > bound,
        bound >= 0,
    ensures
        all_digits(s, d0, hi) ==> digits_val(s, d0, hi) > bound,
    decreases hi - i,
{
    if i < hi {
        if all_digits(s, d0, i + 1) {
            lemma_digits_val_nonneg(s, d0, i);
            assert(digits_val(s, d0, i + 1) == digits_val(s, d0, i) * 10 + (s[i] as int
                - '0' as int));
            lemma_digits_overflow(s, d0, i + 1, hi, bound);
        }
    }
}

} // verus!
