//! Small verified helpers on strings and decimal numbers that the rest of
//! the library builds its contracts on: views of optional strings and
//! attribute lists, path joining, whitespace trimming, decimal rendering
//! and parsing, and the final component of a path.

use vstd::prelude::*;

verus! {

// ---------------------------------------------------------------------------
// Views
// ---------------------------------------------------------------------------

/// View of an optional string as an optional character sequence.
pub open spec fn opt_view(o: Option<String>) -> Option<Seq<char>> {
    match o {
        Some(s) => Some(s@),
        None => None,
    }
}

/// View of an attribute list as a sequence of pairs of character sequences.
pub open spec fn attrs_view(s: Seq<(String, String)>) -> Seq<(Seq<char>, Seq<char>)> {
    s.map_values(|p: (String, String)| (p.0@, p.1@))
}

/// Viewing an attribute list distributes over appending one pair.
pub proof fn lemma_attrs_view_push(s: Seq<(String, String)>, p: (String, String))
    ensures
        attrs_view(s.push(p)) == attrs_view(s).push((p.0@, p.1@)),
{
    let l = attrs_view(s.push(p));
    let r = attrs_view(s).push((p.0@, p.1@));
    assert forall|j: int| 0 <= j < l.len() implies l[j] == r[j] by {
        if j < s.len() {
            assert(s.push(p)[j] == s[j]);
        } else {
            assert(s.push(p)[j] == p);
        }
    }
    assert(l =~= r);
}

// ---------------------------------------------------------------------------
// Equality and joining
// ---------------------------------------------------------------------------

/// Character-wise equality of two string slices.
pub fn str_eq(a: &str, b: &str) -> (r: bool)
    ensures
        r == (a@ == b@),
{
    let alen = a.unicode_len();
    let blen = b.unicode_len();
    if alen != blen {
        return false;
    }
    let mut i: usize = 0;
    while i < alen
        invariant
            0 <= i <= alen,
            alen == a@.len(),
            alen == b@.len(),
            forall|j: int| 0 <= j < i ==> a@[j] == b@[j],
        decreases alen - i,
    {
        if a.get_char(i) != b.get_char(i) {
            return false;
        }
        i = i + 1;
    }
    proof {
        assert(a@ =~= b@);
    }
    true
}

/// Joins two path components with a single `/` separator.
pub fn join2(a: &str, b: &str) -> (r: String)
    ensures
        r@ == a@ + seq!['/'] + b@,
{
    proof {
        reveal_strlit("/");
        assert("/"@ =~= seq!['/']);
    }
    let mut s = a.to_owned();
    s.append("/");
    s.append(b);
    proof {
        assert(s@ =~= a@ + seq!['/'] + b@);
    }
    s
}

// ---------------------------------------------------------------------------
// Whitespace trimming
// ---------------------------------------------------------------------------

/// The ASCII whitespace characters this library strips around numbers
/// read from the kernel control tree.
pub open spec fn is_ws_char(c: char) -> bool {
    c == ' ' || c == '\t' || c == '\n' || c == '\r'
}

/// `s` without its leading ASCII whitespace.
pub open spec fn ltrim_spec(s: Seq<char>) -> Seq<char>
    decreases s.len(),
{
    if s.len() > 0 && is_ws_char(s[0]) {
        ltrim_spec(s.drop_first())
    } else {
        s
    }
}

/// `s` without its trailing ASCII whitespace.
pub open spec fn rtrim_spec(s: Seq<char>) -> Seq<char>
    decreases s.len(),
{
    if s.len() > 0 && is_ws_char(s.last()) {
        rtrim_spec(s.drop_last())
    } else {
        s
    }
}

/// `s` without leading and trailing ASCII whitespace.
pub open spec fn trim_spec(s: Seq<char>) -> Seq<char> {
    rtrim_spec(ltrim_spec(s))
}

fn is_ws(c: char) -> (r: bool)
    ensures
        r == is_ws_char(c),
{
    c == ' ' || c == '\t' || c == '\n' || c == '\r'
}

/// Strips leading and trailing ASCII whitespace from a string slice.
pub fn trim(s: &str) -> (r: String)
    ensures
        r@ == trim_spec(s@),
{
    let len = s.unicode_len();
    let mut lo: usize = 0;
    proof {
        assert(s@.skip(0) =~= s@);
    }
    while lo < len && is_ws(s.get_char(lo))
        invariant
            0 <= lo <= len,
            len == s@.len(),
            ltrim_spec(s@) == ltrim_spec(s@.skip(lo as int)),
        decreases len - lo,
    {
        proof {
            assert(s@.skip(lo as int).drop_first() =~= s@.skip(lo as int + 1));
        }
        lo = lo + 1;
    }
    proof {
        assert(ltrim_spec(s@) == s@.skip(lo as int));
        assert(s@.skip(lo as int) =~= s@.subrange(lo as int, len as int));
    }
    let mut hi: usize = len;
    while hi > lo && is_ws(s.get_char(hi - 1))
        invariant
            lo <= hi <= len,
            len == s@.len(),
            ltrim_spec(s@) == s@.subrange(lo as int, len as int),
            rtrim_spec(s@.subrange(lo as int, len as int)) == rtrim_spec(
                s@.subrange(lo as int, hi as int),
            ),
        decreases hi,
    {
        proof {
            assert(s@.subrange(lo as int, hi as int).drop_last() =~= s@.subrange(
                lo as int,
                hi as int - 1,
            ));
        }
        hi = hi - 1;
    }
    let r = s.substring_char(lo, hi);
    proof {
        assert(rtrim_spec(s@.subrange(lo as int, hi as int)) == s@.subrange(lo as int, hi as int));
    }
    r.to_owned()
}

// ---------------------------------------------------------------------------
// Decimal rendering
// ---------------------------------------------------------------------------

/// The decimal digit character for `d` in `0 ..= 9`.
pub open spec fn digit_char(d: int) -> char {
    if d == 0 {
        '0'
    } else if d == 1 {
        '1'
    } else if d == 2 {
        '2'
    } else if d == 3 {
        '3'
    } else if d == 4 {
        '4'
    } else if d == 5 {
        '5'
    } else if d == 6 {
        '6'
    } else if d == 7 {
        '7'
    } else if d == 8 {
        '8'
    } else {
        '9'
    }
}

/// The decimal rendering of a non-negative integer.
pub open spec fn dec_seq(n: int) -> Seq<char>
    decreases n,
{
    if n < 10 {
        seq![digit_char(n)]
    } else {
        dec_seq(n / 10).push(digit_char(n % 10))
    }
}

/// The decimal rendering of a signed integer.
pub open spec fn dec_seq_signed(n: int) -> Seq<char> {
    if n < 0 {
        seq!['-'] + dec_seq(-n)
    } else {
        dec_seq(n)
    }
}

fn digit_str(d: u64) -> (r: &'static str)
    requires
        d < 10,
    ensures
        r@ == seq![digit_char(d as int)],
{
    proof {
        reveal_strlit("0");
        reveal_strlit("1");
        reveal_strlit("2");
        reveal_strlit("3");
        reveal_strlit("4");
        reveal_strlit("5");
        reveal_strlit("6");
        reveal_strlit("7");
        reveal_strlit("8");
        reveal_strlit("9");
    }
    let r: &'static str = if d == 0 {
        "0"
    } else if d == 1 {
        "1"
    } else if d == 2 {
        "2"
    } else if d == 3 {
        "3"
    } else if d == 4 {
        "4"
    } else if d == 5 {
        "5"
    } else if d == 6 {
        "6"
    } else if d == 7 {
        "7"
    } else if d == 8 {
        "8"
    } else {
        "9"
    };
    proof {
        assert(r@ =~= seq![digit_char(d as int)]);
    }
    r
}

/// Renders a `u64` in decimal.
pub fn u64_to_dec(n: u64) -> (r: String)
    ensures
        r@ == dec_seq(n as int),
    decreases n,
{
    if n < 10 {
        digit_str(n).to_owned()
    } else {
        let mut s = u64_to_dec(n / 10);
        s.append(digit_str(n % 10));
        proof {
            assert(s@ =~= dec_seq(n as int / 10).push(digit_char(n as int % 10)));
        }
        s
    }
}

/// Renders an `i32` in decimal, with a leading `-` when negative.
pub fn i32_to_dec(n: i32) -> (r: String)
    ensures
        r@ == dec_seq_signed(n as int),
{
    if n >= 0 {
        u64_to_dec(n as u64)
    } else {
        let mag: u64 = (-(n as i64)) as u64;
        proof {
            reveal_strlit("-");
            assert("-"@ =~= seq!['-']);
        }
        let mut s = "-".to_owned();
        s.append(u64_to_dec(mag).as_str());
        proof {
            assert(s@ =~= dec_seq_signed(n as int));
        }
        s
    }
}

// ---------------------------------------------------------------------------
// Decimal parsing
// ---------------------------------------------------------------------------

/// Whether `c` is an ASCII decimal digit.
pub open spec fn is_digit(c: char) -> bool {
    48 <= c as u32 <= 57
}

/// The numeric value of a digit character.
pub open spec fn digit_val(c: char) -> int {
    c as u32 - 48
}

/// Whether every character of `s` is an ASCII decimal digit.
pub open spec fn all_digits(s: Seq<char>) -> bool {
    forall|i: int| 0 <= i < s.len() ==> is_digit(s[i])
}

/// The value of a digit string, most significant digit first.
pub open spec fn digits_val(s: Seq<char>) -> int
    decreases s.len(),
{
    if s.len() == 0 {
        0
    } else {
        digits_val(s.drop_last()) * 10 + digit_val(s.last())
    }
}

/// The value a decimal literal with optional sign denotes as an `i32`,
/// or `None` where the text is not such a literal or does not fit.
pub open spec fn dec_i32(s: Seq<char>) -> Option<i32> {
    let neg = s.len() > 0 && s[0] == '-';
    let ds = if s.len() > 0 && (s[0] == '-' || s[0] == '+') {
        s.drop_first()
    } else {
        s
    };
    if ds.len() > 0 && all_digits(ds) {
        let v = if neg {
            -digits_val(ds)
        } else {
            digits_val(ds)
        };
        if -0x8000_0000 <= v <= 0x7fff_ffff {
            Some(v as i32)
        } else {
            None
        }
    } else {
        None
    }
}

/// Relies on `str::parse::<i32>`: it accepts an optional `+` or `-` sign
/// followed by one or more ASCII decimal digits, and rejects anything
/// else as well as values outside the `i32` range.
#[verifier::external_body]
pub fn parse_i32(s: &str) -> (r: Option<i32>)
    ensures
        r == dec_i32(s@),
{
    match s.parse::<i32>() {
        Ok(v) => Some(v),
        Err(_) => None,
    }
}

// ---------------------------------------------------------------------------
// Path basename
// ---------------------------------------------------------------------------

/// Length of the longest suffix of `s` that holds no `/`.
pub open spec fn suffix_len_no_slash(s: Seq<char>) -> int
    decreases s.len(),
{
    if s.len() == 0 || s.last() == '/' {
        0
    } else {
        1 + suffix_len_no_slash(s.drop_last())
    }
}

/// The final path component of `s`: everything after the last `/`.
pub open spec fn basename_spec(s: Seq<char>) -> Seq<char> {
    s.subrange(s.len() - suffix_len_no_slash(s), s.len() as int)
}

proof fn lemma_suffix_len(s: Seq<char>, j: int)
    requires
        0 <= j <= s.len(),
        forall|m: int| j <= m < s.len() ==> s[m] != '/',
        j == 0 || s[j - 1] == '/',
    ensures
        suffix_len_no_slash(s) == s.len() - j,
    decreases s.len() - j,
{
    if j == s.len() {
        if s.len() > 0 {
            assert(s.last() == s[j - 1]);
        }
    } else {
        assert(s.last() != '/');
        assert(forall|m: int| j <= m < s.drop_last().len() ==> s.drop_last()[m] != '/');
        if j > 0 {
            assert(s.drop_last()[j - 1] == s[j - 1]);
        }
        lemma_suffix_len(s.drop_last(), j);
    }
}

/// Returns the final path component of `s`.
pub fn basename(s: &str) -> (r: String)
    ensures
        r@ == basename_spec(s@),
{
    let len = s.unicode_len();
    let mut j: usize = len;
    while j > 0 && s.get_char(j - 1) != '/'
        invariant
            0 <= j <= len,
            len == s@.len(),
            forall|m: int| j <= m < len ==> s@[m] != '/',
        decreases j,
    {
        j = j - 1;
    }
    proof {
        lemma_suffix_len(s@, j as int);
    }
    let r = s.substring_char(j, len);
    r.to_owned()
}

} // verus!
