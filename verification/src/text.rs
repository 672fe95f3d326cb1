//! Character and string helpers shared by the providers and the ranking model.

use vstd::prelude::*;
#[allow(unused_imports)]
use vstd::string::StringSliceAdditionalSpecFns;

verus! {

broadcast use vstd::string::group_string_axioms;

/// Unicode `White_Space`, the set that `char::is_whitespace` tests.
pub open spec fn is_ws(c: char) -> bool {
    let u = c as u32;
    ||| (0x9 <= u && u <= 0xd)
    ||| u == 0x20
    ||| u == 0x85
    ||| u == 0xa0
    ||| u == 0x1680
    ||| (0x2000 <= u && u <= 0x200a)
    ||| u == 0x2028
    ||| u == 0x2029
    ||| u == 0x202f
    ||| u == 0x205f
    ||| u == 0x3000
}

pub fn char_is_whitespace(c: char) -> (b: bool)
    ensures
        b == is_ws(c),
{
    let u = c as u32;
    (0x9 <= u && u <= 0xd) || u == 0x20 || u == 0x85 || u == 0xa0 || u == 0x1680 || (0x2000 <= u
        && u <= 0x200a) || u == 0x2028 || u == 0x2029 || u == 0x202f || u == 0x205f || u == 0x3000
}

/// The characters of a string slice, in order.
pub fn chars_of(s: &str) -> (v: Vec<char>)
    ensures
        v@ == s@,
{
    let mut v: Vec<char> = Vec::new();
    for c in it: s.chars()
        invariant
            it.seq() == s@,
            v@ == it.seq().take(it.index() as int),
    {
        v.push(c);
    }
    v
}

/// `String::push`: appends `c` to `s`, as its documentation says.
#[verifier::external_body]
pub(crate) fn push_char(s: &mut String, c: char)
    ensures
        final(s)@ == old(s)@.push(c),
{
    s.push(c);
}

/// Build a string from a sequence of characters.
pub fn string_from_chars(v: &Vec<char>) -> (s: String)
    ensures
        s@ == v@,
{
    let mut s = String::new();
    let mut i: usize = 0;
    while i < v.len()
        invariant
            i <= v.len(),
            s@ == v@.take(i as int),
        decreases v.len() - i,
    {
        push_char(&mut s, v[i]);
        proof {
            assert(v@.take(i + 1) == v@.take(i as int).push(v@[i as int]));
        }
        i += 1;
    }
    proof {
        assert(v@.take(v.len() as int) == v@);
    }
    s
}

pub fn lit(s: &str) -> (r: String)
    ensures
        r@ == s@,
{
    s.to_string()
}


pub open spec fn trim_start_seq(s: Seq<char>) -> Seq<char>
    decreases s.len(),
{
    if s.len() > 0 && is_ws(s[0]) {
        trim_start_seq(s.drop_first())
    } else {
        s
    }
}

pub open spec fn trim_end_seq(s: Seq<char>) -> Seq<char>
    decreases s.len(),
{
    if s.len() > 0 && is_ws(s.last()) {
        trim_end_seq(s.drop_last())
    } else {
        s
    }
}

/// `str::trim`: drop leading and trailing whitespace.
pub open spec fn trim_seq(s: Seq<char>) -> Seq<char> {
    trim_end_seq(trim_start_seq(s))
}

/// Index of the first character that is not whitespace (or the length).
pub fn trim_start_index(v: &Vec<char>) -> (i: usize)
    ensures
        i <= v@.len(),
        trim_start_seq(v@) == v@.skip(i as int),
{
    let mut i: usize = 0;
    proof {
        assert(v@.skip(0) =~= v@);
    }
    while i < v.len() && char_is_whitespace(v[i])
        invariant
            i <= v@.len(),
            trim_start_seq(v@) == trim_start_seq(v@.skip(i as int)),
        decreases v@.len() - i,
    {
        proof {
            assert(v@.skip(i as int).drop_first() =~= v@.skip(i + 1));
        }
        i += 1;
    }
    proof {
        assert(v@.skip(i as int).len() == 0 || !is_ws(v@.skip(i as int)[0]));
    }
    i
}

/// Index just past the last character that is not whitespace, searching `v[lo..]`.
pub fn trim_end_index(v: &Vec<char>, lo: usize) -> (j: usize)
    requires
        lo <= v@.len(),
    ensures
        lo <= j <= v@.len(),
        trim_end_seq(v@.subrange(lo as int, v@.len() as int)) == v@.subrange(lo as int, j as int),
{
    let mut j: usize = v.len();
    while j > lo && char_is_whitespace(v[j - 1])
        invariant
            lo <= j <= v@.len(),
            trim_end_seq(v@.subrange(lo as int, v@.len() as int)) == trim_end_seq(
                v@.subrange(lo as int, j as int),
            ),
        decreases j,
    {
        proof {
            assert(v@.subrange(lo as int, j as int).drop_last() =~= v@.subrange(
                lo as int,
                j - 1,
            ));
        }
        j -= 1;
    }
    j
}

pub proof fn lemma_trim_parts(s: Seq<char>, i: int, j: int)
    requires
        0 <= i <= j <= s.len(),
        trim_start_seq(s) == s.skip(i),
        trim_end_seq(s.subrange(i, s.len() as int)) == s.subrange(i, j),
    ensures
        trim_seq(s) == s.subrange(i, j),
{
    assert(s.skip(i) =~= s.subrange(i, s.len() as int));
}

/// The characters of `v[lo..hi]` as a new vector.
pub fn sub_chars(v: &Vec<char>, lo: usize, hi: usize) -> (r: Vec<char>)
    requires
        lo <= hi <= v@.len(),
    ensures
        r@ == v@.subrange(lo as int, hi as int),
{
    let mut r: Vec<char> = Vec::new();
    let mut k = lo;
    while k < hi
        invariant
            lo <= k <= hi,
            hi <= v@.len(),
            r@ == v@.subrange(lo as int, k as int),
        decreases hi - k,
    {
        r.push(v[k]);
        proof {
            assert(v@.subrange(lo as int, k + 1) =~= v@.subrange(lo as int, k as int).push(v@[k as int]));
        }
        k += 1;
    }
    r
}

/// Trim a vector of characters.
pub fn trim_chars(v: &Vec<char>) -> (r: Vec<char>)
    ensures
        r@ == trim_seq(v@),
{
    let i = trim_start_index(v);
    let j = trim_end_index(v, i);
    proof {
        lemma_trim_parts(v@, i as int, j as int);
    }
    sub_chars(v, i, j)
}

/// `str::trim`.
pub fn trim(s: &str) -> (r: String)
    ensures
        r@ == trim_seq(s@),
{
    let v = chars_of(s);
    let t = trim_chars(&v);
    string_from_chars(&t)
}

/// `str::trim_start`.
pub fn trim_start_chars(v: &Vec<char>) -> (r: Vec<char>)
    ensures
        r@ == trim_start_seq(v@),
{
    let i = trim_start_index(v);
    proof {
        assert(v@.skip(i as int) =~= v@.subrange(i as int, v@.len() as int));
    }
    sub_chars(v, i, v.len())
}

pub open spec fn ascii_lower_char(c: char) -> char {
    if 'A' <= c && c <= 'Z' {
        ((c as u32) + 32) as char
    } else {
        c
    }
}

/// `str::to_ascii_lowercase`.
pub open spec fn ascii_lower(s: Seq<char>) -> Seq<char> {
    s.map_values(|c: char| ascii_lower_char(c))
}

pub fn char_to_ascii_lowercase(c: char) -> (r: char)
    ensures
        r == ascii_lower_char(c),
{
    if 'A' <= c && c <= 'Z' {
        let u = (c as u32) + 32;
        proof {
            assert(0x61 <= u <= 0x7a);
        }
        char_from_ascii_code(u)
    } else {
        c
    }
}

/// A character from its code, for codes below `0x80`.
pub fn char_from_ascii_code(u: u32) -> (c: char)
    requires
        u < 0x80,
    ensures
        c == u as char,
        c as u32 == u,
{
    let b = u as u8;
    let c = b as char;
    proof {
        assert(c as u32 == b as u32);
    }
    c
}

pub fn lower_chars(v: &Vec<char>) -> (r: Vec<char>)
    ensures
        r@ == ascii_lower(v@),
{
    let mut r: Vec<char> = Vec::new();
    let mut i: usize = 0;
    while i < v.len()
        invariant
            i <= v@.len(),
            r@ == ascii_lower(v@.take(i as int)),
        decreases v@.len() - i,
    {
        r.push(char_to_ascii_lowercase(v[i]));
        proof {
            assert(ascii_lower(v@.take(i + 1)) =~= ascii_lower(v@.take(i as int)).push(ascii_lower_char(v@[i as int])));
        }
        i += 1;
    }
    proof {
        assert(v@.take(v@.len() as int) =~= v@);
    }
    r
}

pub fn to_ascii_lowercase(s: &str) -> (r: String)
    ensures
        r@ == ascii_lower(s@),
{
    let v = chars_of(s);
    let l = lower_chars(&v);
    string_from_chars(&l)
}

/// `a` followed by `b`.
pub fn concat2(a: &str, b: &str) -> (r: String)
    ensures
        r@ == a@ + b@,
{
    let mut r = lit(a);
    r.append(b);
    r
}

/// Append `b` to `a`.
pub fn append_str(a: &mut String, b: &str)
    ensures
        final(a)@ == old(a)@ + b@,
{
    a.append(b);
}

pub open spec fn seq_starts_with(s: Seq<char>, p: Seq<char>) -> bool {
    p.len() <= s.len() && s.subrange(0, p.len() as int) == p
}

pub open spec fn seq_ends_with(s: Seq<char>, p: Seq<char>) -> bool {
    p.len() <= s.len() && s.subrange(s.len() - p.len(), s.len() as int) == p
}

/// `s` holds `p` as a contiguous piece starting at `i`.
pub open spec fn occurs_at(s: Seq<char>, p: Seq<char>, i: int) -> bool {
    0 <= i && i + p.len() <= s.len() && s.subrange(i, i + p.len()) == p
}

pub open spec fn seq_contains_sub(s: Seq<char>, p: Seq<char>) -> bool {
    exists|i: int| occurs_at(s, p, i)
}

/// Does `v` hold `p` starting at `i`?
pub fn chars_match_at(v: &Vec<char>, p: &Vec<char>, i: usize) -> (b: bool)
    ensures
        b == occurs_at(v@, p@, i as int),
{
    if i > v.len() || p.len() > v.len() - i {
        return false;
    }
    let mut k: usize = 0;
    while k < p.len()
        invariant
            i + p@.len() <= v.len(),
            k <= p@.len(),
            forall|m: int| 0 <= m < k ==> v@[i + m] == p@[m],
        decreases p@.len() - k,
    {
        if v[i + k] != p[k] {
            proof {
                assert(v@.subrange(i as int, i + p@.len())[k as int] != p@[k as int]);
            }
            return false;
        }
        k += 1;
    }
    proof {
        assert(v@.subrange(i as int, i + p@.len()) =~= p@);
    }
    true
}

pub fn chars_starts_with(v: &Vec<char>, p: &Vec<char>) -> (b: bool)
    ensures
        b == seq_starts_with(v@, p@),
{
    chars_match_at(v, p, 0)
}

pub fn chars_ends_with(v: &Vec<char>, p: &Vec<char>) -> (b: bool)
    ensures
        b == seq_ends_with(v@, p@),
{
    if p.len() > v.len() {
        return false;
    }
    chars_match_at(v, p, v.len() - p.len())
}

pub fn chars_contains(v: &Vec<char>, p: &Vec<char>) -> (b: bool)
    ensures
        b == seq_contains_sub(v@, p@),
{
    if p.len() == 0 {
        proof {
            assert(v@.subrange(0, 0) =~= p@);
            assert(occurs_at(v@, p@, 0));
        }
        return true;
    }
    if p.len() > v.len() {
        return false;
    }
    let last = v.len() - p.len();
    let mut i: usize = 0;
    while i <= last
        invariant
            last == v@.len() - p@.len(),
            last < usize::MAX,
            p@.len() >= 1,
            i <= last + 1,
            forall|m: int| 0 <= m < i ==> !occurs_at(v@, p@, m),
        decreases last + 1 - i,
    {
        if chars_match_at(v, p, i) {
            return true;
        }
        i += 1;
    }
    proof {
        assert forall|m: int| !occurs_at(v@, p@, m) by {
            if 0 <= m && m + p@.len() <= v@.len() {
                assert(m < i);
            }
        }
    }
    false
}

/// Decimal digits of a natural number, most significant first.
pub open spec fn nat_digits(n: nat) -> Seq<char>
    decreases n,
{
    if n < 10 {
        seq![digit_char(n)]
    } else {
        nat_digits(n / 10).push(digit_char(n % 10))
    }
}

pub open spec fn digit_char(d: nat) -> char {
    ((48 + d) as u32) as char
}

fn digit_of(d: u64) -> (c: char)
    requires
        d < 10,
    ensures
        c == digit_char(d as nat),
{
    char_from_ascii_code((48 + d) as u32)
}

/// The decimal text of `n`, as `format!("{n}")` writes it.
pub fn u64_to_decimal(n: u64) -> (s: String)
    ensures
        s@ == nat_digits(n as nat),
    decreases n,
{
    if n < 10 {
        let mut s = String::new();
        push_char(&mut s, digit_of(n));
        proof {
            assert(s@ =~= seq![digit_char(n as nat)]);
        }
        s
    } else {
        let mut s = u64_to_decimal(n / 10);
        push_char(&mut s, digit_of(n % 10));
        s
    }
}

pub fn usize_to_decimal(n: usize) -> (s: String)
    ensures
        s@ == nat_digits(n as nat),
{
    u64_to_decimal(n as u64)
}

/// Decimal text of a signed number, with a leading `-` when negative.
pub open spec fn int_digits(n: int) -> Seq<char> {
    if n < 0 {
        seq!['-'] + nat_digits((-n) as nat)
    } else {
        nat_digits(n as nat)
    }
}

pub fn i64_to_decimal(n: i64) -> (s: String)
    ensures
        s@ == int_digits(n as int),
{
    if n < 0 {
        let m: u64 = if n == i64::MIN {
            9223372036854775808u64
        } else {
            (-n) as u64
        };
        let digits = u64_to_decimal(m);
        proof {
            reveal_strlit("-");
            assert(m as nat == (-(n as int)) as nat);
        }
        let r = concat2("-", digits.as_str());
        proof {
            assert("-"@ =~= seq!['-']);
        }
        r
    } else {
        u64_to_decimal(n as u64)
    }
}


/// Index of the first `'\n'` in `s`, or its length when there is none.
pub open spec fn newline_index(s: Seq<char>) -> nat
    decreases s.len(),
{
    if s.len() == 0 {
        0
    } else if s[0] == '\n' {
        0
    } else {
        1 + newline_index(s.drop_first())
    }
}

pub proof fn lemma_newline_index(s: Seq<char>)
    ensures
        newline_index(s) <= s.len(),
        forall|k: int| 0 <= k < newline_index(s) ==> s[k] != '\n',
        newline_index(s) < s.len() ==> s[newline_index(s) as int] == '\n',
    decreases s.len(),
{
    if s.len() > 0 && s[0] != '\n' {
        lemma_newline_index(s.drop_first());
        assert forall|k: int| 0 <= k < newline_index(s) implies s[k] != '\n' by {
            if k > 0 {
                assert(s[k] == s.drop_first()[k - 1]);
            }
        }
    }
}

/// Position of the first newline in `v[from..]`, or `v.len()`.
pub fn find_newline(v: &Vec<char>, from: usize) -> (e: usize)
    requires
        from <= v@.len(),
    ensures
        e == from + newline_index(v@.skip(from as int)),
        from <= e <= v@.len(),
{
    let mut e = from;
    proof {
        assert(v@.skip(from as int).subrange(0, 0) =~= Seq::<char>::empty());
    }
    while e < v.len() && v[e] != '\n'
        invariant
            from <= e <= v@.len(),
            newline_index(v@.skip(from as int)) == (e - from) + newline_index(v@.skip(e as int)),
        decreases v@.len() - e,
    {
        proof {
            assert(v@.skip(e as int).drop_first() =~= v@.skip(e + 1));
        }
        e += 1;
    }
    proof {
        if e < v.len() {
            assert(v@.skip(e as int)[0] == '\n');
        }
    }
    e
}

/// The first line of `s` (the text before the first newline), trimmed.
pub open spec fn first_line_trimmed(s: Seq<char>) -> Seq<char> {
    trim_seq(s.subrange(0, newline_index(s) as int))
}

/// The first line of `s` that is not blank once trimmed, trimmed.
pub open spec fn first_nonblank_line(s: Seq<char>) -> Option<Seq<char>>
    decreases s.len(),
{
    let e = newline_index(s);
    let line = trim_seq(s.subrange(0, e as int));
    if line.len() > 0 {
        Some(line)
    } else if e < s.len() {
        first_nonblank_line(s.subrange(e as int + 1, s.len() as int))
    } else {
        None
    }
}

pub fn first_line_trimmed_chars(v: &Vec<char>) -> (r: Vec<char>)
    ensures
        r@ == first_line_trimmed(v@),
{
    let e = find_newline(v, 0);
    proof {
        assert(v@.skip(0) =~= v@);
    }
    let line = sub_chars(v, 0, e);
    trim_chars(&line)
}

/// `output.lines().map(str::trim).find(|line| !line.is_empty())`.
pub fn first_non_empty_line(v: &Vec<char>) -> (r: Option<Vec<char>>)
    ensures
        match r {
            Some(l) => first_nonblank_line(v@) == Some(l@),
            None => first_nonblank_line(v@) is None,
        },
{
    let mut from: usize = 0;
    proof {
        assert(v@.subrange(0, v@.len() as int) =~= v@);
    }
    while from <= v.len()
        invariant
            from <= v@.len(),
            first_nonblank_line(v@) == first_nonblank_line(v@.subrange(from as int, v@.len() as int)),
        decreases v@.len() - from,
    {
        let e = find_newline(v, from);
        let ghost rest = v@.subrange(from as int, v@.len() as int);
        proof {
            assert(v@.skip(from as int) =~= rest);
            assert(rest.subrange(0, e - from) =~= v@.subrange(from as int, e as int));
        }
        let line = sub_chars(v, from, e);
        let t = trim_chars(&line);
        if t.len() > 0 {
            return Some(t);
        }
        if e >= v.len() {
            return None;
        }
        proof {
            assert(rest.subrange(e - from + 1, rest.len() as int) =~= v@.subrange(e + 1, v@.len() as int));
        }
        from = e + 1;
    }
    None
}


/// Number of bytes in the UTF-8 encoding of `s`.
pub open spec fn utf8_len(s: Seq<char>) -> nat {
    vstd::utf8::encode_utf8(s).len()
}

/// `str::len`: the UTF-8 byte length.
pub fn byte_len(s: &str) -> (n: usize)
    ensures
        n == utf8_len(s@) as usize,
{
    s.len()
}

} // verus!
