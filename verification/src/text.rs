//! Text operations on character sequences, each proved against a short
//! mathematical statement of what it computes.

use vstd::prelude::*;
use vstd::string::*;

verus! {

// ---------------------------------------------------------------------------
// Specifications
// ---------------------------------------------------------------------------

/// `p` occurs in `s` starting at index `i`.
pub open spec fn occurs_at(s: Seq<char>, p: Seq<char>, i: int) -> bool {
    0 <= i && i + p.len() <= s.len() && s.subrange(i, i + p.len()) == p
}

/// `p` occurs somewhere in `s` (the empty pattern occurs in every text).
pub open spec fn has_substring(s: Seq<char>, p: Seq<char>) -> bool {
    exists|i: int| occurs_at(s, p, i)
}

/// `s` begins with `p`.
pub open spec fn has_prefix(s: Seq<char>, p: Seq<char>) -> bool {
    p.len() <= s.len() && s.take(p.len() as int) == p
}

/// `s` ends with `p`.
pub open spec fn has_suffix(s: Seq<char>, p: Seq<char>) -> bool {
    p.len() <= s.len() && s.skip(s.len() - p.len()) == p
}

/// Every non-overlapping occurrence of the pattern `p`, taken from left to
/// right, replaced by `r`. The empty pattern occurs before every character
/// and at the end, as `str::replace` treats it.
pub open spec fn replaced(s: Seq<char>, p: Seq<char>, r: Seq<char>) -> Seq<char>
    decreases s.len(),
{
    if p.len() == 0 {
        if s.len() == 0 {
            r
        } else {
            r + seq![s[0]] + replaced(s.skip(1), p, r)
        }
    } else if s.len() == 0 {
        s
    } else if has_prefix(s, p) {
        r + replaced(s.skip(p.len() as int), p, r)
    } else {
        seq![s[0]] + replaced(s.skip(1), p, r)
    }
}

/// `s` with every occurrence of the character `c` removed.
pub open spec fn without_char(s: Seq<char>, c: char) -> Seq<char>
    decreases s.len(),
{
    if s.len() == 0 {
        s
    } else if s[0] == c {
        without_char(s.skip(1), c)
    } else {
        seq![s[0]] + without_char(s.skip(1), c)
    }
}

/// Whether a character has the Unicode `White_Space` property (the code
/// points U+0009..U+000D, U+0020, U+0085, U+00A0, U+1680, U+2000..U+200A,
/// U+2028, U+2029, U+202F, U+205F and U+3000), as `char::is_whitespace`
/// decides it.
pub open spec fn unicode_white_space(c: char) -> bool {
    let u = c as int;
    (0x9 <= u <= 0xD) || u == 0x20 || u == 0x85 || u == 0xA0 || u == 0x1680 || (0x2000 <= u
        <= 0x200A) || u == 0x2028 || u == 0x2029 || u == 0x202F || u == 0x205F || u == 0x3000
}

/// The Unicode lowercase mapping of a text, as `str::to_lowercase` computes it.
pub uninterp spec fn unicode_lowercase(s: Seq<char>) -> Seq<char>;

/// The Unicode uppercase mapping of a text, as `str::to_uppercase` computes it.
pub uninterp spec fn unicode_uppercase(s: Seq<char>) -> Seq<char>;

/// Every character of `s` is ASCII.
pub open spec fn all_ascii(s: Seq<char>) -> bool {
    forall|i: int| 0 <= i < s.len() ==> (#[trigger] s[i] as int) < 128
}

/// The ASCII lowercase of a character: `A`..`Z` become `a`..`z`.
pub open spec fn ascii_lower(c: char) -> char {
    if ('A' as int) <= (c as int) <= ('Z' as int) {
        ((c as int) + 32) as char
    } else {
        c
    }
}

/// The ASCII uppercase of a character: `a`..`z` become `A`..`Z`.
pub open spec fn ascii_upper(c: char) -> char {
    if ('a' as int) <= (c as int) <= ('z' as int) {
        ((c as int) - 32) as char
    } else {
        c
    }
}

/// The text with its ASCII letters lowercased.
pub open spec fn ascii_lowered(s: Seq<char>) -> Seq<char> {
    s.map_values(|c: char| ascii_lower(c))
}

/// The text with its ASCII letters uppercased.
pub open spec fn ascii_uppered(s: Seq<char>) -> Seq<char> {
    s.map_values(|c: char| ascii_upper(c))
}

/// Leading white space removed.
pub open spec fn trimmed_start(s: Seq<char>) -> Seq<char>
    decreases s.len(),
{
    if s.len() > 0 && unicode_white_space(s[0]) {
        trimmed_start(s.skip(1))
    } else {
        s
    }
}

/// Trailing white space removed.
pub open spec fn trimmed_end(s: Seq<char>) -> Seq<char>
    decreases s.len(),
{
    if s.len() > 0 && unicode_white_space(s.last()) {
        trimmed_end(s.drop_last())
    } else {
        s
    }
}

/// Leading and trailing white space removed, as `str::trim` does.
pub open spec fn trimmed(s: Seq<char>) -> Seq<char> {
    trimmed_end(trimmed_start(s))
}

/// Repeated leading copies of the non-empty pattern `p` removed.
pub open spec fn stripped_start(s: Seq<char>, p: Seq<char>) -> Seq<char>
    decreases s.len(),
{
    if p.len() > 0 && has_prefix(s, p) {
        stripped_start(s.skip(p.len() as int), p)
    } else {
        s
    }
}

/// Repeated trailing copies of the non-empty pattern `p` removed.
pub open spec fn stripped_end(s: Seq<char>, p: Seq<char>) -> Seq<char>
    decreases s.len(),
{
    if p.len() > 0 && has_suffix(s, p) {
        stripped_end(s.take(s.len() - p.len()), p)
    } else {
        s
    }
}

/// The decimal digit for `d`, for `d < 10`.
pub open spec fn digit(d: nat) -> char {
    if d == 0 {
        '0'
    } else if d == 1 {
        '1'
    } else if d == 2 {
        '2'
    } else if d == 3 {
        '3'
    } else if d == 4 {
        '4'
    } else if d == 5 {
        '5'
    } else if d == 6 {
        '6'
    } else if d == 7 {
        '7'
    } else if d == 8 {
        '8'
    } else {
        '9'
    }
}

/// The decimal representation of `n`, without leading zeros.
pub open spec fn decimal(n: nat) -> Seq<char>
    decreases n,
{
    if n < 10 {
        seq![digit(n)]
    } else {
        decimal(n / 10).push(digit(n % 10))
    }
}

// ---------------------------------------------------------------------------
// Calls into std that vstd does not specify
// ---------------------------------------------------------------------------

/// Calls `String::push`, which appends one character to the string.
#[verifier::external_body]
pub(crate) fn push_char(s: &mut String, c: char)
    ensures
        final(s)@ == old(s)@.push(c),
{
    s.push(c);
}

/// Whether a character is white space, as `char::is_whitespace` decides.
fn is_white_space(c: char) -> (b: bool)
    ensures
        b == unicode_white_space(c),
{
    let u = c as u32;
    (0x9 <= u && u <= 0xD) || u == 0x20 || u == 0x85 || u == 0xA0 || u == 0x1680 || (0x2000 <= u
        && u <= 0x200A) || u == 0x2028 || u == 0x2029 || u == 0x202F || u == 0x205F || u == 0x3000
}

/// Calls `str::to_lowercase`. The result is named `unicode_lowercase`; the
/// fact stated beside the name is std's: on ASCII text the Unicode mapping
/// is the ASCII one (`A`..`Z` to `a`..`z`, everything else unchanged).
#[verifier::external_body]
pub(crate) fn to_lowercase(s: &str) -> (r: String)
    ensures
        r@ == unicode_lowercase(s@),
        all_ascii(s@) ==> r@ == ascii_lowered(s@),
{
    s.to_lowercase()
}

/// Calls `str::to_uppercase`. The result is named `unicode_uppercase`; the
/// fact stated beside the name is std's: on ASCII text the Unicode mapping
/// is the ASCII one (`a`..`z` to `A`..`Z`, everything else unchanged).
#[verifier::external_body]
pub(crate) fn to_uppercase(s: &str) -> (r: String)
    ensures
        r@ == unicode_uppercase(s@),
        all_ascii(s@) ==> r@ == ascii_uppered(s@),
{
    s.to_uppercase()
}

// ---------------------------------------------------------------------------
// Conversions between texts and character vectors
// ---------------------------------------------------------------------------

/// The characters of a string slice, in order.
pub fn chars_of(s: &str) -> (v: Vec<char>)
    ensures
        v@ == s@,
{
    let mut v: Vec<char> = Vec::new();
    for c in it: s.chars()
        invariant
            v@ == it.seq().take(it.index() as int),
    {
        v.push(c);
    }
    v
}

/// The text made of `v[lo..hi]`.
pub fn string_from_range(v: &Vec<char>, lo: usize, hi: usize) -> (r: String)
    requires
        lo <= hi <= v.len(),
    ensures
        r@ == v@.subrange(lo as int, hi as int),
{
    let mut r = String::new();
    let mut i = lo;
    while i < hi
        invariant
            lo <= i <= hi <= v.len(),
            r@ == v@.subrange(lo as int, i as int),
        decreases hi - i,
    {
        push_char(&mut r, v[i]);
        assert(v@.subrange(lo as int, i + 1) == v@.subrange(lo as int, i as int).push(v@[i as int]));
        i += 1;
    }
    r
}

/// The same text, as an owned `String`.
pub fn owned(s: &str) -> (r: String)
    ensures
        r@ == s@,
{
    String::from_str(s)
}

/// The concatenation of two texts.
pub fn concat2(a: &str, b: &str) -> (r: String)
    ensures
        r@ == a@ + b@,
{
    let mut r = String::from_str(a);
    r.append(b);
    r
}

/// The concatenation of three texts.
pub fn concat3(a: &str, b: &str, c: &str) -> (r: String)
    ensures
        r@ == a@ + b@ + c@,
{
    let mut r = String::from_str(a);
    r.append(b);
    r.append(c);
    r
}

// ---------------------------------------------------------------------------
// Comparison and search
// ---------------------------------------------------------------------------

/// Whether two texts are equal.
pub fn same_text(a: &str, b: &str) -> (r: bool)
    ensures
        r == (a@ == b@),
{
    String::from_str(a) == String::from_str(b)
}

/// Whether `p` occurs in `s` at index `i`.
fn matches_at(s: &Vec<char>, p: &Vec<char>, i: usize) -> (r: bool)
    ensures
        r == occurs_at(s@, p@, i as int),
{
    if i > s.len() || p.len() > s.len() - i {
        return false;
    }
    let mut j: usize = 0;
    while j < p.len()
        invariant
            i + p.len() <= s.len(),
            j <= p.len(),
            forall|k: int| 0 <= k < j ==> s@[i + k] == p@[k],
        decreases p.len() - j,
    {
        if s[i + j] != p[j] {
            assert(s@.subrange(i as int, i + p.len())[j as int] != p@[j as int]);
            return false;
        }
        j += 1;
    }
    assert(s@.subrange(i as int, i + p.len()) =~= p@);
    true
}

/// Whether `p` occurs anywhere in `s`, as `str::contains` decides it.
pub fn contains(s: &str, p: &str) -> (r: bool)
    ensures
        r == has_substring(s@, p@),
{
    let sv = chars_of(s);
    let pv = chars_of(p);
    if pv.len() > sv.len() {
        assert forall|i: int| !occurs_at(s@, p@, i) by {}
        return false;
    }
    let last = sv.len() - pv.len();
    let mut i: usize = 0;
    while i < last
        invariant
            sv@ == s@,
            pv@ == p@,
            last == sv.len() - pv.len(),
            i <= last,
            forall|k: int| 0 <= k < i ==> !occurs_at(s@, p@, k),
        decreases last - i,
    {
        if matches_at(&sv, &pv, i) {
            return true;
        }
        i += 1;
    }
    if matches_at(&sv, &pv, last) {
        return true;
    }
    assert forall|k: int| !occurs_at(s@, p@, k) by {}
    false
}

/// Whether `s` begins with `p`, as `str::starts_with` decides it.
pub fn starts_with(s: &str, p: &str) -> (r: bool)
    ensures
        r == has_prefix(s@, p@),
{
    let sv = chars_of(s);
    let pv = chars_of(p);
    let r = matches_at(&sv, &pv, 0);
    assert(s@.subrange(0, p@.len() as int) == s@.take(p@.len() as int));
    r
}

// ---------------------------------------------------------------------------
// Rewriting
// ---------------------------------------------------------------------------

/// Replaces every occurrence of a pattern, left to right, as
/// `str::replace` does.
pub fn replace_all(s: &str, from: &str, to: &str) -> (r: String)
    ensures
        r@ == replaced(s@, from@, to@),
{
    let sv = chars_of(s);
    let pv = chars_of(from);
    let n = sv.len();
    let m = pv.len();
    if m == 0 {
        assert(from@ == Seq::<char>::empty());
        return insert_between(&sv, to);
    }
    let mut out = String::new();
    let mut i: usize = 0;
    assert(s@.skip(0) == s@);
    while i < n
        invariant
            sv@ == s@,
            pv@ == from@,
            n == sv.len(),
            m == pv.len(),
            m > 0,
            i <= n,
            out@ + replaced(s@.skip(i as int), from@, to@) == replaced(s@, from@, to@),
        decreases n - i,
    {
        let rest = Ghost(s@.skip(i as int));
        if matches_at(&sv, &pv, i) {
            assert(rest@.take(m as int) == s@.subrange(i as int, i + m));
            assert(rest@.skip(m as int) == s@.skip(i + m));
            out.append(to);
            assert(out@ + replaced(s@.skip(i + m), from@, to@) == replaced(s@, from@, to@));
            i += m;
        } else {
            assert(!has_prefix(rest@, from@)) by {
                if has_prefix(rest@, from@) {
                    assert(s@.subrange(i as int, i + m) == rest@.take(m as int));
                }
            }
            assert(rest@.skip(1) == s@.skip(i + 1));
            assert(rest@[0] == sv@[i as int]);
            push_char(&mut out, sv[i]);
            assert(out@ + replaced(s@.skip(i + 1), from@, to@) == replaced(s@, from@, to@));
            i += 1;
        }
    }
    assert(s@.skip(n as int).len() == 0);
    assert(out@ + replaced(s@.skip(n as int), from@, to@) == out@);
    out
}

/// `to` before every character of `v` and once more at the end: what the
/// empty pattern's replacement gives.
fn insert_between(v: &Vec<char>, to: &str) -> (r: String)
    ensures
        r@ == replaced(v@, Seq::<char>::empty(), to@),
{
    let ghost s = v@;
    let ghost e = Seq::<char>::empty();
    let n = v.len();
    let mut out = String::new();
    let mut i: usize = 0;
    assert(s.skip(0) == s);
    while i < n
        invariant
            s == v@,
            e == Seq::<char>::empty(),
            n == v.len(),
            i <= n,
            out@ + replaced(s.skip(i as int), e, to@) == replaced(s, e, to@),
        decreases n - i,
    {
        let ghost rest = s.skip(i as int);
        let ghost before = out@;
        assert(rest.skip(1) == s.skip(i + 1));
        assert(rest[0] == v@[i as int]);
        assert(rest.len() > 0);
        assert(replaced(rest, e, to@) == to@ + seq![rest[0]] + replaced(rest.skip(1), e, to@));
        out.append(to);
        push_char(&mut out, v[i]);
        assert(out@ == before + to@ + seq![v@[i as int]]);
        assert(out@ + replaced(s.skip(i + 1), e, to@) == before + replaced(rest, e, to@));
        i += 1;
    }
    assert(s.skip(n as int).len() == 0);
    assert(replaced(s.skip(n as int), e, to@) == to@);
    let ghost before = out@;
    out.append(to);
    assert(out@ == before + to@);
    out
}

/// Removes every occurrence of the character `c`.
pub fn remove_char(s: &str, c: char) -> (r: String)
    ensures
        r@ == without_char(s@, c),
{
    let sv = chars_of(s);
    let n = sv.len();
    let mut out = String::new();
    let mut i: usize = 0;
    assert(s@.skip(0) == s@);
    while i < n
        invariant
            sv@ == s@,
            n == sv.len(),
            i <= n,
            out@ + without_char(s@.skip(i as int), c) == without_char(s@, c),
        decreases n - i,
    {
        let rest = Ghost(s@.skip(i as int));
        assert(rest@.skip(1) == s@.skip(i + 1));
        assert(rest@[0] == sv@[i as int]);
        if sv[i] != c {
            push_char(&mut out, sv[i]);
        }
        assert(out@ + without_char(s@.skip(i + 1), c) == without_char(s@, c));
        i += 1;
    }
    assert(out@ + without_char(s@.skip(n as int), c) == out@);
    out
}

/// Index of the first character of `v[lo..hi]` that is not white space,
/// or `hi`.
fn skip_white_space(v: &Vec<char>, lo: usize, hi: usize) -> (a: usize)
    requires
        lo <= hi <= v.len(),
    ensures
        lo <= a <= hi,
        trimmed_start(v@.subrange(lo as int, hi as int)) == v@.subrange(a as int, hi as int),
        a < hi ==> !unicode_white_space(v@[a as int]),
{
    let mut a = lo;
    while a < hi && is_white_space(v[a])
        invariant
            lo <= a <= hi <= v.len(),
            trimmed_start(v@.subrange(lo as int, hi as int)) == trimmed_start(
                v@.subrange(a as int, hi as int),
            ),
        decreases hi - a,
    {
        assert(v@.subrange(a as int, hi as int).skip(1) == v@.subrange(a + 1, hi as int));
        a += 1;
    }
    a
}

/// Index just past the last character of `v[lo..hi]` that is not white
/// space, or `lo`.
fn skip_white_space_back(v: &Vec<char>, lo: usize, hi: usize) -> (b: usize)
    requires
        lo <= hi <= v.len(),
    ensures
        lo <= b <= hi,
        trimmed_end(v@.subrange(lo as int, hi as int)) == v@.subrange(lo as int, b as int),
{
    let mut b = hi;
    while b > lo && is_white_space(v[b - 1])
        invariant
            lo <= b <= hi <= v.len(),
            trimmed_end(v@.subrange(lo as int, hi as int)) == trimmed_end(
                v@.subrange(lo as int, b as int),
            ),
        decreases b - lo,
    {
        assert(v@.subrange(lo as int, b as int).drop_last() == v@.subrange(lo as int, b - 1));
        assert(v@.subrange(lo as int, b as int).last() == v@[b - 1]);
        b -= 1;
    }
    b
}

/// Leading and trailing white space removed, as `str::trim` does.
pub fn trim(s: &str) -> (r: String)
    ensures
        r@ == trimmed(s@),
{
    let v = chars_of(s);
    let n = v.len();
    assert(v@.subrange(0, n as int) == s@);
    let a = skip_white_space(&v, 0, n);
    let b = skip_white_space_back(&v, a, n);
    string_from_range(&v, a, b)
}

/// Strips leading copies of `p` from `v[lo..hi]`; returns the new start.
fn strip_start_range(v: &Vec<char>, p: &Vec<char>, lo: usize, hi: usize) -> (a: usize)
    requires
        lo <= hi <= v.len(),
        p.len() > 0,
    ensures
        lo <= a <= hi,
        stripped_start(v@.subrange(lo as int, hi as int), p@) == v@.subrange(a as int, hi as int),
{
    let m = p.len();
    let mut a = lo;
    while a <= hi && m <= hi - a && matches_at(v, p, a)
        invariant
            lo <= a <= hi <= v.len(),
            m == p.len(),
            m > 0,
            stripped_start(v@.subrange(lo as int, hi as int), p@) == stripped_start(
                v@.subrange(a as int, hi as int),
                p@,
            ),
        decreases hi - a,
    {
        let w = Ghost(v@.subrange(a as int, hi as int));
        assert(w@.take(m as int) == v@.subrange(a as int, a + m));
        assert(w@.skip(m as int) == v@.subrange(a + m, hi as int));
        a += m;
    }
    let w = Ghost(v@.subrange(a as int, hi as int));
    assert(!has_prefix(w@, p@)) by {
        if has_prefix(w@, p@) {
            assert(w@.take(m as int) == v@.subrange(a as int, a + m));
        }
    }
    a
}

/// Strips trailing copies of `p` from `v[lo..hi]`; returns the new end.
fn strip_end_range(v: &Vec<char>, p: &Vec<char>, lo: usize, hi: usize) -> (b: usize)
    requires
        lo <= hi <= v.len(),
        p.len() > 0,
    ensures
        lo <= b <= hi,
        stripped_end(v@.subrange(lo as int, hi as int), p@) == v@.subrange(lo as int, b as int),
{
    let m = p.len();
    let mut b = hi;
    while b >= lo && m <= b - lo && matches_at(v, p, b - m)
        invariant
            lo <= b <= hi <= v.len(),
            m == p.len(),
            m > 0,
            stripped_end(v@.subrange(lo as int, hi as int), p@) == stripped_end(
                v@.subrange(lo as int, b as int),
                p@,
            ),
        decreases b - lo,
    {
        let w = Ghost(v@.subrange(lo as int, b as int));
        assert(w@.skip(w@.len() - m) == v@.subrange(b - m, b as int));
        assert(w@.take(w@.len() - m) == v@.subrange(lo as int, b - m));
        b -= m;
    }
    let w = Ghost(v@.subrange(lo as int, b as int));
    assert(!has_suffix(w@, p@)) by {
        if has_suffix(w@, p@) {
            assert(w@.skip(w@.len() - m) == v@.subrange(b - m, b as int));
        }
    }
    b
}

/// Removes repeated leading copies of a pattern, as
/// `str::trim_start_matches` does (the empty pattern removes nothing).
pub fn trim_start_matches(s: &str, p: &str) -> (r: String)
    ensures
        r@ == stripped_start(s@, p@),
{
    let v = chars_of(s);
    let pv = chars_of(p);
    if pv.len() == 0 {
        return owned(s);
    }
    let n = v.len();
    assert(v@.subrange(0, n as int) == s@);
    let a = strip_start_range(&v, &pv, 0, n);
    string_from_range(&v, a, n)
}

/// Removes repeated trailing copies of a pattern, as
/// `str::trim_end_matches` does (the empty pattern removes nothing).
pub fn trim_end_matches(s: &str, p: &str) -> (r: String)
    ensures
        r@ == stripped_end(s@, p@),
{
    let v = chars_of(s);
    let pv = chars_of(p);
    if pv.len() == 0 {
        return owned(s);
    }
    let n = v.len();
    assert(v@.subrange(0, n as int) == s@);
    let b = strip_end_range(&v, &pv, 0, n);
    string_from_range(&v, 0, b)
}

// ---------------------------------------------------------------------------
// Numbers
// ---------------------------------------------------------------------------

fn digit_char(d: u32) -> (c: char)
    requires
        d < 10,
    ensures
        c == digit(d as nat),
{
    if d == 0 {
        '0'
    } else if d == 1 {
        '1'
    } else if d == 2 {
        '2'
    } else if d == 3 {
        '3'
    } else if d == 4 {
        '4'
    } else if d == 5 {
        '5'
    } else if d == 6 {
        '6'
    } else if d == 7 {
        '7'
    } else if d == 8 {
        '8'
    } else {
        '9'
    }
}

/// The decimal representation of a number, as `to_string` writes it.
pub fn decimal_string(n: u32) -> (r: String)
    ensures
        r@ == decimal(n as nat),
    decreases n,
{
    if n < 10 {
        let mut s = String::new();
        push_char(&mut s, digit_char(n));
        s
    } else {
        let mut s = decimal_string(n / 10);
        push_char(&mut s, digit_char(n % 10));
        s
    }
}

// ---------------------------------------------------------------------------
// Facts about the specifications
// ---------------------------------------------------------------------------

/// Prepending text keeps every occurrence of a pattern.
pub proof fn lemma_substring_prepend(a: Seq<char>, s: Seq<char>, p: Seq<char>)
    requires
        has_substring(s, p),
    ensures
        has_substring(a + s, p),
{
    let i = choose|i: int| occurs_at(s, p, i);
    assert((a + s).subrange(a.len() + i, a.len() + i + p.len()) == s.subrange(i, i + p.len()));
    assert(occurs_at(a + s, p, a.len() + i));
}

/// A text contains itself where it is embedded: `a + p + b` contains `p`.
pub proof fn lemma_substring_middle(a: Seq<char>, p: Seq<char>, b: Seq<char>)
    ensures
        has_substring(a + p + b, p),
{
    assert((a + p + b).subrange(a.len() as int, (a.len() + p.len()) as int) == p);
    assert(occurs_at(a + p + b, p, a.len() as int));
}

/// An occurrence of an occurrence is an occurrence: if `w` occurs in `s`
/// and `m` occurs in `w`, then `m` occurs in `s`.
pub proof fn lemma_substring_transitive(s: Seq<char>, w: Seq<char>, m: Seq<char>)
    requires
        has_substring(s, w),
        has_substring(w, m),
    ensures
        has_substring(s, m),
{
    let i = choose|i: int| occurs_at(s, w, i);
    let j = choose|j: int| occurs_at(w, m, j);
    assert(s.subrange(i + j, i + j + m.len()) =~= w.subrange(j, j + m.len())) by {
        assert forall|k: int| 0 <= k < m.len() implies #[trigger] s.subrange(i + j, i + j + m.len())[k]
            == w.subrange(j, j + m.len())[k] by {
            assert(s.subrange(i, i + w.len())[j + k] == w[j + k]);
        }
    }
    assert(occurs_at(s, m, i + j));
}

/// A pattern that does not occur is not replaced: the text is unchanged.
pub proof fn lemma_replaced_absent(s: Seq<char>, p: Seq<char>, r: Seq<char>)
    requires
        p.len() > 0,
        !has_substring(s, p),
    ensures
        replaced(s, p, r) == s,
    decreases s.len(),
{
    if s.len() > 0 {
        if has_prefix(s, p) {
            assert(occurs_at(s, p, 0));
        }
        assert(!has_substring(s.skip(1), p)) by {
            if has_substring(s.skip(1), p) {
                let i = choose|i: int| occurs_at(s.skip(1), p, i);
                assert(s.subrange(i + 1, i + 1 + p.len()) == s.skip(1).subrange(i, i + p.len()));
                assert(occurs_at(s, p, i + 1));
            }
        }
        lemma_replaced_absent(s.skip(1), p, r);
        assert(s == seq![s[0]] + s.skip(1));
    }
}

/// Where a pattern occurs, the replacement text occurs in the result.
pub proof fn lemma_replaced_present(s: Seq<char>, p: Seq<char>, r: Seq<char>)
    requires
        p.len() > 0,
        has_substring(s, p),
    ensures
        has_substring(replaced(s, p, r), r),
    decreases s.len(),
{
    let i = choose|i: int| occurs_at(s, p, i);
    if has_prefix(s, p) {
        lemma_substring_middle(Seq::empty(), r, replaced(s.skip(p.len() as int), p, r));
        assert(Seq::<char>::empty() + r + replaced(s.skip(p.len() as int), p, r) == replaced(
            s,
            p,
            r,
        ));
    } else {
        assert(i != 0) by {
            if i == 0 {
                assert(s.subrange(0, p.len() as int) == s.take(p.len() as int));
            }
        }
        assert(s.skip(1).subrange(i - 1, i - 1 + p.len()) == s.subrange(i, i + p.len()));
        assert(occurs_at(s.skip(1), p, i - 1));
        lemma_replaced_present(s.skip(1), p, r);
        lemma_substring_prepend(seq![s[0]], replaced(s.skip(1), p, r), r);
    }
}

/// Removing a character twice is the same as removing it once.
pub proof fn lemma_without_char_idempotent(s: Seq<char>, c: char)
    ensures
        without_char(without_char(s, c), c) == without_char(s, c),
    decreases s.len(),
{
    if s.len() > 0 {
        lemma_without_char_idempotent(s.skip(1), c);
        if s[0] != c {
            let t = seq![s[0]] + without_char(s.skip(1), c);
            assert(t.skip(1) == without_char(s.skip(1), c));
        }
    }
}

/// The character removed no longer occurs.
pub proof fn lemma_without_char_absent(s: Seq<char>, c: char)
    ensures
        !without_char(s, c).contains(c),
    decreases s.len(),
{
    if s.len() > 0 {
        lemma_without_char_absent(s.skip(1), c);
        if s[0] != c {
            let t = seq![s[0]] + without_char(s.skip(1), c);
            assert forall|i: int| 0 <= i < t.len() implies t[i] != c by {
                if i > 0 {
                    assert(t[i] == without_char(s.skip(1), c)[i - 1]);
                }
            }
        }
    }
}

} // verus!
