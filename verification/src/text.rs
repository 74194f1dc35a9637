//! Verified text utilities: character classes, substring search and
//! occurrence counting over `&str` views.
//!
//! All searching is expressed against `Seq<char>` views, so every caller's
//! contract can speak about the text mathematically.

use vstd::prelude::*;

verus! {

/// The ASCII whitespace characters recognised by the lexical scanners.
pub open spec fn ws_char(c: char) -> bool {
    c == ' ' || c == '\t' || c == '\r' || c == '\n' || c == '\u{b}' || c == '\u{c}'
}

/// Word characters: ASCII letters, digits and underscore.
pub open spec fn word_char(c: char) -> bool {
    ('a' <= c && c <= 'z') || ('A' <= c && c <= 'Z') || ('0' <= c && c <= '9') || c == '_'
}

/// ASCII decimal digits.
pub open spec fn digit_char(c: char) -> bool {
    '0' <= c && c <= '9'
}

pub fn is_ws(c: char) -> (r: bool)
    ensures
        r == ws_char(c),
{
    c == ' ' || c == '\t' || c == '\r' || c == '\n' || c == '\u{b}' || c == '\u{c}'
}

pub fn is_word(c: char) -> (r: bool)
    ensures
        r == word_char(c),
{
    ('a' <= c && c <= 'z') || ('A' <= c && c <= 'Z') || ('0' <= c && c <= '9') || c == '_'
}

pub fn is_digit(c: char) -> (r: bool)
    ensures
        r == digit_char(c),
{
    '0' <= c && c <= '9'
}

/// The needle `n` occurs in `h` starting exactly at position `i`.
pub open spec fn matches_at(h: Seq<char>, n: Seq<char>, i: int) -> bool {
    0 <= i && i + n.len() <= h.len() && h.subrange(i, i + n.len() as int) == n
}

/// The needle `n` occurs somewhere in `h`.
pub open spec fn contains_seq(h: Seq<char>, n: Seq<char>) -> bool {
    exists|i: int| matches_at(h, n, i)
}

/// Does `needle` occur in `hay` starting at character position `at`?
pub fn match_at(hay: &str, needle: &str, at: usize) -> (r: bool)
    ensures
        r == matches_at(hay@, needle@, at as int),
{
    let hlen: usize = hay.unicode_len();
    let nlen: usize = needle.unicode_len();
    if at > hlen || nlen > hlen - at {
        assert(!matches_at(hay@, needle@, at as int));
        return false;
    }
    let mut j: usize = 0;
    while j < nlen
        invariant
            at + nlen <= hlen,
            hlen == hay@.len(),
            nlen == needle@.len(),
            j <= nlen,
            forall|k: int| 0 <= k < j ==> hay@[at + k] == needle@[k],
        decreases nlen - j,
    {
        if hay.get_char(at + j) != needle.get_char(j) {
            assert(hay@.subrange(at as int, at + nlen as int)[j as int] != needle@[j as int]);
            return false;
        }
        j = j + 1;
    }
    assert(hay@.subrange(at as int, at + nlen as int) =~= needle@);
    true
}

/// Substring search; returns whether `needle` occurs anywhere in `hay`.
pub fn contains_sub(hay: &str, needle: &str) -> (r: bool)
    ensures
        r == contains_seq(hay@, needle@),
{
    match find_sub_from(hay, needle, 0) {
        Some(_) => true,
        None => {
            assert(forall|i: int| !matches_at(hay@, needle@, i));
            false
        },
    }
}

/// Does `needle` occur in `hay` at or after position `from`?
pub fn contains_from(hay: &str, needle: &str, from: usize) -> (r: bool)
    ensures
        r == exists|i: int| i >= from && matches_at(hay@, needle@, i),
{
    match find_sub_from(hay, needle, from) {
        Some(i) => {
            assert(i >= from && matches_at(hay@, needle@, i as int));
            true
        },
        None => false,
    }
}

/// Leftmost occurrence of `needle` in `hay` at or after position `from`.
pub fn find_sub_from(hay: &str, needle: &str, from: usize) -> (r: Option<usize>)
    ensures
        match r {
            Some(i) => from <= i && matches_at(hay@, needle@, i as int) && forall|j: int|
                from <= j < i ==> !matches_at(hay@, needle@, j),
            None => forall|j: int| j >= from ==> !matches_at(hay@, needle@, j),
        },
{
    let hlen: usize = hay.unicode_len();
    let nlen: usize = needle.unicode_len();
    if nlen > hlen || from > hlen - nlen {
        assert(forall|j: int| j >= from ==> !matches_at(hay@, needle@, j));
        return None;
    }
    let mut i: usize = from;
    loop
        invariant
            nlen <= hlen,
            from <= i,
            i <= hlen - nlen,
            hlen == hay@.len(),
            nlen == needle@.len(),
            forall|j: int| from <= j < i ==> !matches_at(hay@, needle@, j),
        ensures
            forall|j: int| j >= from ==> !matches_at(hay@, needle@, j),
        decreases hlen - nlen - i,
    {
        if match_at(hay, needle, i) {
            return Some(i);
        }
        if i == hlen - nlen {
            assert forall|j: int| j >= from implies !matches_at(hay@, needle@, j) by {
                if j < i {
                } else if j == i {
                } else {
                    assert(j + needle@.len() > hay@.len());
                }
            }
            break;
        }
        i = i + 1;
    }
    None
}

/// Non-overlapping occurrence count of a non-empty `n` in `h`, scanning from
/// position `i` leftwards to the end, skipping past each match.
pub open spec fn count_occ_from(h: Seq<char>, n: Seq<char>, i: int) -> nat
    decreases h.len() - i when 0 <= i && n.len() > 0
{
    if i + n.len() > h.len() {
        0
    } else if matches_at(h, n, i) {
        1 + count_occ_from(h, n, i + n.len() as int)
    } else {
        count_occ_from(h, n, i + 1)
    }
}

/// Count of non-overlapping occurrences of `needle` in `hay`.
pub fn count_occurrences(hay: &str, needle: &str) -> (r: usize)
    requires
        needle@.len() > 0,
    ensures
        r == count_occ_from(hay@, needle@, 0),
{
    let hlen: usize = hay.unicode_len();
    let nlen: usize = needle.unicode_len();
    let mut i: usize = 0;
    let mut acc: usize = 0;
    while i < hlen
        invariant
            hlen == hay@.len(),
            nlen == needle@.len(),
            nlen > 0,
            i <= hlen + nlen,
            acc + count_occ_from(hay@, needle@, i as int) == count_occ_from(hay@, needle@, 0),
            acc <= i,
        decreases hlen - i,
    {
        if match_at(hay, needle, i) {
            acc = acc + 1;
            i = i + nlen;
        } else {
            i = i + 1;
        }
    }
    assert(count_occ_from(hay@, needle@, i as int) == 0);
    acc
}

/// First position at or after `i` whose character is not whitespace, or the
/// end of the text.
pub open spec fn skip_ws_from(h: Seq<char>, i: int) -> int
    recommends
        0 <= i <= h.len(),
    decreases h.len() - i when 0 <= i <= h.len()
{
    if i >= h.len() {
        h.len() as int
    } else if ws_char(h[i]) {
        skip_ws_from(h, i + 1)
    } else {
        i
    }
}

pub proof fn lemma_skip_ws_from(h: Seq<char>, i: int)
    requires
        0 <= i <= h.len(),
    ensures
        i <= skip_ws_from(h, i) <= h.len(),
        forall|k: int| i <= k < skip_ws_from(h, i) ==> ws_char(h[k]),
        skip_ws_from(h, i) < h.len() ==> !ws_char(h[skip_ws_from(h, i)]),
    decreases h.len() - i,
{
    if i < h.len() && ws_char(h[i]) {
        lemma_skip_ws_from(h, i + 1);
    }
}

/// End of the whitespace run beginning at `i`.
pub fn skip_ws(s: &str, i: usize) -> (r: usize)
    requires
        i <= s@.len(),
    ensures
        r == skip_ws_from(s@, i as int),
{
    let len: usize = s.unicode_len();
    let mut j: usize = i;
    while j < len && is_ws(s.get_char(j))
        invariant
            i <= j <= len,
            len == s@.len(),
            skip_ws_from(s@, i as int) == skip_ws_from(s@, j as int),
        decreases len - j,
    {
        j = j + 1;
    }
    j
}

/// End of the word-character run beginning at `i`.
pub open spec fn word_end_from(h: Seq<char>, i: int) -> int
    recommends
        0 <= i <= h.len(),
    decreases h.len() - i when 0 <= i <= h.len()
{
    if i >= h.len() {
        h.len() as int
    } else if word_char(h[i]) {
        word_end_from(h, i + 1)
    } else {
        i
    }
}

pub proof fn lemma_word_end_from(h: Seq<char>, i: int)
    requires
        0 <= i <= h.len(),
    ensures
        i <= word_end_from(h, i) <= h.len(),
        forall|k: int| i <= k < word_end_from(h, i) ==> word_char(h[k]),
        word_end_from(h, i) < h.len() ==> !word_char(h[word_end_from(h, i)]),
    decreases h.len() - i,
{
    if i < h.len() && word_char(h[i]) {
        lemma_word_end_from(h, i + 1);
    }
}

pub fn word_end(s: &str, i: usize) -> (r: usize)
    requires
        i <= s@.len(),
    ensures
        r == word_end_from(s@, i as int),
{
    let len: usize = s.unicode_len();
    let mut j: usize = i;
    while j < len && is_word(s.get_char(j))
        invariant
            i <= j <= len,
            len == s@.len(),
            word_end_from(s@, i as int) == word_end_from(s@, j as int),
        decreases len - j,
    {
        j = j + 1;
    }
    j
}

/// End of the decimal-digit run beginning at `i`.
pub open spec fn digit_end_from(h: Seq<char>, i: int) -> int
    recommends
        0 <= i <= h.len(),
    decreases h.len() - i when 0 <= i <= h.len()
{
    if i >= h.len() {
        h.len() as int
    } else if digit_char(h[i]) {
        digit_end_from(h, i + 1)
    } else {
        i
    }
}

pub proof fn lemma_digit_end_from(h: Seq<char>, i: int)
    requires
        0 <= i <= h.len(),
    ensures
        i <= digit_end_from(h, i) <= h.len(),
        forall|k: int| i <= k < digit_end_from(h, i) ==> digit_char(h[k]),
        digit_end_from(h, i) < h.len() ==> !digit_char(h[digit_end_from(h, i)]),
    decreases h.len() - i,
{
    if i < h.len() && digit_char(h[i]) {
        lemma_digit_end_from(h, i + 1);
    }
}

pub fn digit_end(s: &str, i: usize) -> (r: usize)
    requires
        i <= s@.len(),
    ensures
        r == digit_end_from(s@, i as int),
{
    let len: usize = s.unicode_len();
    let mut j: usize = i;
    while j < len && is_digit(s.get_char(j))
        invariant
            i <= j <= len,
            len == s@.len(),
            digit_end_from(s@, i as int) == digit_end_from(s@, j as int),
        decreases len - j,
    {
        j = j + 1;
    }
    j
}

/// First position at or after `i` holding character `c`, or the end of the
/// text.
pub open spec fn find_char_from(h: Seq<char>, i: int, c: char) -> int
    recommends
        0 <= i <= h.len(),
    decreases h.len() - i when 0 <= i <= h.len()
{
    if i >= h.len() {
        h.len() as int
    } else if h[i] == c {
        i
    } else {
        find_char_from(h, i + 1, c)
    }
}

pub proof fn lemma_find_char_from(h: Seq<char>, i: int, c: char)
    requires
        0 <= i <= h.len(),
    ensures
        i <= find_char_from(h, i, c) <= h.len(),
        forall|k: int| i <= k < find_char_from(h, i, c) ==> h[k] != c,
        find_char_from(h, i, c) < h.len() ==> h[find_char_from(h, i, c)] == c,
    decreases h.len() - i,
{
    if i < h.len() && h[i] != c {
        lemma_find_char_from(h, i + 1, c);
    }
}

pub fn find_char(s: &str, i: usize, c: char) -> (r: usize)
    requires
        i <= s@.len(),
    ensures
        r == find_char_from(s@, i as int, c),
{
    let len: usize = s.unicode_len();
    let mut j: usize = i;
    while j < len && s.get_char(j) != c
        invariant
            i <= j <= len,
            len == s@.len(),
            find_char_from(s@, i as int, c) == find_char_from(s@, j as int, c),
        decreases len - j,
    {
        j = j + 1;
    }
    j
}

/// End of the non-whitespace run beginning at `i`.
pub open spec fn nonws_end_from(h: Seq<char>, i: int) -> int
    recommends
        0 <= i <= h.len(),
    decreases h.len() - i when 0 <= i <= h.len()
{
    if i >= h.len() {
        h.len() as int
    } else if !ws_char(h[i]) {
        nonws_end_from(h, i + 1)
    } else {
        i
    }
}

pub proof fn lemma_nonws_end_from(h: Seq<char>, i: int)
    requires
        0 <= i <= h.len(),
    ensures
        i <= nonws_end_from(h, i) <= h.len(),
        forall|k: int| i <= k < nonws_end_from(h, i) ==> !ws_char(h[k]),
        nonws_end_from(h, i) < h.len() ==> ws_char(h[nonws_end_from(h, i)]),
    decreases h.len() - i,
{
    if i < h.len() && !ws_char(h[i]) {
        lemma_nonws_end_from(h, i + 1);
    }
}

pub fn nonws_end(s: &str, i: usize) -> (r: usize)
    requires
        i <= s@.len(),
    ensures
        r == nonws_end_from(s@, i as int),
{
    let len: usize = s.unicode_len();
    let mut j: usize = i;
    while j < len && !is_ws(s.get_char(j))
        invariant
            i <= j <= len,
            len == s@.len(),
            nonws_end_from(s@, i as int) == nonws_end_from(s@, j as int),
        decreases len - j,
    {
        j = j + 1;
    }
    j
}

/// Length of `s` with its trailing whitespace removed.
pub open spec fn trim_end_len(s: Seq<char>) -> int
    decreases s.len(),
{
    if s.len() == 0 {
        0
    } else if ws_char(s.last()) {
        trim_end_len(s.drop_last())
    } else {
        s.len() as int
    }
}

pub proof fn lemma_trim_end_len(s: Seq<char>)
    ensures
        0 <= trim_end_len(s) <= s.len(),
        forall|k: int| trim_end_len(s) <= k < s.len() ==> ws_char(s[k]),
        trim_end_len(s) > 0 ==> !ws_char(s[trim_end_len(s) - 1]),
    decreases s.len(),
{
    if s.len() > 0 && ws_char(s.last()) {
        lemma_trim_end_len(s.drop_last());
        assert forall|k: int| trim_end_len(s) <= k < s.len() implies ws_char(s[k]) by {
            if k < s.len() - 1 {
                assert(s.drop_last()[k] == s[k]);
            }
        }
    }
}

/// `s` with leading and trailing whitespace removed.
pub open spec fn trim_of(s: Seq<char>) -> Seq<char> {
    if trim_end_len(s) <= skip_ws_from(s, 0) {
        Seq::empty()
    } else {
        s.subrange(skip_ws_from(s, 0), trim_end_len(s))
    }
}

/// Strip leading and trailing whitespace.
pub fn trim_str<'a>(s: &'a str) -> (r: &'a str)
    ensures
        r@ == trim_of(s@),
{
    let len: usize = s.unicode_len();
    let a = skip_ws(s, 0);
    proof {
        lemma_skip_ws_from(s@, 0);
        assert(s@.subrange(0, len as int) =~= s@);
    }
    let mut b: usize = len;
    while b > a && is_ws(s.get_char(b - 1))
        invariant
            a <= b <= len,
            len == s@.len(),
            a == skip_ws_from(s@, 0),
            trim_end_len(s@) == trim_end_len(s@.subrange(0, b as int)),
        decreases b,
    {
        proof {
            assert(s@.subrange(0, b as int).drop_last() =~= s@.subrange(0, b - 1 as int));
        }
        b = b - 1;
    }
    proof {
        lemma_trim_end_len(s@.subrange(0, b as int));
        if b > a {
            assert(!ws_char(s@[b - 1]));
            assert(trim_end_len(s@.subrange(0, b as int)) == b);
        } else {
            lemma_all_ws_trim_end(s@.subrange(0, b as int));
        }
    }
    s.substring_char(a, b)
}

/// A sequence of whitespace characters trims to length zero.
proof fn lemma_all_ws_trim_end(s: Seq<char>)
    requires
        forall|k: int| 0 <= k < s.len() ==> ws_char(s[k]),
    ensures
        trim_end_len(s) == 0,
    decreases s.len(),
{
    if s.len() > 0 {
        lemma_all_ws_trim_end(s.drop_last());
    }
}

/// Numeric value of a decimal-digit sequence, most significant digit
/// first.
pub open spec fn digits_val(s: Seq<char>) -> int
    decreases s.len(),
{
    if s.len() == 0 {
        0
    } else {
        digits_val(s.drop_last()) * 10 + (s.last() as int - '0' as int)
    }
}

pub proof fn lemma_digits_val_nonneg(s: Seq<char>)
    requires
        forall|k: int| 0 <= k < s.len() ==> digit_char(#[trigger] s[k]),
    ensures
        digits_val(s) >= 0,
    decreases s.len(),
{
    if s.len() > 0 {
        lemma_digits_val_nonneg(s.drop_last());
    }
}

/// Parse the decimal digits `s@.subrange(lo, hi)`; `None` when the value
/// exceeds `u32::MAX`.
pub fn parse_u32_range(s: &str, lo: usize, hi: usize) -> (r: Option<u32>)
    requires
        lo <= hi <= s@.len(),
        forall|k: int| lo <= k < hi ==> digit_char(#[trigger] s@[k]),
    ensures
        match r {
            Some(v) => v == digits_val(s@.subrange(lo as int, hi as int)),
            None => digits_val(s@.subrange(lo as int, hi as int)) > u32::MAX,
        },
{
    let mut acc: u32 = 0;
    let mut i: usize = lo;
    while i < hi
        invariant
            lo <= i <= hi <= s@.len(),
            forall|k: int| lo <= k < hi ==> digit_char(#[trigger] s@[k]),
            acc == digits_val(s@.subrange(lo as int, i as int)),
        decreases hi - i,
    {
        let c = s.get_char(i);
        let d: u32 = (c as u32) - 48;
        assert(d <= 9);
        if acc > (u32::MAX - d) / 10 {
            proof {
                lemma_digits_exceed(s@, lo as int, i as int, hi as int, acc as int, d as int);
            }
            return None;
        }
        proof {
            assert(s@.subrange(lo as int, (i + 1) as int).drop_last() =~= s@.subrange(
                lo as int,
                i as int,
            ));
        }
        acc = acc * 10 + d;
        i = i + 1;
    }
    assert(s@.subrange(lo as int, hi as int) =~= s@.subrange(lo as int, i as int));
    Some(acc)
}

/// When one more digit pushes the running value past `u32::MAX`, the whole
/// digit run's value is past it too.
proof fn lemma_digits_exceed(h: Seq<char>, lo: int, i: int, hi: int, acc: int, d: int)
    requires
        0 <= lo <= i < hi <= h.len(),
        forall|k: int| lo <= k < hi ==> digit_char(#[trigger] h[k]),
        acc == digits_val(h.subrange(lo, i)),
        d == h[i] as int - '0' as int,
        acc * 10 + d > u32::MAX,
    ensures
        digits_val(h.subrange(lo, hi)) > u32::MAX,
    decreases hi - i,
{
    assert(h.subrange(lo, i + 1).drop_last() =~= h.subrange(lo, i));
    assert(digits_val(h.subrange(lo, i + 1)) == acc * 10 + d);
    if i + 1 == hi {
    } else {
        let next = digits_val(h.subrange(lo, i + 1));
        let dn = h[i + 1] as int - '0' as int;
        assert(digit_char(h[i + 1]));
        assert(dn >= 0);
        assert(next * 10 + dn > u32::MAX) by {
            assert(next > u32::MAX);
            assert(next * 10 >= next) by (nonlinear_arith)
                requires
                    next > 0,
            ;
        }
        lemma_digits_exceed(h, lo, i + 1, hi, next, dn);
    }
}

/// ASCII lower-casing of one character; other characters are unchanged.
pub open spec fn ascii_lower(c: char) -> char {
    if 'A' <= c && c <= 'Z' {
        (((c as u8) + 32) as char)
    } else {
        c
    }
}

/// ASCII lower-casing of a character sequence.
pub open spec fn lower_seq(s: Seq<char>) -> Seq<char> {
    s.map_values(|c: char| ascii_lower(c))
}

pub fn to_lower_char(c: char) -> (r: char)
    ensures
        r == ascii_lower(c),
{
    if 'A' <= c && c <= 'Z' {
        ((c as u8) + 32) as char
    } else {
        c
    }
}

/// Does `s`, lower-cased ASCII-wise, equal `lit`?
pub fn lower_eq(s: &str, lit: &str) -> (r: bool)
    ensures
        r == (lower_seq(s@) == lit@),
{
    let slen: usize = s.unicode_len();
    let llen: usize = lit.unicode_len();
    if slen != llen {
        assert(lower_seq(s@).len() == s@.len());
        return false;
    }
    let mut i: usize = 0;
    while i < slen
        invariant
            slen == s@.len(),
            slen == lit@.len(),
            i <= slen,
            forall|k: int| 0 <= k < i ==> ascii_lower(s@[k]) == lit@[k],
        decreases slen - i,
    {
        if to_lower_char(s.get_char(i)) != lit.get_char(i) {
            assert(lower_seq(s@)[i as int] != lit@[i as int]);
            return false;
        }
        i = i + 1;
    }
    assert(lower_seq(s@) =~= lit@);
    true
}

/// The decimal digit character of a value below ten.
pub open spec fn digit_of(n: int) -> char {
    (((48 + n) as u8) as char)
}

/// The decimal rendering of a non-negative number, most significant
/// digit first.
pub open spec fn dec_str(n: int) -> Seq<char>
    recommends
        n >= 0,
    decreases n when n >= 0
{
    if n < 10 {
        seq![digit_of(n)]
    } else {
        dec_str(n / 10).push(digit_of(n % 10))
    }
}

/// Render a number in decimal.
pub fn fmt_u64(n: u64) -> (r: String)
    ensures
        r@ == dec_str(n as int),
    decreases n,
{
    if n < 10 {
        let mut s = String::new();
        push_char(&mut s, ((48 + n) as u8) as char);
        assert(s@ =~= seq![digit_of(n as int)]);
        s
    } else {
        let mut s = fmt_u64(n / 10);
        push_char(&mut s, ((48 + n % 10) as u8) as char);
        s
    }
}

/// Relies on String::push: appends exactly one character.
#[verifier::external_body]
pub fn push_char(s: &mut String, c: char)
    ensures
        final(s)@ == old(s)@.push(c),
{
    s.push(c);
}

/// Equality of two strings, decided character by character.
pub fn str_eq(a: &str, b: &str) -> (r: bool)
    ensures
        r == (a@ == b@),
{
    let alen: usize = a.unicode_len();
    let blen: usize = b.unicode_len();
    if alen != blen {
        return false;
    }
    let mut i: usize = 0;
    while i < alen
        invariant
            alen == a@.len(),
            alen == b@.len(),
            i <= alen,
            forall|k: int| 0 <= k < i ==> a@[k] == b@[k],
        decreases alen - i,
    {
        if a.get_char(i) != b.get_char(i) {
            return false;
        }
        i = i + 1;
    }
    assert(a@ =~= b@);
    true
}

} // verus!
