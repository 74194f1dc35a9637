//! The structural parser: lexical extraction of contract entities from
//! raw source text into the contract model.
//!
//! Matching is line-oriented and grammar-based: each entity class has a
//! spec-level matcher over character sequences, and the executable
//! scanners are proved to return exactly what the matchers describe.
//! Malformed input never fails; it simply yields fewer extracted
//! entities.

use vstd::prelude::*;

use crate::text::{
    contains_seq, contains_sub, find_char, find_char_from, lemma_find_char_from,
    lemma_nonws_end_from, lemma_skip_ws_from, lemma_word_end_from, match_at, matches_at,
    nonws_end, nonws_end_from, skip_ws, skip_ws_from, trim_of, trim_str, word_char, word_end,
    word_end_from, ws_char,
};

verus! {

/// `l` without one trailing carriage return, as line splitting strips it.
pub open spec fn strip_cr(l: Seq<char>) -> Seq<char> {
    if l.len() > 0 && l.last() == '\r' {
        l.drop_last()
    } else {
        l
    }
}

/// The lines of `s`: split at each newline, with one trailing carriage
/// return removed per line, and no empty final line after a trailing
/// newline.
pub open spec fn lines_of(s: Seq<char>) -> Seq<Seq<char>>
    decreases s.len(),
{
    if s.len() == 0 {
        Seq::empty()
    } else {
        let e = find_char_from(s, 0, '\n');
        if 0 <= e && e < s.len() {
            seq![strip_cr(s.subrange(0, e))] + lines_of(s.subrange(e + 1, s.len() as int))
        } else {
            seq![strip_cr(s)]
        }
    }
}

/// The views of a vector of owned lines.
pub open spec fn views_of(v: Seq<String>) -> Seq<Seq<char>> {
    v.map_values(|x: String| x@)
}

/// Total character count of a sequence of lines.
pub open spec fn sum_lens(v: Seq<Seq<char>>) -> int
    decreases v.len(),
{
    if v.len() == 0 {
        0
    } else {
        sum_lens(v.drop_last()) + v.last().len()
    }
}

pub proof fn lemma_sum_lens_nonneg(v: Seq<Seq<char>>)
    ensures
        sum_lens(v) >= 0,
    decreases v.len(),
{
    if v.len() > 0 {
        lemma_sum_lens_nonneg(v.drop_last());
    }
}

/// A prefix never has more characters than the whole.
pub proof fn lemma_sum_lens_prefix(v: Seq<Seq<char>>, n: int)
    requires
        0 <= n <= v.len(),
    ensures
        sum_lens(v.subrange(0, n)) <= sum_lens(v),
    decreases v.len() - n,
{
    if n == v.len() {
        assert(v.subrange(0, n) =~= v);
    } else {
        lemma_sum_lens_prefix(v, n + 1);
        assert(v.subrange(0, n + 1).drop_last() =~= v.subrange(0, n));
        assert(sum_lens(v.subrange(0, n + 1)) == sum_lens(v.subrange(0, n)) + v[n].len());
    }
}

/// The span `v.subrange(a, b)` has at most the characters of
/// `v.subrange(0, b)`.
pub proof fn lemma_sum_lens_span(v: Seq<Seq<char>>, a: int, b: int)
    requires
        0 <= a <= b <= v.len(),
    ensures
        0 <= sum_lens(v.subrange(a, b)) <= sum_lens(v),
    decreases a,
{
    lemma_sum_lens_nonneg(v.subrange(a, b));
    if a == 0 {
        lemma_sum_lens_prefix(v, b);
    } else {
        lemma_sum_lens_span(v.subrange(1, v.len() as int), a - 1, b - 1);
        assert(v.subrange(1, v.len() as int).subrange(a - 1, b - 1) =~= v.subrange(a, b));
        lemma_sum_lens_drop_first(v);
    }
}

proof fn lemma_sum_lens_drop_first(v: Seq<Seq<char>>)
    requires
        v.len() > 0,
    ensures
        sum_lens(v.subrange(1, v.len() as int)) <= sum_lens(v),
    decreases v.len(),
{
    if v.len() == 1 {
        assert(v.subrange(1, 1) =~= Seq::<Seq<char>>::empty());
        lemma_sum_lens_nonneg(v);
    } else {
        lemma_sum_lens_drop_first(v.drop_last());
        assert(v.subrange(1, v.len() as int).drop_last() =~= v.drop_last().subrange(
            1,
            v.len() - 1,
        ));
        assert(sum_lens(v.subrange(1, v.len() as int)) == sum_lens(
            v.drop_last().subrange(1, v.len() - 1),
        ) + v.last().len());
    }
}

/// `find_char_from` is pinned down by a no-earlier-occurrence witness.
proof fn lemma_find_char_unique(h: Seq<char>, i: int, m: int, c: char)
    requires
        0 <= i <= m <= h.len(),
        forall|k: int| i <= k < m ==> h[k] != c,
        m < h.len() ==> h[m] == c,
    ensures
        find_char_from(h, i, c) == m,
    decreases m - i,
{
    if i < m {
        lemma_find_char_unique(h, i + 1, m, c);
    }
}

/// Peeling the first line off a suffix of `s`.
proof fn lemma_lines_step(s: Seq<char>, pos: int, e: int)
    requires
        0 <= pos < s.len(),
        pos <= e <= s.len(),
        forall|k: int| pos <= k < e ==> s[k] != '\n',
        e < s.len() ==> s[e] == '\n',
    ensures
        lines_of(s.subrange(pos, s.len() as int)) == if e < s.len() {
            seq![strip_cr(s.subrange(pos, e))] + lines_of(s.subrange(e + 1, s.len() as int))
        } else {
            seq![strip_cr(s.subrange(pos, e))]
        },
{
    let suf = s.subrange(pos, s.len() as int);
    assert forall|k: int| 0 <= k < e - pos implies suf[k] != '\n' by {
        assert(suf[k] == s[k + pos]);
    }
    lemma_find_char_unique(suf, 0, e - pos, '\n');
    if e < s.len() {
        assert(suf.subrange(0, e - pos) =~= s.subrange(pos, e));
        assert(suf.subrange(e - pos + 1, suf.len() as int) =~= s.subrange(e + 1, s.len() as int));
    } else {
        assert(suf =~= s.subrange(pos, e));
    }
}

/// Split source text into its lines.
pub fn split_lines(s: &str) -> (r: Vec<String>)
    ensures
        views_of(r@) == lines_of(s@),
        sum_lens(views_of(r@)) <= s@.len(),
{
    let len: usize = s.unicode_len();
    let mut out: Vec<String> = Vec::new();
    let mut pos: usize = 0;
    if len == 0 {
        assert(views_of(out@) =~= lines_of(s@));
        return out;
    }
    proof {
        assert(s@.subrange(0, len as int) =~= s@);
        assert(views_of(out@) + lines_of(s@.subrange(0, len as int)) =~= lines_of(s@));
    }
    loop
        invariant_except_break
            pos < len,
            lines_of(s@) =~= views_of(out@) + lines_of(s@.subrange(pos as int, len as int)),
            sum_lens(views_of(out@)) <= pos,
        invariant
            len == s@.len(),
        ensures
            views_of(out@) =~= lines_of(s@),
            sum_lens(views_of(out@)) <= s@.len(),
        decreases len - pos,
    {
        let e = find_char(s, pos, '\n');
        proof {
            lemma_find_char_from(s@, pos as int, '\n');
        }
        let mut line_end: usize = e;
        if e > pos && s.get_char(e - 1) == '\r' {
            line_end = e - 1;
        }
        let line = s.substring_char(pos, line_end);
        proof {
            assert(strip_cr(s@.subrange(pos as int, e as int)) =~= s@.subrange(
                pos as int,
                line_end as int,
            ));
            lemma_lines_step(s@, pos as int, e as int);
        }
        let ghost old_out = views_of(out@);
        let ghost old_sum = sum_lens(views_of(out@));
        out.push(String::from_str(line));
        proof {
            assert(views_of(out@) =~= old_out.push(line@));
            assert(views_of(out@).drop_last() =~= old_out);
            assert(sum_lens(views_of(out@)) == old_sum + line@.len());
        }
        if e >= len || e + 1 >= len {
            proof {
                if e < len {
                    assert(s@.subrange(e + 1, len as int) =~= Seq::<char>::empty());
                    assert(lines_of(s@.subrange(e + 1, len as int)) =~= Seq::<Seq<char>>::empty());
                }
                assert(views_of(out@) =~= old_out + seq![line@]);
                assert(views_of(out@) =~= lines_of(s@));
            }
            break;
        }
        proof {
            assert(views_of(out@) =~= old_out + seq![line@]);
            assert(views_of(out@) + lines_of(s@.subrange(e + 1, len as int)) =~= lines_of(s@));
        }
        pos = e + 1;
    }
    out
}

/// Occurrences of `c` in `l`.
pub open spec fn count_char(l: Seq<char>, c: char) -> int
    decreases l.len(),
{
    if l.len() == 0 {
        0
    } else {
        count_char(l.drop_last(), c) + if l.last() == c {
            1int
        } else {
            0int
        }
    }
}

pub proof fn lemma_count_char_bounds(l: Seq<char>, c: char)
    ensures
        0 <= count_char(l, c) <= l.len(),
    decreases l.len(),
{
    if l.len() > 0 {
        lemma_count_char_bounds(l.drop_last(), c);
    }
}

/// Opening minus closing braces of one line.
pub open spec fn brace_delta(l: Seq<char>) -> int {
    count_char(l, '{') - count_char(l, '}')
}

/// Does the line open at least one brace?
pub open spec fn has_open(l: Seq<char>) -> bool {
    count_char(l, '{') > 0
}

/// What brace-counting body extraction produces: the scanned text and
/// whether scanning stopped because the depth returned to zero (rather
/// than by running off the end of the file).
pub ghost struct BodyOut {
    pub text: Seq<char>,
    pub closed: bool,
}

/// Brace-counting body extraction over lines, carrying the running brace
/// depth and whether an opening brace has been seen.  The scan consumes
/// lines until the depth returns to zero after an opening brace, or to
/// the end of the file.
pub open spec fn body_rec(lines: Seq<Seq<char>>, i: int, depth: int, started: bool) -> BodyOut
    decreases lines.len() - i when 0 <= i <= lines.len()
{
    if i >= lines.len() {
        BodyOut { text: Seq::empty(), closed: false }
    } else {
        let d = depth + brace_delta(lines[i]);
        let st = started || has_open(lines[i]);
        let piece = if st {
            lines[i].push('\n')
        } else {
            Seq::<char>::empty()
        };
        if st && d == 0 {
            BodyOut { text: piece, closed: true }
        } else {
            let rest = body_rec(lines, i + 1, d, st);
            BodyOut { text: piece + rest.text, closed: rest.closed }
        }
    }
}

/// The body extracted by brace counting from `start` onward.
pub open spec fn spec_body(lines: Seq<Seq<char>>, start: int) -> Seq<char> {
    body_rec(lines, start, 0, false).text
}

/// Net brace delta over the line span `[i, e]`.
pub open spec fn depth_over(lines: Seq<Seq<char>>, i: int, e: int) -> int
    decreases e - i + 1 when i <= e + 1
{
    if i > e {
        0
    } else {
        brace_delta(lines[i]) + depth_over(lines, i + 1, e)
    }
}

/// Some line in `[i, e]` opens a brace.
pub open spec fn opened_by(lines: Seq<Seq<char>>, i: int, e: int) -> bool {
    exists|j: int| i <= j <= e && has_open(#[trigger] lines[j])
}

proof fn lemma_body_closes_rec(lines: Seq<Seq<char>>, i: int, depth: int, started: bool, e: int)
    requires
        0 <= i <= e < lines.len(),
        started || opened_by(lines, i, e),
        depth + depth_over(lines, i, e) == 0,
    ensures
        body_rec(lines, i, depth, started).closed,
    decreases e - i,
{
    let d = depth + brace_delta(lines[i]);
    let st = started || has_open(lines[i]);
    if st && d == 0 {
    } else {
        if i == e {
            assert(depth_over(lines, e + 1, e) == 0);
            assert(d == 0);
            assert(opened_by(lines, i, e) ==> has_open(lines[i]));
            assert(false);
        } else {
            if !st {
                let j = choose|j: int| i <= j <= e && has_open(#[trigger] lines[j]);
                assert(j >= i + 1);
                assert(opened_by(lines, i + 1, e));
            }
            lemma_body_closes_rec(lines, i + 1, d, st, e);
        }
    }
}

/// Brace-counting body extraction is total — its defining recursion
/// terminates on every input — and on text whose braces balance it stops
/// with no outstanding depth: whenever the running brace delta over the
/// lines from `start` through some line `e` is zero and a brace has
/// opened by `e`, the scan ends in the `closed` state rather than by
/// consuming to the end of the file.
pub proof fn lemma_body_extraction_balanced(lines: Seq<Seq<char>>, start: int, e: int)
    requires
        0 <= start <= e < lines.len(),
        opened_by(lines, start, e),
        depth_over(lines, start, e) == 0,
    ensures
        body_rec(lines, start, 0, false).closed,
{
    lemma_body_closes_rec(lines, start, 0, false, e);
}

/// Count opening and closing braces of one line.
fn count_braces(line: &str) -> (r: (usize, usize))
    ensures
        r.0 == count_char(line@, '{'),
        r.1 == count_char(line@, '}'),
{
    let len: usize = line.unicode_len();
    let mut opens: usize = 0;
    let mut closes: usize = 0;
    let mut j: usize = 0;
    proof {
        assert(line@.subrange(0, 0) =~= Seq::<char>::empty());
    }
    while j < len
        invariant
            j <= len,
            len == line@.len(),
            opens == count_char(line@.subrange(0, j as int), '{'),
            closes == count_char(line@.subrange(0, j as int), '}'),
            opens <= j,
            closes <= j,
        decreases len - j,
    {
        let c = line.get_char(j);
        proof {
            assert(line@.subrange(0, j + 1).drop_last() =~= line@.subrange(0, j as int));
            assert(line@.subrange(0, j + 1).last() == line@[j as int]);
        }
        if c == '{' {
            opens = opens + 1;
        } else if c == '}' {
            closes = closes + 1;
        }
        j = j + 1;
    }
    proof {
        assert(line@.subrange(0, len as int) =~= line@);
    }
    (opens, closes)
}

/// Extract a body by brace counting, scanning forward from `start_line`
/// and consuming to the end of the file when braces never balance.
pub fn extract_function_body(lines: &Vec<String>, start_line: usize) -> (r: String)
    requires
        start_line <= lines@.len(),
        sum_lens(views_of(lines@)) <= usize::MAX,
    ensures
        r@ == spec_body(views_of(lines@), start_line as int),
{
    let ghost vs = views_of(lines@);
    let mut out = String::new();
    let mut depth: i128 = 0;
    let mut started = false;
    let mut li: usize = start_line;
    loop
        invariant_except_break
            start_line <= li <= lines@.len(),
            spec_body(vs, start_line as int) == out@ + body_rec(
                vs,
                li as int,
                depth as int,
                started,
            ).text,
            -sum_lens(vs.subrange(start_line as int, li as int)) <= depth
                <= sum_lens(vs.subrange(start_line as int, li as int)),
        invariant
            start_line <= lines@.len(),
            vs == views_of(lines@),
            sum_lens(vs) <= usize::MAX,
        ensures
            out@ == spec_body(vs, start_line as int),
        decreases lines@.len() - li,
    {
        if li >= lines.len() {
            proof {
                assert(body_rec(vs, li as int, depth as int, started).text =~= Seq::<
                    char,
                >::empty());
                assert(out@ + Seq::<char>::empty() =~= out@);
            }
            break;
        }
        let line = &lines[li];
        let braces = count_braces(line.as_str());
        let ghost old_out = out@;
        let ghost old_depth = depth as int;
        let ghost old_started = started;
        proof {
            assert(vs[li as int] == line@);
            lemma_count_char_bounds(line@, '{');
            lemma_count_char_bounds(line@, '}');
            lemma_sum_lens_span(vs, start_line as int, li + 1);
            lemma_sum_lens_nonneg(vs.subrange(start_line as int, li as int));
            assert(vs.subrange(start_line as int, li + 1).drop_last() =~= vs.subrange(
                start_line as int,
                li as int,
            ));
            assert(vs.subrange(start_line as int, li + 1).last() == vs[li as int]);
        }
        depth = depth + braces.0 as i128 - braces.1 as i128;
        if braces.0 > 0 {
            started = true;
        }
        if started {
            out.append(line.as_str());
            out.append("\n");
            proof {
                reveal_strlit("\n");
                assert(out@ =~= old_out + vs[li as int].push('\n'));
            }
        }
        if started && depth == 0 {
            proof {
                assert(body_rec(vs, li as int, old_depth, old_started).text
                    == vs[li as int].push('\n'));
                assert(out@ == spec_body(vs, start_line as int));
            }
            break;
        }
        proof {
            let rest = body_rec(vs, li + 1, depth as int, started);
            if started {
                assert(body_rec(vs, li as int, old_depth, old_started).text
                    == vs[li as int].push('\n') + rest.text);
                assert(old_out + (vs[li as int].push('\n') + rest.text) =~= (old_out
                    + vs[li as int].push('\n')) + rest.text);
            } else {
                assert(body_rec(vs, li as int, old_depth, old_started).text == rest.text);
            }
        }
        li = li + 1;
    }
    out
}

/// End of the run of word or whitespace characters beginning at `i`: the
/// stretch the grammar skips between a header's last capture and its
/// opening brace.
pub open spec fn wordws_end_from(h: Seq<char>, i: int) -> int
    recommends
        0 <= i <= h.len(),
    decreases h.len() - i when 0 <= i <= h.len()
{
    if i >= h.len() {
        h.len() as int
    } else if word_char(h[i]) || ws_char(h[i]) {
        wordws_end_from(h, i + 1)
    } else {
        i
    }
}

pub fn wordws_end(s: &str, i: usize) -> (r: usize)
    requires
        i <= s@.len(),
    ensures
        r == wordws_end_from(s@, i as int),
        i <= r <= s@.len(),
{
    let len: usize = s.unicode_len();
    let mut j: usize = i;
    while j < len && (crate::text::is_word(s.get_char(j)) || crate::text::is_ws(s.get_char(j)))
        invariant
            i <= j <= len,
            len == s@.len(),
            wordws_end_from(s@, i as int) == wordws_end_from(s@, j as int),
        decreases len - j,
    {
        j = j + 1;
    }
    j
}

/// Spec-level captures of one function header.
pub ghost struct FnHeader {
    pub name: Seq<char>,
    pub params: Seq<char>,
    pub visibility: Seq<char>,
    pub mutability: Seq<char>,
    pub returns_params: Seq<char>,
}

/// End of a visibility keyword starting at `i`, or `i` when none starts
/// there.
pub open spec fn vis_kw_end(h: Seq<char>, i: int) -> int {
    if matches_at(h, "external"@, i) {
        i + 8
    } else if matches_at(h, "public"@, i) {
        i + 6
    } else if matches_at(h, "internal"@, i) {
        i + 8
    } else if matches_at(h, "private"@, i) {
        i + 7
    } else {
        i
    }
}

/// End of a mutability keyword starting at `i`, or `i` when none starts
/// there.
pub open spec fn mut_kw_end(h: Seq<char>, i: int) -> int {
    if matches_at(h, "view"@, i) {
        i + 4
    } else if matches_at(h, "pure"@, i) {
        i + 4
    } else if matches_at(h, "payable"@, i) {
        i + 7
    } else {
        i
    }
}

/// A `returns ( ... )` clause starting at `i`: the captured parameter
/// text and the position just past the closing parenthesis.
pub open spec fn returns_clause(h: Seq<char>, i: int) -> Option<(Seq<char>, int)> {
    if matches_at(h, "returns"@, i) {
        let k = skip_ws_from(h, i + 7);
        if k < h.len() && h[k] == '(' {
            let k2 = find_char_from(h, k + 1, ')');
            if k2 < h.len() {
                Some((h.subrange(k + 1, k2), k2 + 1))
            } else {
                None
            }
        } else {
            None
        }
    } else {
        None
    }
}

/// The function-header grammar, matched at position `i` of one line:
/// `function`, whitespace, a name, an optionally spaced parenthesised
/// parameter list, an optional visibility keyword (defaulting to
/// `internal`), an optional mutability keyword, an optional
/// `returns (...)` clause, then modifier words and whitespace up to an
/// opening brace on the same line.
pub open spec fn fn_header_at(line: Seq<char>, i: int) -> Option<FnHeader> {
    if !matches_at(line, "function"@, i) {
        None
    } else {
        let j1 = skip_ws_from(line, i + 8);
        let j2 = word_end_from(line, j1);
        if j1 <= i + 8 || j2 <= j1 {
            None
        } else {
            let j3 = skip_ws_from(line, j2);
            if j3 >= line.len() || line[j3] != '(' {
                None
            } else {
                let j4 = find_char_from(line, j3 + 1, ')');
                if j4 >= line.len() {
                    None
                } else {
                    let j5 = skip_ws_from(line, j4 + 1);
                    let vend = vis_kw_end(line, j5);
                    let j6 = skip_ws_from(line, vend);
                    let mend = mut_kw_end(line, j6);
                    let j7 = skip_ws_from(line, mend);
                    let ret = returns_clause(line, j7);
                    let j8 = match ret {
                        Some((_cap, e)) => e,
                        None => j7,
                    };
                    let tail = wordws_end_from(line, j8);
                    if tail < line.len() && line[tail] == '{' {
                        Some(
                            FnHeader {
                                name: line.subrange(j1, j2),
                                params: line.subrange(j3 + 1, j4),
                                visibility: if vend > j5 {
                                    line.subrange(j5, vend)
                                } else {
                                    "internal"@
                                },
                                mutability: if mend > j6 {
                                    line.subrange(j6, mend)
                                } else {
                                    Seq::empty()
                                },
                                returns_params: match ret {
                                    Some((cap, _e)) => cap,
                                    None => Seq::empty(),
                                },
                            },
                        )
                    } else {
                        None
                    }
                }
            }
        }
    }
}

/// The leftmost function-header match in a line.
pub open spec fn fn_match_from(line: Seq<char>, i: int) -> Option<FnHeader>
    decreases line.len() - i when 0 <= i <= line.len()
{
    if i >= line.len() {
        None
    } else if fn_header_at(line, i) is Some {
        fn_header_at(line, i)
    } else {
        fn_match_from(line, i + 1)
    }
}

/// The function header a line declares, if any.
pub open spec fn line_fn_header(line: Seq<char>) -> Option<FnHeader> {
    fn_match_from(line, 0)
}

/// Owned captures of one function header, with the visibility default
/// already applied.
pub struct FnCaptures {
    pub name: String,
    pub params: String,
    pub visibility: String,
    pub mutability: String,
    pub returns_params: String,
}

/// The owned captures realise the spec-level header.
pub open spec fn fn_caps_match(c: FnCaptures, h: FnHeader) -> bool {
    &&& c.name@ == h.name
    &&& c.params@ == h.params
    &&& c.visibility@ == h.visibility
    &&& c.mutability@ == h.mutability
    &&& c.returns_params@ == h.returns_params
}

/// Match the function-header grammar at one position.
fn try_fn_header_at(line: &str, i: usize) -> (r: Option<FnCaptures>)
    requires
        i <= line@.len(),
    ensures
        match r {
            Some(c) => fn_header_at(line@, i as int) matches Some(h) && fn_caps_match(c, h),
            None => fn_header_at(line@, i as int) is None,
        },
{
    let _len: usize = line.unicode_len();
    proof {
        reveal_strlit("function");
    }
    if !match_at(line, "function", i) {
        return None;
    }
    proof {
        lemma_skip_ws_from(line@, i + 8);
    }
    let j1 = skip_ws(line, i + 8);
    proof {
        lemma_word_end_from(line@, j1 as int);
    }
    let j2 = word_end(line, j1);
    if j1 <= i + 8 || j2 <= j1 {
        return None;
    }
    proof {
        lemma_skip_ws_from(line@, j2 as int);
    }
    let j3 = skip_ws(line, j2);
    let len = line.unicode_len();
    if j3 >= len || line.get_char(j3) != '(' {
        return None;
    }
    proof {
        lemma_find_char_from(line@, j3 + 1, ')');
    }
    let j4 = find_char(line, j3 + 1, ')');
    if j4 >= len {
        return None;
    }
    proof {
        lemma_skip_ws_from(line@, j4 + 1);
    }
    let j5 = skip_ws(line, j4 + 1);
    let vend = vis_end_exec(line, j5);
    proof {
        lemma_skip_ws_from(line@, vend as int);
    }
    let j6 = skip_ws(line, vend);
    let mend = mut_end_exec(line, j6);
    proof {
        lemma_skip_ws_from(line@, mend as int);
    }
    let j7 = skip_ws(line, mend);
    let ret = returns_clause_exec(line, j7);
    let j8: usize = match ret {
        Some((_lo, _hi, e)) => e,
        None => j7,
    };
    let tail = wordws_end(line, j8);
    if tail < len && line.get_char(tail) == '{' {
        let visibility: String = if vend > j5 {
            String::from_str(line.substring_char(j5, vend))
        } else {
            String::from_str("internal")
        };
        let mutability: String = if mend > j6 {
            String::from_str(line.substring_char(j6, mend))
        } else {
            String::new()
        };
        let returns_params: String = match ret {
            Some((lo, hi, _e)) => String::from_str(line.substring_char(lo, hi)),
            None => String::new(),
        };
        Some(
            FnCaptures {
                name: String::from_str(line.substring_char(j1, j2)),
                params: String::from_str(line.substring_char(j3 + 1, j4)),
                visibility,
                mutability,
                returns_params,
            },
        )
    } else {
        None
    }
}

/// End of a visibility keyword at `i`.
fn vis_end_exec(line: &str, i: usize) -> (r: usize)
    requires
        i <= line@.len(),
    ensures
        r == vis_kw_end(line@, i as int),
        i <= r <= line@.len(),
{
    let _len: usize = line.unicode_len();
    proof {
        reveal_strlit("external");
        reveal_strlit("public");
        reveal_strlit("internal");
        reveal_strlit("private");
    }
    if match_at(line, "external", i) {
        i + 8
    } else if match_at(line, "public", i) {
        i + 6
    } else if match_at(line, "internal", i) {
        i + 8
    } else if match_at(line, "private", i) {
        i + 7
    } else {
        i
    }
}

/// End of a mutability keyword at `i`.
fn mut_end_exec(line: &str, i: usize) -> (r: usize)
    requires
        i <= line@.len(),
    ensures
        r == mut_kw_end(line@, i as int),
        i <= r <= line@.len(),
{
    let _len: usize = line.unicode_len();
    proof {
        reveal_strlit("view");
        reveal_strlit("pure");
        reveal_strlit("payable");
    }
    if match_at(line, "view", i) {
        i + 4
    } else if match_at(line, "pure", i) {
        i + 4
    } else if match_at(line, "payable", i) {
        i + 7
    } else {
        i
    }
}

/// A `returns (...)` clause at `i`: capture bounds and the position past
/// the closing parenthesis.
fn returns_clause_exec(line: &str, i: usize) -> (r: Option<(usize, usize, usize)>)
    requires
        i <= line@.len(),
    ensures
        match r {
            Some((lo, hi, e)) => returns_clause(line@, i as int) matches Some((cap, se))
                && cap == line@.subrange(lo as int, hi as int) && se == e && lo <= hi
                <= line@.len() && e <= line@.len(),
            None => returns_clause(line@, i as int) is None,
        },
{
    let _len: usize = line.unicode_len();
    proof {
        reveal_strlit("returns");
    }
    if !match_at(line, "returns", i) {
        return None;
    }
    proof {
        lemma_skip_ws_from(line@, i + 7);
    }
    let k = skip_ws(line, i + 7);
    let len = line.unicode_len();
    if k < len && line.get_char(k) == '(' {
        proof {
            lemma_find_char_from(line@, k + 1, ')');
        }
        let k2 = find_char(line, k + 1, ')');
        if k2 < len {
            Some((k + 1, k2, k2 + 1))
        } else {
            None
        }
    } else {
        None
    }
}

/// Find the leftmost function header declared in a line.
pub fn match_fn_header(line: &str) -> (r: Option<FnCaptures>)
    ensures
        match r {
            Some(c) => line_fn_header(line@) matches Some(h) && fn_caps_match(c, h),
            None => line_fn_header(line@) is None,
        },
{
    let len = line.unicode_len();
    let mut i: usize = 0;
    while i < len
        invariant
            i <= len,
            len == line@.len(),
            fn_match_from(line@, 0) == fn_match_from(line@, i as int),
        decreases len - i,
    {
        match try_fn_header_at(line, i) {
            Some(c) => {
                return Some(c);
            },
            None => {
                i = i + 1;
            },
        }
    }
    None
}

/// Spec-level captures of one state-variable declaration.
pub ghost struct SvCaps {
    pub type_text: Seq<char>,
    pub visibility: Seq<char>,
    pub is_constant: bool,
    pub is_immutable: bool,
    pub name: Seq<char>,
    pub init: Option<Seq<char>>,
}

/// End of a state-variable type keyword starting at `i`, or `i` when none
/// starts there.
pub open spec fn type_kw_end(h: Seq<char>, i: int) -> int {
    if matches_at(h, "uint"@, i) {
        i + 4
    } else if matches_at(h, "int"@, i) {
        i + 3
    } else if matches_at(h, "string"@, i) {
        i + 6
    } else if matches_at(h, "bool"@, i) {
        i + 4
    } else if matches_at(h, "bytes"@, i) {
        i + 5
    } else if matches_at(h, "address"@, i) {
        i + 7
    } else if matches_at(h, "mapping"@, i) {
        i + 7
    } else {
        i
    }
}

/// End of the run of `[]` pairs beginning at `i`.
pub open spec fn brackets_end(h: Seq<char>, i: int) -> int
    recommends
        0 <= i <= h.len(),
    decreases h.len() - i when 0 <= i <= h.len()
{
    if i + 2 <= h.len() && h[i] == '[' && h[i + 1] == ']' {
        brackets_end(h, i + 2)
    } else {
        i
    }
}

/// End of a state-variable visibility keyword at `i`, or `i`.
pub open spec fn sv_vis_end(h: Seq<char>, i: int) -> int {
    if matches_at(h, "public"@, i) {
        i + 6
    } else if matches_at(h, "private"@, i) {
        i + 7
    } else if matches_at(h, "internal"@, i) {
        i + 8
    } else {
        i
    }
}

/// End of a `constant` or `immutable` qualifier at `i`, or `i`.
pub open spec fn sv_qual_end(h: Seq<char>, i: int) -> int {
    if matches_at(h, "constant"@, i) {
        i + 8
    } else if matches_at(h, "immutable"@, i) {
        i + 9
    } else {
        i
    }
}

/// A declaration's name, and its optional initializer, starting at `j`:
/// a word, then either a semicolon directly, or an equals sign with the
/// initializer text running to the first semicolon.
pub open spec fn sv_name_init(h: Seq<char>, j: int) -> Option<(Seq<char>, Option<Seq<char>>)> {
    let ne = word_end_from(h, j);
    if ne <= j {
        None
    } else if ne < h.len() && h[ne] == ';' {
        Some((h.subrange(j, ne), None))
    } else {
        let k = skip_ws_from(h, ne);
        if k < h.len() && h[k] == '=' {
            let v0 = skip_ws_from(h, k + 1);
            let ve = find_char_from(h, v0, ';');
            if ve < h.len() && ve > v0 {
                Some((h.subrange(j, ne), Some(h.subrange(v0, ve))))
            } else {
                None
            }
        } else {
            None
        }
    }
}

/// The state-variable grammar, matched at position `i` of one line: a
/// type keyword with word and array suffixes, whitespace, then the most
/// specific of four shapes — with or without a visibility keyword, with
/// or without a constant/immutable qualifier — ending in a name and an
/// optional initializer before a semicolon.
pub open spec fn sv_at(line: Seq<char>, i: int) -> Option<SvCaps> {
    let te = type_kw_end(line, i);
    if te <= i {
        None
    } else {
        let we = word_end_from(line, te);
        let be = brackets_end(line, we);
        let tt = line.subrange(i, be);
        let j1 = skip_ws_from(line, be);
        if j1 <= be {
            None
        } else {
            let vend = sv_vis_end(line, j1);
            let after_vis = if vend > j1 {
                sv_after_vis(line, j1, vend, tt)
            } else {
                None
            };
            if after_vis is Some {
                after_vis
            } else {
                sv_no_vis(line, j1, tt)
            }
        }
    }
}

/// The qualifier-then-name and plain-name shapes after a matched
/// visibility keyword.
pub open spec fn sv_after_vis(line: Seq<char>, j1: int, vend: int, tt: Seq<char>) -> Option<
    SvCaps,
> {
    let j2 = skip_ws_from(line, vend);
    let qend = sv_qual_end(line, j2);
    let with_qual = if qend > j2 {
        match sv_name_init(line, skip_ws_from(line, qend)) {
            Some((name, init)) => Some(
                SvCaps {
                    type_text: tt,
                    visibility: line.subrange(j1, vend),
                    is_constant: matches_at(line, "constant"@, j2),
                    is_immutable: !matches_at(line, "constant"@, j2),
                    name,
                    init,
                },
            ),
            None => None,
        }
    } else {
        None
    };
    if with_qual is Some {
        with_qual
    } else {
        match sv_name_init(line, j2) {
            Some((name, init)) => Some(
                SvCaps {
                    type_text: tt,
                    visibility: line.subrange(j1, vend),
                    is_constant: false,
                    is_immutable: false,
                    name,
                    init,
                },
            ),
            None => None,
        }
    }
}

/// The qualifier-then-name and plain-name shapes with the default
/// `internal` visibility.
pub open spec fn sv_no_vis(line: Seq<char>, j1: int, tt: Seq<char>) -> Option<SvCaps> {
    let qend = sv_qual_end(line, j1);
    let with_qual = if qend > j1 {
        match sv_name_init(line, skip_ws_from(line, qend)) {
            Some((name, init)) => Some(
                SvCaps {
                    type_text: tt,
                    visibility: "internal"@,
                    is_constant: matches_at(line, "constant"@, j1),
                    is_immutable: !matches_at(line, "constant"@, j1),
                    name,
                    init,
                },
            ),
            None => None,
        }
    } else {
        None
    };
    if with_qual is Some {
        with_qual
    } else {
        match sv_name_init(line, j1) {
            Some((name, init)) => Some(
                SvCaps {
                    type_text: tt,
                    visibility: "internal"@,
                    is_constant: false,
                    is_immutable: false,
                    name,
                    init,
                },
            ),
            None => None,
        }
    }
}

/// The leftmost state-variable match in a line.
pub open spec fn sv_match_from(line: Seq<char>, i: int) -> Option<SvCaps>
    decreases line.len() - i when 0 <= i <= line.len()
{
    if i >= line.len() {
        None
    } else if sv_at(line, i) is Some {
        sv_at(line, i)
    } else {
        sv_match_from(line, i + 1)
    }
}

/// The state variable a line declares, if any.
pub open spec fn line_sv(line: Seq<char>) -> Option<SvCaps> {
    sv_match_from(line, 0)
}

/// Owned captures of one state-variable declaration.
pub struct SvCaptures {
    pub type_text: String,
    pub visibility: String,
    pub is_constant: bool,
    pub is_immutable: bool,
    pub name: String,
    pub init: Option<String>,
}

pub open spec fn sv_caps_match(c: SvCaptures, g: SvCaps) -> bool {
    &&& c.type_text@ == g.type_text
    &&& c.visibility@ == g.visibility
    &&& c.is_constant == g.is_constant
    &&& c.is_immutable == g.is_immutable
    &&& c.name@ == g.name
    &&& match g.init {
        Some(v) => c.init matches Some(cv) && cv@ == v,
        None => c.init is None,
    }
}

/// End of the run of `[]` pairs beginning at `i`.
fn brackets_end_exec(line: &str, i: usize) -> (r: usize)
    requires
        i <= line@.len(),
    ensures
        r == brackets_end(line@, i as int),
        i <= r <= line@.len(),
{
    let len = line.unicode_len();
    let mut j: usize = i;
    while j < len && j + 1 < len && line.get_char(j) == '[' && line.get_char(j + 1) == ']'
        invariant
            i <= j <= len,
            len == line@.len(),
            brackets_end(line@, i as int) == brackets_end(line@, j as int),
        decreases len - j,
    {
        j = j + 2;
    }
    j
}

/// The name-and-initializer tail of a declaration.
fn sv_name_init_exec(line: &str, j: usize) -> (r: Option<(String, Option<String>)>)
    requires
        j <= line@.len(),
    ensures
        match r {
            Some((name, init)) => sv_name_init(line@, j as int) matches Some((gn, gi))
                && name@ == gn && match gi {
                Some(v) => init matches Some(iv) && iv@ == v,
                None => init is None,
            },
            None => sv_name_init(line@, j as int) is None,
        },
{
    proof {
        lemma_word_end_from(line@, j as int);
    }
    let ne = word_end(line, j);
    let len = line.unicode_len();
    if ne <= j {
        return None;
    }
    if ne < len && line.get_char(ne) == ';' {
        return Some((String::from_str(line.substring_char(j, ne)), None));
    }
    proof {
        lemma_skip_ws_from(line@, ne as int);
    }
    let k = skip_ws(line, ne);
    if k < len && line.get_char(k) == '=' {
        proof {
            lemma_skip_ws_from(line@, k + 1);
        }
        let v0 = skip_ws(line, k + 1);
        proof {
            lemma_find_char_from(line@, v0 as int, ';');
        }
        let ve = find_char(line, v0, ';');
        if ve < len && ve > v0 {
            Some(
                (
                    String::from_str(line.substring_char(j, ne)),
                    Some(String::from_str(line.substring_char(v0, ve))),
                ),
            )
        } else {
            None
        }
    } else {
        None
    }
}

/// End of a state-variable type keyword at `i`.
fn type_kw_end_exec(line: &str, i: usize) -> (r: usize)
    requires
        i <= line@.len(),
    ensures
        r == type_kw_end(line@, i as int),
        i <= r <= line@.len(),
{
    let _len: usize = line.unicode_len();
    proof {
        reveal_strlit("uint");
        reveal_strlit("int");
        reveal_strlit("string");
        reveal_strlit("bool");
        reveal_strlit("bytes");
        reveal_strlit("address");
        reveal_strlit("mapping");
    }
    if match_at(line, "uint", i) {
        i + 4
    } else if match_at(line, "int", i) {
        i + 3
    } else if match_at(line, "string", i) {
        i + 6
    } else if match_at(line, "bool", i) {
        i + 4
    } else if match_at(line, "bytes", i) {
        i + 5
    } else if match_at(line, "address", i) {
        i + 7
    } else if match_at(line, "mapping", i) {
        i + 7
    } else {
        i
    }
}

/// End of a state-variable visibility keyword at `i`.
fn sv_vis_end_exec(line: &str, i: usize) -> (r: usize)
    requires
        i <= line@.len(),
    ensures
        r == sv_vis_end(line@, i as int),
        i <= r <= line@.len(),
{
    let _len: usize = line.unicode_len();
    proof {
        reveal_strlit("public");
        reveal_strlit("private");
        reveal_strlit("internal");
    }
    if match_at(line, "public", i) {
        i + 6
    } else if match_at(line, "private", i) {
        i + 7
    } else if match_at(line, "internal", i) {
        i + 8
    } else {
        i
    }
}

/// End of a `constant` or `immutable` qualifier at `i`.
fn sv_qual_end_exec(line: &str, i: usize) -> (r: usize)
    requires
        i <= line@.len(),
    ensures
        r == sv_qual_end(line@, i as int),
        i <= r <= line@.len(),
{
    let _len: usize = line.unicode_len();
    proof {
        reveal_strlit("constant");
        reveal_strlit("immutable");
    }
    if match_at(line, "constant", i) {
        i + 8
    } else if match_at(line, "immutable", i) {
        i + 9
    } else {
        i
    }
}

/// Match the state-variable grammar at one position.
fn try_sv_at(line: &str, i: usize) -> (r: Option<SvCaptures>)
    requires
        i <= line@.len(),
    ensures
        match r {
            Some(c) => sv_at(line@, i as int) matches Some(g) && sv_caps_match(c, g),
            None => sv_at(line@, i as int) is None,
        },
{
    proof {
        reveal_strlit("constant");
    }
    let te = type_kw_end_exec(line, i);
    if te <= i {
        return None;
    }
    proof {
        lemma_word_end_from(line@, te as int);
    }
    let we = word_end(line, te);
    let be = brackets_end_exec(line, we);
    let type_text = String::from_str(line.substring_char(i, be));
    proof {
        lemma_skip_ws_from(line@, be as int);
    }
    let j1 = skip_ws(line, be);
    if j1 <= be {
        return None;
    }
    let ghost tt = line@.subrange(i as int, be as int);
    let vend = sv_vis_end_exec(line, j1);
    if vend > j1 {
        proof {
            lemma_skip_ws_from(line@, vend as int);
        }
        let j2 = skip_ws(line, vend);
        let qend = sv_qual_end_exec(line, j2);
        if qend > j2 {
            proof {
                lemma_skip_ws_from(line@, qend as int);
            }
            let j3 = skip_ws(line, qend);
            if let Some((name, init)) = sv_name_init_exec(line, j3) {
                let is_constant = match_at(line, "constant", j2);
                return Some(
                    SvCaptures {
                        type_text,
                        visibility: String::from_str(line.substring_char(j1, vend)),
                        is_constant,
                        is_immutable: !is_constant,
                        name,
                        init,
                    },
                );
            }
        }
        if let Some((name, init)) = sv_name_init_exec(line, j2) {
            return Some(
                SvCaptures {
                    type_text,
                    visibility: String::from_str(line.substring_char(j1, vend)),
                    is_constant: false,
                    is_immutable: false,
                    name,
                    init,
                },
            );
        }
    }
    let qend0 = sv_qual_end_exec(line, j1);
    if qend0 > j1 {
        proof {
            lemma_skip_ws_from(line@, qend0 as int);
        }
        let j3 = skip_ws(line, qend0);
        if let Some((name, init)) = sv_name_init_exec(line, j3) {
            let is_constant = match_at(line, "constant", j1);
            return Some(
                SvCaptures {
                    type_text,
                    visibility: String::from_str("internal"),
                    is_constant,
                    is_immutable: !is_constant,
                    name,
                    init,
                },
            );
        }
    }
    if let Some((name, init)) = sv_name_init_exec(line, j1) {
        return Some(
            SvCaptures {
                type_text,
                visibility: String::from_str("internal"),
                is_constant: false,
                is_immutable: false,
                name,
                init,
            },
        );
    }
    None
}

/// Find the leftmost state-variable declaration in a line.
pub fn match_sv(line: &str) -> (r: Option<SvCaptures>)
    ensures
        match r {
            Some(c) => line_sv(line@) matches Some(g) && sv_caps_match(c, g),
            None => line_sv(line@) is None,
        },
{
    let len = line.unicode_len();
    let mut i: usize = 0;
    while i < len
        invariant
            i <= len,
            len == line@.len(),
            sv_match_from(line@, 0) == sv_match_from(line@, i as int),
        decreases len - i,
    {
        match try_sv_at(line, i) {
            Some(c) => {
                return Some(c);
            },
            None => {
                i = i + 1;
            },
        }
    }
    None
}

/// Spec-level captures of one modifier header.
pub ghost struct ModHeader {
    pub name: Seq<char>,
    pub params: Seq<char>,
}

/// The modifier grammar, matched at position `i` of one line:
/// `modifier`, whitespace, a name, a parenthesised parameter list and an
/// opening brace.
pub open spec fn mod_header_at(line: Seq<char>, i: int) -> Option<ModHeader> {
    if !matches_at(line, "modifier"@, i) {
        None
    } else {
        let j1 = skip_ws_from(line, i + 8);
        let j2 = word_end_from(line, j1);
        if j1 <= i + 8 || j2 <= j1 {
            None
        } else {
            let j3 = skip_ws_from(line, j2);
            if j3 >= line.len() || line[j3] != '(' {
                None
            } else {
                let j4 = find_char_from(line, j3 + 1, ')');
                if j4 >= line.len() {
                    None
                } else {
                    let j5 = skip_ws_from(line, j4 + 1);
                    if j5 < line.len() && line[j5] == '{' {
                        Some(
                            ModHeader {
                                name: line.subrange(j1, j2),
                                params: line.subrange(j3 + 1, j4),
                            },
                        )
                    } else {
                        None
                    }
                }
            }
        }
    }
}

pub open spec fn mod_match_from(line: Seq<char>, i: int) -> Option<ModHeader>
    decreases line.len() - i when 0 <= i <= line.len()
{
    if i >= line.len() {
        None
    } else if mod_header_at(line, i) is Some {
        mod_header_at(line, i)
    } else {
        mod_match_from(line, i + 1)
    }
}

/// The modifier a line declares, if any.
pub open spec fn line_mod_header(line: Seq<char>) -> Option<ModHeader> {
    mod_match_from(line, 0)
}

/// Owned captures of one modifier header.
pub struct ModCaptures {
    pub name: String,
    pub params: String,
}

pub open spec fn mod_caps_match(c: ModCaptures, h: ModHeader) -> bool {
    c.name@ == h.name && c.params@ == h.params
}

fn try_mod_header_at(line: &str, i: usize) -> (r: Option<ModCaptures>)
    requires
        i <= line@.len(),
    ensures
        match r {
            Some(c) => mod_header_at(line@, i as int) matches Some(h) && mod_caps_match(c, h),
            None => mod_header_at(line@, i as int) is None,
        },
{
    let _len: usize = line.unicode_len();
    proof {
        reveal_strlit("modifier");
    }
    if !match_at(line, "modifier", i) {
        return None;
    }
    proof {
        lemma_skip_ws_from(line@, i + 8);
    }
    let j1 = skip_ws(line, i + 8);
    proof {
        lemma_word_end_from(line@, j1 as int);
    }
    let j2 = word_end(line, j1);
    if j1 <= i + 8 || j2 <= j1 {
        return None;
    }
    proof {
        lemma_skip_ws_from(line@, j2 as int);
    }
    let j3 = skip_ws(line, j2);
    let len = line.unicode_len();
    if j3 >= len || line.get_char(j3) != '(' {
        return None;
    }
    proof {
        lemma_find_char_from(line@, j3 + 1, ')');
    }
    let j4 = find_char(line, j3 + 1, ')');
    if j4 >= len {
        return None;
    }
    proof {
        lemma_skip_ws_from(line@, j4 + 1);
    }
    let j5 = skip_ws(line, j4 + 1);
    if j5 < len && line.get_char(j5) == '{' {
        Some(
            ModCaptures {
                name: String::from_str(line.substring_char(j1, j2)),
                params: String::from_str(line.substring_char(j3 + 1, j4)),
            },
        )
    } else {
        None
    }
}

/// Find the leftmost modifier declared in a line.
pub fn match_mod_header(line: &str) -> (r: Option<ModCaptures>)
    ensures
        match r {
            Some(c) => line_mod_header(line@) matches Some(h) && mod_caps_match(c, h),
            None => line_mod_header(line@) is None,
        },
{
    let len = line.unicode_len();
    let mut i: usize = 0;
    while i < len
        invariant
            i <= len,
            len == line@.len(),
            mod_match_from(line@, 0) == mod_match_from(line@, i as int),
        decreases len - i,
    {
        match try_mod_header_at(line, i) {
            Some(c) => {
                return Some(c);
            },
            None => {
                i = i + 1;
            },
        }
    }
    None
}

/// Spec-level captures of one event declaration.
pub ghost struct EvHeader {
    pub name: Seq<char>,
    pub params: Seq<char>,
    pub anonymous: bool,
}

/// The event grammar, matched at position `i` of one line: `event`,
/// whitespace, a name, a parenthesised parameter list, an optional
/// `anonymous` keyword and a closing semicolon.
pub open spec fn ev_header_at(line: Seq<char>, i: int) -> Option<EvHeader> {
    if !matches_at(line, "event"@, i) {
        None
    } else {
        let j1 = skip_ws_from(line, i + 5);
        let j2 = word_end_from(line, j1);
        if j1 <= i + 5 || j2 <= j1 {
            None
        } else {
            let j3 = skip_ws_from(line, j2);
            if j3 >= line.len() || line[j3] != '(' {
                None
            } else {
                let j4 = find_char_from(line, j3 + 1, ')');
                if j4 >= line.len() {
                    None
                } else {
                    let k = skip_ws_from(line, j4 + 1);
                    if matches_at(line, "anonymous"@, k) && k + 9 < line.len() && line[k + 9]
                        == ';' {
                        Some(
                            EvHeader {
                                name: line.subrange(j1, j2),
                                params: line.subrange(j3 + 1, j4),
                                anonymous: true,
                            },
                        )
                    } else if k < line.len() && line[k] == ';' {
                        Some(
                            EvHeader {
                                name: line.subrange(j1, j2),
                                params: line.subrange(j3 + 1, j4),
                                anonymous: false,
                            },
                        )
                    } else {
                        None
                    }
                }
            }
        }
    }
}

pub open spec fn ev_match_from(line: Seq<char>, i: int) -> Option<EvHeader>
    decreases line.len() - i when 0 <= i <= line.len()
{
    if i >= line.len() {
        None
    } else if ev_header_at(line, i) is Some {
        ev_header_at(line, i)
    } else {
        ev_match_from(line, i + 1)
    }
}

/// The event a line declares, if any.
pub open spec fn line_ev_header(line: Seq<char>) -> Option<EvHeader> {
    ev_match_from(line, 0)
}

/// Owned captures of one event declaration.
pub struct EvCaptures {
    pub name: String,
    pub params: String,
    pub anonymous: bool,
}

pub open spec fn ev_caps_match(c: EvCaptures, h: EvHeader) -> bool {
    c.name@ == h.name && c.params@ == h.params && c.anonymous == h.anonymous
}

fn try_ev_header_at(line: &str, i: usize) -> (r: Option<EvCaptures>)
    requires
        i <= line@.len(),
    ensures
        match r {
            Some(c) => ev_header_at(line@, i as int) matches Some(h) && ev_caps_match(c, h),
            None => ev_header_at(line@, i as int) is None,
        },
{
    let _len: usize = line.unicode_len();
    proof {
        reveal_strlit("event");
        reveal_strlit("anonymous");
    }
    if !match_at(line, "event", i) {
        return None;
    }
    proof {
        lemma_skip_ws_from(line@, i + 5);
    }
    let j1 = skip_ws(line, i + 5);
    proof {
        lemma_word_end_from(line@, j1 as int);
    }
    let j2 = word_end(line, j1);
    if j1 <= i + 5 || j2 <= j1 {
        return None;
    }
    proof {
        lemma_skip_ws_from(line@, j2 as int);
    }
    let j3 = skip_ws(line, j2);
    let len = line.unicode_len();
    if j3 >= len || line.get_char(j3) != '(' {
        return None;
    }
    proof {
        lemma_find_char_from(line@, j3 + 1, ')');
    }
    let j4 = find_char(line, j3 + 1, ')');
    if j4 >= len {
        return None;
    }
    proof {
        lemma_skip_ws_from(line@, j4 + 1);
    }
    let k = skip_ws(line, j4 + 1);
    if match_at(line, "anonymous", k) && k + 9 < len && line.get_char(k + 9) == ';' {
        Some(
            EvCaptures {
                name: String::from_str(line.substring_char(j1, j2)),
                params: String::from_str(line.substring_char(j3 + 1, j4)),
                anonymous: true,
            },
        )
    } else if k < len && line.get_char(k) == ';' {
        Some(
            EvCaptures {
                name: String::from_str(line.substring_char(j1, j2)),
                params: String::from_str(line.substring_char(j3 + 1, j4)),
                anonymous: false,
            },
        )
    } else {
        None
    }
}

/// Find the leftmost event declared in a line.
pub fn match_ev_header(line: &str) -> (r: Option<EvCaptures>)
    ensures
        match r {
            Some(c) => line_ev_header(line@) matches Some(h) && ev_caps_match(c, h),
            None => line_ev_header(line@) is None,
        },
{
    let len = line.unicode_len();
    let mut i: usize = 0;
    while i < len
        invariant
            i <= len,
            len == line@.len(),
            ev_match_from(line@, 0) == ev_match_from(line@, i as int),
        decreases len - i,
    {
        match try_ev_header_at(line, i) {
            Some(c) => {
                return Some(c);
            },
            None => {
                i = i + 1;
            },
        }
    }
    None
}


/// Spec-level captures of one parameter.
pub ghost struct ParamG {
    pub type_text: Seq<char>,
    pub name: Seq<char>,
    pub indexed: bool,
}

/// The next comma at parenthesis depth zero, at or after `i`, or the end
/// of the text.
pub open spec fn next_top_comma(s: Seq<char>, i: int, depth: int) -> int
    recommends
        0 <= i <= s.len(),
    decreases s.len() - i when 0 <= i <= s.len()
{
    if i >= s.len() {
        s.len() as int
    } else if s[i] == ',' && depth == 0 {
        i
    } else if s[i] == '(' {
        next_top_comma(s, i + 1, depth + 1)
    } else if s[i] == ')' {
        next_top_comma(s, i + 1, if depth > 0 {
            depth - 1
        } else {
            0
        })
    } else {
        next_top_comma(s, i + 1, depth)
    }
}

pub proof fn lemma_next_top_comma(s: Seq<char>, i: int, depth: int)
    requires
        0 <= i <= s.len(),
    ensures
        i <= next_top_comma(s, i, depth) <= s.len(),
    decreases s.len() - i,
{
    if i < s.len() && !(s[i] == ',' && depth == 0) {
        if s[i] == '(' {
            lemma_next_top_comma(s, i + 1, depth + 1);
        } else if s[i] == ')' {
            lemma_next_top_comma(
                s,
                i + 1,
                if depth > 0 {
                    depth - 1
                } else {
                    0
                },
            );
        } else {
            lemma_next_top_comma(s, i + 1, depth);
        }
    }
}

/// The parameter one comma-separated token yields: its first two
/// whitespace-separated parts as type and name, skipped when fewer than
/// two parts are present, with `indexed` set when the word occurs
/// anywhere in the token.
pub open spec fn param_of_token(seg: Seq<char>) -> Option<ParamG> {
    let t0s = skip_ws_from(seg, 0);
    let t0e = nonws_end_from(seg, t0s);
    let t1s = skip_ws_from(seg, t0e);
    let t1e = nonws_end_from(seg, t1s);
    if t1e > t1s {
        Some(
            ParamG {
                type_text: seg.subrange(t0s, t0e),
                name: seg.subrange(t1s, t1e),
                indexed: contains_seq(seg, "indexed"@),
            },
        )
    } else {
        None
    }
}

/// The parameters of the token list from position `i` onward.
pub open spec fn params_from(s: Seq<char>, i: int) -> Seq<ParamG>
    recommends
        0 <= i <= s.len(),
    decreases s.len() - i + 1 when 0 <= i <= s.len()
{
    let e = next_top_comma(s, i, 0);
    let e2 = if i <= e && e <= s.len() {
        e
    } else {
        s.len() as int
    };
    let first = match param_of_token(s.subrange(i, e2)) {
        Some(g) => seq![g],
        None => Seq::<ParamG>::empty(),
    };
    if e2 >= s.len() {
        first
    } else {
        first + params_from(s, e2 + 1)
    }
}

/// The parameters a parameter-list text describes.
pub open spec fn params_of(s: Seq<char>) -> Seq<ParamG> {
    params_from(s, 0)
}

/// The extracted parameter records realise the spec-level list.
pub open spec fn param_list_matches(ps: Seq<crate::model::Parameter>, gs: Seq<ParamG>) -> bool {
    ps.len() == gs.len() && forall|k: int|
        0 <= k < ps.len() ==> {
            &&& (#[trigger] ps[k]).type_text@ == gs[k].type_text
            &&& ps[k].name@ == gs[k].name
            &&& ps[k].indexed == gs[k].indexed
        }
}

proof fn lemma_param_push(
    ps: Seq<crate::model::Parameter>,
    gs: Seq<ParamG>,
    p: crate::model::Parameter,
    g: ParamG,
)
    requires
        param_list_matches(ps, gs),
        p.type_text@ == g.type_text,
        p.name@ == g.name,
        p.indexed == g.indexed,
    ensures
        param_list_matches(ps.push(p), gs.push(g)),
{
    assert forall|k: int| 0 <= k < ps.push(p).len() implies {
        &&& (#[trigger] ps.push(p)[k]).type_text@ == gs.push(g)[k].type_text
        &&& ps.push(p)[k].name@ == gs.push(g)[k].name
        &&& ps.push(p)[k].indexed == gs.push(g)[k].indexed
    } by {
        if k < ps.len() {
            assert(ps.push(p)[k] == ps[k]);
            assert(gs.push(g)[k] == gs[k]);
        } else {
            assert(ps.push(p)[k] == p);
            assert(gs.push(g)[k] == g);
        }
    }
}

/// The next comma at parenthesis depth zero, at or after `i`.
fn next_top_comma_exec(s: &str, i: usize) -> (r: usize)
    requires
        i <= s@.len(),
    ensures
        r == next_top_comma(s@, i as int, 0),
        i <= r <= s@.len(),
{
    let len = s.unicode_len();
    let mut j: usize = i;
    let mut depth: usize = 0;
    while j < len
        invariant
            i <= j <= len,
            len == s@.len(),
            depth <= j,
            next_top_comma(s@, i as int, 0) == next_top_comma(s@, j as int, depth as int),
        decreases len - j,
    {
        let c = s.get_char(j);
        if c == ',' && depth == 0 {
            return j;
        }
        if c == '(' {
            depth = depth + 1;
        } else if c == ')' {
            if depth > 0 {
                depth = depth - 1;
            }
        }
        j = j + 1;
    }
    len
}

/// Parse a parameter-list text: split on top-level commas, take the
/// first two whitespace-separated parts of each token as type and name,
/// and silently drop tokens with fewer than two parts.
pub fn parse_parameters(params: &str) -> (r: Vec<crate::model::Parameter>)
    ensures
        param_list_matches(r@, params_of(params@)),
{
    let len = params.unicode_len();
    let mut out: Vec<crate::model::Parameter> = Vec::new();
    let ghost mut acc: Seq<ParamG> = Seq::empty();
    let mut i: usize = 0;
    loop
        invariant_except_break
            i <= len,
            len == params@.len(),
            param_list_matches(out@, acc),
            params_of(params@) == acc + params_from(params@, i as int),
        ensures
            param_list_matches(out@, params_of(params@)),
        decreases len - i + 1,
    {
        let e = next_top_comma_exec(params, i);
        let seg = params.substring_char(i, e);
        let ghost gseg = params@.subrange(i as int, e as int);
        let a = skip_ws(seg, 0);
        proof {
            lemma_skip_ws_from(seg@, 0);
        }
        let b = nonws_end(seg, a);
        proof {
            lemma_nonws_end_from(seg@, a as int);
        }
        let c = skip_ws(seg, b);
        proof {
            lemma_skip_ws_from(seg@, b as int);
        }
        let d = nonws_end(seg, c);
        proof {
            lemma_nonws_end_from(seg@, c as int);
        }
        let ghost prev_acc = acc;
        if d > c {
            let p = crate::model::Parameter {
                name: String::from_str(seg.substring_char(c, d)),
                type_text: String::from_str(seg.substring_char(a, b)),
                indexed: contains_sub(seg, "indexed"),
            };
            proof {
                let g = param_of_token(gseg).unwrap();
                lemma_param_push(out@, acc, p, g);
                acc = acc.push(g);
            }
            out.push(p);
        }
        proof {
            match param_of_token(gseg) {
                Some(g) => {
                    assert(acc =~= prev_acc.push(g));
                    assert(prev_acc + (seq![g] + params_from(params@, e + 1)) =~= acc
                        + params_from(params@, e + 1));
                    assert(prev_acc + seq![g] =~= acc);
                },
                None => {
                },
            }
        }
        if e >= len {
            proof {
                match param_of_token(gseg) {
                    Some(g) => {
                        assert(params_of(params@) =~= prev_acc + seq![g]);
                    },
                    None => {
                        assert(params_of(params@) =~= acc);
                    },
                }
            }
            break;
        }
        i = e + 1;
    }
    out
}

/// An `import "path"` or `import 'path'` occurrence at `i`: the captured
/// path and the position just past the closing quote.
pub open spec fn import_at(s: Seq<char>, i: int) -> Option<(Seq<char>, int)> {
    if !matches_at(s, "import"@, i) {
        None
    } else {
        let j = skip_ws_from(s, i + 6);
        if j <= i + 6 {
            None
        } else if j < s.len() && s[j] == '"' {
            let e = find_char_from(s, j + 1, '"');
            if e < s.len() && e > j + 1 {
                Some((s.subrange(j + 1, e), e + 1))
            } else {
                None
            }
        } else if j < s.len() && s[j] == '\'' {
            let e = find_char_from(s, j + 1, '\'');
            if e < s.len() && e > j + 1 {
                Some((s.subrange(j + 1, e), e + 1))
            } else {
                None
            }
        } else {
            None
        }
    }
}

/// All import paths in the text from `i` onward, leftmost first, each
/// scan resuming past the previous match.
pub open spec fn imports_from(s: Seq<char>, i: int) -> Seq<Seq<char>>
    recommends
        0 <= i <= s.len(),
    decreases s.len() - i when 0 <= i <= s.len()
{
    if i >= s.len() {
        Seq::empty()
    } else {
        match import_at(s, i) {
            Some((p, e)) => seq![p] + imports_from(
                s,
                if i < e <= s.len() {
                    e
                } else {
                    i + 1
                },
            ),
            None => imports_from(s, i + 1),
        }
    }
}

/// Match an import occurrence at one position.
fn try_import_at(src: &str, i: usize) -> (r: Option<(String, usize)>)
    requires
        i <= src@.len(),
    ensures
        match r {
            Some((p, e)) => import_at(src@, i as int) matches Some((gp, ge)) && p@ == gp && e
                == ge && i < e <= src@.len(),
            None => import_at(src@, i as int) is None,
        },
{
    let len = src.unicode_len();
    proof {
        reveal_strlit("import");
    }
    if !match_at(src, "import", i) {
        return None;
    }
    proof {
        lemma_skip_ws_from(src@, i + 6);
    }
    let j = skip_ws(src, i + 6);
    if j <= i + 6 {
        return None;
    }
    if j < len && src.get_char(j) == '"' {
        proof {
            lemma_find_char_from(src@, j + 1, '"');
        }
        let e = find_char(src, j + 1, '"');
        if e < len && e > j + 1 {
            return Some((String::from_str(src.substring_char(j + 1, e)), e + 1));
        }
        return None;
    }
    if j < len && src.get_char(j) == '\'' {
        proof {
            lemma_find_char_from(src@, j + 1, '\'');
        }
        let e = find_char(src, j + 1, '\'');
        if e < len && e > j + 1 {
            return Some((String::from_str(src.substring_char(j + 1, e)), e + 1));
        }
        return None;
    }
    None
}

/// Extract every quoted import target, anywhere in the text.
pub fn extract_imports(src: &str) -> (r: Vec<String>)
    ensures
        views_of(r@) == imports_from(src@, 0),
{
    let len = src.unicode_len();
    let mut out: Vec<String> = Vec::new();
    let mut i: usize = 0;
    proof {
        assert(views_of(out@) + imports_from(src@, 0) =~= imports_from(src@, 0));
    }
    while i < len
        invariant
            i <= len,
            len == src@.len(),
            imports_from(src@, 0) =~= views_of(out@) + imports_from(src@, i as int),
        decreases len - i,
    {
        let ghost old_out = views_of(out@);
        match try_import_at(src, i) {
            Some((p, e)) => {
                let ghost pv = p@;
                out.push(p);
                proof {
                    assert(views_of(out@) =~= old_out + seq![pv]);
                }
                i = e;
            },
            None => {
                i = i + 1;
            },
        }
    }
    proof {
        assert(imports_from(src@, i as int) =~= Seq::<Seq<char>>::empty());
        assert(views_of(out@) + Seq::<Seq<char>>::empty() =~= views_of(out@));
    }
    out
}

/// A `pragma ...;` occurrence at `i`: the captured directive text and
/// the position just past the semicolon.
pub open spec fn pragma_at(s: Seq<char>, i: int) -> Option<(Seq<char>, int)> {
    if !matches_at(s, "pragma"@, i) {
        None
    } else {
        let j = skip_ws_from(s, i + 6);
        if j <= i + 6 {
            None
        } else {
            let e = find_char_from(s, j, ';');
            if e < s.len() && e > j {
                Some((s.subrange(j, e), e + 1))
            } else {
                None
            }
        }
    }
}

/// All pragma directives in the text from `i` onward.
pub open spec fn pragmas_from(s: Seq<char>, i: int) -> Seq<Seq<char>>
    recommends
        0 <= i <= s.len(),
    decreases s.len() - i when 0 <= i <= s.len()
{
    if i >= s.len() {
        Seq::empty()
    } else {
        match pragma_at(s, i) {
            Some((p, e)) => seq![p] + pragmas_from(
                s,
                if i < e <= s.len() {
                    e
                } else {
                    i + 1
                },
            ),
            None => pragmas_from(s, i + 1),
        }
    }
}

fn try_pragma_at(src: &str, i: usize) -> (r: Option<(String, usize)>)
    requires
        i <= src@.len(),
    ensures
        match r {
            Some((p, e)) => pragma_at(src@, i as int) matches Some((gp, ge)) && p@ == gp && e
                == ge && i < e <= src@.len(),
            None => pragma_at(src@, i as int) is None,
        },
{
    let len = src.unicode_len();
    proof {
        reveal_strlit("pragma");
    }
    if !match_at(src, "pragma", i) {
        return None;
    }
    proof {
        lemma_skip_ws_from(src@, i + 6);
    }
    let j = skip_ws(src, i + 6);
    if j <= i + 6 {
        return None;
    }
    proof {
        lemma_find_char_from(src@, j as int, ';');
    }
    let e = find_char(src, j, ';');
    if e < len && e > j {
        Some((String::from_str(src.substring_char(j, e)), e + 1))
    } else {
        None
    }
}

/// Extract every pragma directive, anywhere in the text.
pub fn extract_pragma_directives(src: &str) -> (r: Vec<String>)
    ensures
        views_of(r@) == pragmas_from(src@, 0),
{
    let len = src.unicode_len();
    let mut out: Vec<String> = Vec::new();
    let mut i: usize = 0;
    proof {
        assert(views_of(out@) + pragmas_from(src@, 0) =~= pragmas_from(src@, 0));
    }
    while i < len
        invariant
            i <= len,
            len == src@.len(),
            pragmas_from(src@, 0) =~= views_of(out@) + pragmas_from(src@, i as int),
        decreases len - i,
    {
        let ghost old_out = views_of(out@);
        match try_pragma_at(src, i) {
            Some((p, e)) => {
                let ghost pv = p@;
                out.push(p);
                proof {
                    assert(views_of(out@) =~= old_out + seq![pv]);
                }
                i = e;
            },
            None => {
                i = i + 1;
            },
        }
    }
    proof {
        assert(pragmas_from(src@, i as int) =~= Seq::<Seq<char>>::empty());
        assert(views_of(out@) + Seq::<Seq<char>>::empty() =~= views_of(out@));
    }
    out
}

/// First position at or after `i` holding a carriage return or newline.
pub open spec fn crlf_end_from(h: Seq<char>, i: int) -> int
    recommends
        0 <= i <= h.len(),
    decreases h.len() - i when 0 <= i <= h.len()
{
    if i >= h.len() {
        h.len() as int
    } else if h[i] == '\r' || h[i] == '\n' {
        i
    } else {
        crlf_end_from(h, i + 1)
    }
}

fn crlf_end(s: &str, i: usize) -> (r: usize)
    requires
        i <= s@.len(),
    ensures
        r == crlf_end_from(s@, i as int),
        i <= r <= s@.len(),
{
    let len = s.unicode_len();
    let mut j: usize = i;
    while j < len && s.get_char(j) != '\r' && s.get_char(j) != '\n'
        invariant
            i <= j <= len,
            len == s@.len(),
            crlf_end_from(s@, i as int) == crlf_end_from(s@, j as int),
        decreases len - j,
    {
        j = j + 1;
    }
    j
}

/// An SPDX license comment at `i`: the trimmed license text.
pub open spec fn license_at(s: Seq<char>, i: int) -> Option<Seq<char>> {
    if !matches_at(s, "//"@, i) {
        None
    } else {
        let j = skip_ws_from(s, i + 2);
        if !matches_at(s, "SPDX-License-Identifier:"@, j) {
            None
        } else {
            let k = skip_ws_from(s, j + 24);
            let e = crlf_end_from(s, k);
            if e > k {
                Some(trim_of(s.subrange(k, e)))
            } else {
                None
            }
        }
    }
}

/// The first SPDX license comment in the text from `i` onward.
pub open spec fn license_from(s: Seq<char>, i: int) -> Option<Seq<char>>
    recommends
        0 <= i <= s.len(),
    decreases s.len() - i when 0 <= i <= s.len()
{
    if i >= s.len() {
        None
    } else if license_at(s, i) is Some {
        license_at(s, i)
    } else {
        license_from(s, i + 1)
    }
}

fn try_license_at(src: &str, i: usize) -> (r: Option<String>)
    requires
        i <= src@.len(),
    ensures
        match r {
            Some(t) => license_at(src@, i as int) matches Some(g) && t@ == g,
            None => license_at(src@, i as int) is None,
        },
{
    let _len: usize = src.unicode_len();
    proof {
        reveal_strlit("//");
        reveal_strlit("SPDX-License-Identifier:");
    }
    if !match_at(src, "//", i) {
        return None;
    }
    proof {
        lemma_skip_ws_from(src@, i + 2);
    }
    let j = skip_ws(src, i + 2);
    if !match_at(src, "SPDX-License-Identifier:", j) {
        return None;
    }
    proof {
        lemma_skip_ws_from(src@, j + 24);
    }
    let k = skip_ws(src, j + 24);
    let e = crlf_end(src, k);
    if e > k {
        Some(String::from_str(trim_str(src.substring_char(k, e))))
    } else {
        None
    }
}

/// Extract the first SPDX license identifier, if any.
pub fn extract_license(src: &str) -> (r: Option<String>)
    ensures
        match r {
            Some(t) => license_from(src@, 0) matches Some(g) && t@ == g,
            None => license_from(src@, 0) is None,
        },
{
    let len = src.unicode_len();
    let mut i: usize = 0;
    while i < len
        invariant
            i <= len,
            len == src@.len(),
            license_from(src@, 0) == license_from(src@, i as int),
        decreases len - i,
    {
        match try_license_at(src, i) {
            Some(t) => {
                return Some(t);
            },
            None => {
                i = i + 1;
            },
        }
    }
    None
}

/// The comma-separated, trimmed, non-empty parent names of one
/// inheritance capture, from `i` onward.
pub open spec fn parents_of(cap: Seq<char>, i: int) -> Seq<Seq<char>>
    recommends
        0 <= i <= cap.len(),
    decreases cap.len() - i + 1 when 0 <= i <= cap.len()
{
    let e = find_char_from(cap, i, ',');
    let e2 = if i <= e && e <= cap.len() {
        e
    } else {
        cap.len() as int
    };
    let t = trim_of(cap.subrange(i, e2));
    let first = if t.len() > 0 {
        seq![t]
    } else {
        Seq::<Seq<char>>::empty()
    };
    if e2 >= cap.len() {
        first
    } else {
        first + parents_of(cap, e2 + 1)
    }
}

/// A `contract <name> is <parents> {` occurrence at `i`: the raw parent
/// text and the position just past the opening brace.
pub open spec fn inherit_at(s: Seq<char>, i: int) -> Option<(Seq<char>, int)> {
    if !matches_at(s, "contract"@, i) {
        None
    } else {
        let j1 = skip_ws_from(s, i + 8);
        let j2 = word_end_from(s, j1);
        if j1 <= i + 8 || j2 <= j1 {
            None
        } else {
            let j3 = skip_ws_from(s, j2);
            if j3 <= j2 || !matches_at(s, "is"@, j3) {
                None
            } else {
                let j4 = skip_ws_from(s, j3 + 2);
                if j4 <= j3 + 2 {
                    None
                } else {
                    let e = find_char_from(s, j4, '{');
                    if e < s.len() && e > j4 {
                        Some((s.subrange(j4, e), e + 1))
                    } else {
                        None
                    }
                }
            }
        }
    }
}

/// All flattened parent names in the text from `i` onward.
pub open spec fn inheritance_from(s: Seq<char>, i: int) -> Seq<Seq<char>>
    recommends
        0 <= i <= s.len(),
    decreases s.len() - i when 0 <= i <= s.len()
{
    if i >= s.len() {
        Seq::empty()
    } else {
        match inherit_at(s, i) {
            Some((cap, e)) => parents_of(cap, 0) + inheritance_from(
                s,
                if i < e <= s.len() {
                    e
                } else {
                    i + 1
                },
            ),
            None => inheritance_from(s, i + 1),
        }
    }
}

fn try_inherit_at(src: &str, i: usize) -> (r: Option<(usize, usize, usize)>)
    requires
        i <= src@.len(),
    ensures
        match r {
            Some((lo, hi, e)) => inherit_at(src@, i as int) matches Some((cap, ge)) && cap
                == src@.subrange(lo as int, hi as int) && ge == e && lo <= hi <= src@.len() && i
                < e <= src@.len(),
            None => inherit_at(src@, i as int) is None,
        },
{
    let len = src.unicode_len();
    proof {
        reveal_strlit("contract");
        reveal_strlit("is");
    }
    if !match_at(src, "contract", i) {
        return None;
    }
    proof {
        lemma_skip_ws_from(src@, i + 8);
    }
    let j1 = skip_ws(src, i + 8);
    proof {
        lemma_word_end_from(src@, j1 as int);
    }
    let j2 = word_end(src, j1);
    if j1 <= i + 8 || j2 <= j1 {
        return None;
    }
    proof {
        lemma_skip_ws_from(src@, j2 as int);
    }
    let j3 = skip_ws(src, j2);
    if j3 <= j2 || !match_at(src, "is", j3) {
        return None;
    }
    proof {
        lemma_skip_ws_from(src@, j3 + 2);
    }
    let j4 = skip_ws(src, j3 + 2);
    if j4 <= j3 + 2 {
        return None;
    }
    proof {
        lemma_find_char_from(src@, j4 as int, '{');
    }
    let e = find_char(src, j4, '{');
    if e < len && e > j4 {
        Some((j4, e, e + 1))
    } else {
        None
    }
}

/// Split one inheritance capture into trimmed, non-empty parent names.
fn split_parents(src: &str, lo: usize, hi: usize, out: &mut Vec<String>)
    requires
        lo <= hi <= src@.len(),
    ensures
        views_of(final(out)@) =~= views_of(old(out)@) + parents_of(
            src@.subrange(lo as int, hi as int),
            0,
        ),
{
    let cap = src.substring_char(lo, hi);
    let ghost gcap = src@.subrange(lo as int, hi as int);
    let caplen = cap.unicode_len();
    let mut i: usize = 0;
    let ghost base = views_of(out@);
    loop
        invariant_except_break
            i <= caplen,
            caplen == gcap.len(),
            cap@ == gcap,
            views_of(out@) + parents_of(gcap, i as int) =~= base + parents_of(gcap, 0),
        ensures
            views_of(out@) =~= base + parents_of(gcap, 0),
        decreases caplen - i + 1,
    {
        proof {
            lemma_find_char_from(gcap, i as int, ',');
        }
        let e = find_char(cap, i, ',');
        let t = trim_str(cap.substring_char(i, e));
        let ghost old_out = views_of(out@);
        let tlen = t.unicode_len();
        if tlen > 0 {
            let ghost tv = t@;
            out.push(String::from_str(t));
            proof {
                assert(views_of(out@) =~= old_out + seq![tv]);
            }
        }
        if e >= caplen {
            proof {
                assert(parents_of(gcap, i as int) == if trim_of(
                    gcap.subrange(i as int, e as int),
                ).len() > 0 {
                    seq![trim_of(gcap.subrange(i as int, e as int))]
                } else {
                    Seq::<Seq<char>>::empty()
                });
                assert(views_of(out@) =~= base + parents_of(gcap, 0));
            }
            break;
        }
        i = e + 1;
    }
}

/// Extract every flattened parent name from `is` clauses, anywhere in
/// the text.
pub fn extract_inheritance(src: &str) -> (r: Vec<String>)
    ensures
        views_of(r@) == inheritance_from(src@, 0),
{
    let len = src.unicode_len();
    let mut out: Vec<String> = Vec::new();
    let mut i: usize = 0;
    proof {
        assert(views_of(out@) + inheritance_from(src@, 0) =~= inheritance_from(src@, 0));
    }
    while i < len
        invariant
            i <= len,
            len == src@.len(),
            inheritance_from(src@, 0) =~= views_of(out@) + inheritance_from(src@, i as int),
        decreases len - i,
    {
        match try_inherit_at(src, i) {
            Some((lo, hi, e)) => {
                split_parents(src, lo, hi, &mut out);
                i = e;
            },
            None => {
                i = i + 1;
            },
        }
    }
    proof {
        assert(inheritance_from(src@, i as int) =~= Seq::<Seq<char>>::empty());
        assert(views_of(out@) + Seq::<Seq<char>>::empty() =~= views_of(out@));
    }
    out
}


/// The function headers found in the first `n` lines, with their line
/// indices, in order.
pub open spec fn fn_records_upto(lines: Seq<Seq<char>>, n: int) -> Seq<(int, FnHeader)>
    decreases n when n >= 0
{
    if n <= 0 {
        Seq::empty()
    } else {
        let p = fn_records_upto(lines, n - 1);
        match line_fn_header(lines[n - 1]) {
            Some(h) => p.push((n - 1, h)),
            None => p,
        }
    }
}

/// One extracted function record realises one header match: captures,
/// 1-based line number pointing at the header line, and the body
/// extracted by brace counting from that line.
pub open spec fn fn_info_matches(
    f: crate::model::FunctionInfo,
    li: int,
    h: FnHeader,
    lines: Seq<Seq<char>>,
) -> bool {
    &&& f.name@ == h.name
    &&& f.visibility@ == h.visibility
    &&& f.state_mutability@ == h.mutability
    &&& param_list_matches(f.parameters@, params_of(h.params))
    &&& param_list_matches(f.return_parameters@, params_of(h.returns_params))
    &&& f.modifiers@.len() == 0
    &&& f.line_number == li + 1
    &&& f.body@ == spec_body(lines, li)
    &&& f.is_constructor == (h.name == "constructor"@)
    &&& f.is_fallback == (h.name == "fallback"@)
    &&& f.is_receive == (h.name == "receive"@)
}

/// The extracted function list realises exactly the header matches: one
/// record per declaring line, in line order.
pub open spec fn functions_match(
    fs: Seq<crate::model::FunctionInfo>,
    recs: Seq<(int, FnHeader)>,
    lines: Seq<Seq<char>>,
) -> bool {
    fs.len() == recs.len() && forall|k: int|
        0 <= k < fs.len() ==> fn_info_matches(#[trigger] fs[k], recs[k].0, recs[k].1, lines)
}

proof fn lemma_functions_push(
    fs: Seq<crate::model::FunctionInfo>,
    recs: Seq<(int, FnHeader)>,
    f: crate::model::FunctionInfo,
    li: int,
    h: FnHeader,
    lines: Seq<Seq<char>>,
)
    requires
        functions_match(fs, recs, lines),
        fn_info_matches(f, li, h, lines),
    ensures
        functions_match(fs.push(f), recs.push((li, h)), lines),
{
    assert forall|k: int| 0 <= k < fs.push(f).len() implies fn_info_matches(
        #[trigger] fs.push(f)[k],
        recs.push((li, h))[k].0,
        recs.push((li, h))[k].1,
        lines,
    ) by {
        if k < fs.len() {
            assert(fs.push(f)[k] == fs[k]);
            assert(recs.push((li, h))[k] == recs[k]);
        } else {
            assert(fs.push(f)[k] == f);
            assert(recs.push((li, h))[k] == (li, h));
        }
    }
}

/// The state-variable declarations found in the first `n` lines.
pub open spec fn sv_records_upto(lines: Seq<Seq<char>>, n: int) -> Seq<(int, SvCaps)>
    decreases n when n >= 0
{
    if n <= 0 {
        Seq::empty()
    } else {
        let p = sv_records_upto(lines, n - 1);
        match line_sv(lines[n - 1]) {
            Some(g) => p.push((n - 1, g)),
            None => p,
        }
    }
}

pub open spec fn sv_info_matches(v: crate::model::StateVariable, li: int, g: SvCaps) -> bool {
    &&& v.name@ == g.name
    &&& v.type_text@ == g.type_text
    &&& v.visibility@ == g.visibility
    &&& v.is_constant == g.is_constant
    &&& v.is_immutable == g.is_immutable
    &&& match g.init {
        Some(iv) => v.initial_value matches Some(x) && x@ == iv,
        None => v.initial_value is None,
    }
    &&& v.line_number == li + 1
}

pub open spec fn state_vars_match(
    vs: Seq<crate::model::StateVariable>,
    recs: Seq<(int, SvCaps)>,
) -> bool {
    vs.len() == recs.len() && forall|k: int|
        0 <= k < vs.len() ==> sv_info_matches(#[trigger] vs[k], recs[k].0, recs[k].1)
}

proof fn lemma_svs_push(
    vs: Seq<crate::model::StateVariable>,
    recs: Seq<(int, SvCaps)>,
    v: crate::model::StateVariable,
    li: int,
    g: SvCaps,
)
    requires
        state_vars_match(vs, recs),
        sv_info_matches(v, li, g),
    ensures
        state_vars_match(vs.push(v), recs.push((li, g))),
{
    assert forall|k: int| 0 <= k < vs.push(v).len() implies sv_info_matches(
        #[trigger] vs.push(v)[k],
        recs.push((li, g))[k].0,
        recs.push((li, g))[k].1,
    ) by {
        if k < vs.len() {
            assert(vs.push(v)[k] == vs[k]);
            assert(recs.push((li, g))[k] == recs[k]);
        } else {
            assert(vs.push(v)[k] == v);
            assert(recs.push((li, g))[k] == (li, g));
        }
    }
}

/// The modifier declarations found in the first `n` lines.
pub open spec fn mod_records_upto(lines: Seq<Seq<char>>, n: int) -> Seq<(int, ModHeader)>
    decreases n when n >= 0
{
    if n <= 0 {
        Seq::empty()
    } else {
        let p = mod_records_upto(lines, n - 1);
        match line_mod_header(lines[n - 1]) {
            Some(h) => p.push((n - 1, h)),
            None => p,
        }
    }
}

pub open spec fn mod_info_matches(
    m: crate::model::ModifierInfo,
    li: int,
    h: ModHeader,
    lines: Seq<Seq<char>>,
) -> bool {
    &&& m.name@ == h.name
    &&& param_list_matches(m.parameters@, params_of(h.params))
    &&& m.body@ == spec_body(lines, li)
    &&& m.line_number == li + 1
}

pub open spec fn modifiers_match(
    ms: Seq<crate::model::ModifierInfo>,
    recs: Seq<(int, ModHeader)>,
    lines: Seq<Seq<char>>,
) -> bool {
    ms.len() == recs.len() && forall|k: int|
        0 <= k < ms.len() ==> mod_info_matches(#[trigger] ms[k], recs[k].0, recs[k].1, lines)
}

proof fn lemma_mods_push(
    ms: Seq<crate::model::ModifierInfo>,
    recs: Seq<(int, ModHeader)>,
    m: crate::model::ModifierInfo,
    li: int,
    h: ModHeader,
    lines: Seq<Seq<char>>,
)
    requires
        modifiers_match(ms, recs, lines),
        mod_info_matches(m, li, h, lines),
    ensures
        modifiers_match(ms.push(m), recs.push((li, h)), lines),
{
    assert forall|k: int| 0 <= k < ms.push(m).len() implies mod_info_matches(
        #[trigger] ms.push(m)[k],
        recs.push((li, h))[k].0,
        recs.push((li, h))[k].1,
        lines,
    ) by {
        if k < ms.len() {
            assert(ms.push(m)[k] == ms[k]);
            assert(recs.push((li, h))[k] == recs[k]);
        } else {
            assert(ms.push(m)[k] == m);
            assert(recs.push((li, h))[k] == (li, h));
        }
    }
}

/// The event declarations found in the first `n` lines.
pub open spec fn ev_records_upto(lines: Seq<Seq<char>>, n: int) -> Seq<(int, EvHeader)>
    decreases n when n >= 0
{
    if n <= 0 {
        Seq::empty()
    } else {
        let p = ev_records_upto(lines, n - 1);
        match line_ev_header(lines[n - 1]) {
            Some(h) => p.push((n - 1, h)),
            None => p,
        }
    }
}

pub open spec fn ev_info_matches(e: crate::model::EventInfo, li: int, h: EvHeader) -> bool {
    &&& e.name@ == h.name
    &&& param_list_matches(e.parameters@, params_of(h.params))
    &&& e.anonymous == h.anonymous
    &&& e.line_number == li + 1
}

pub open spec fn events_match(
    es: Seq<crate::model::EventInfo>,
    recs: Seq<(int, EvHeader)>,
) -> bool {
    es.len() == recs.len() && forall|k: int|
        0 <= k < es.len() ==> ev_info_matches(#[trigger] es[k], recs[k].0, recs[k].1)
}

proof fn lemma_evs_push(
    es: Seq<crate::model::EventInfo>,
    recs: Seq<(int, EvHeader)>,
    e: crate::model::EventInfo,
    li: int,
    h: EvHeader,
)
    requires
        events_match(es, recs),
        ev_info_matches(e, li, h),
    ensures
        events_match(es.push(e), recs.push((li, h))),
{
    assert forall|k: int| 0 <= k < es.push(e).len() implies ev_info_matches(
        #[trigger] es.push(e)[k],
        recs.push((li, h))[k].0,
        recs.push((li, h))[k].1,
    ) by {
        if k < es.len() {
            assert(es.push(e)[k] == es[k]);
            assert(recs.push((li, h))[k] == recs[k]);
        } else {
            assert(es.push(e)[k] == e);
            assert(recs.push((li, h))[k] == (li, h));
        }
    }
}

/// The parsed contract realises every extraction contract for the given
/// raw unit: each entity list matches exactly what the corresponding
/// matcher finds in the unit's source text.
pub open spec fn parsed_contract_ok(
    pc: crate::model::ParsedContract,
    info: crate::model::ContractInfo,
) -> bool {
    let src = info.source_code@;
    let lines = lines_of(src);
    &&& pc.name@ == info.name@
    &&& pc.source_code@ == src
    &&& pc.compiler_version@ == info.compiler_version@
    &&& pc.metadata@ == info.metadata@
    &&& functions_match(pc.functions@, fn_records_upto(lines, lines.len() as int), lines)
    &&& state_vars_match(pc.state_variables@, sv_records_upto(lines, lines.len() as int))
    &&& modifiers_match(pc.modifiers@, mod_records_upto(lines, lines.len() as int), lines)
    &&& events_match(pc.events@, ev_records_upto(lines, lines.len() as int))
    &&& views_of(pc.imports@) == imports_from(src, 0)
    &&& views_of(pc.inheritance@) == inheritance_from(src, 0)
    &&& views_of(pc.pragma_directives@) == pragmas_from(src, 0)
    &&& match license_from(src, 0) {
        Some(g) => pc.license matches Some(l) && l@ == g,
        None => pc.license is None,
    }
}

/// The structural parser.  It holds no state: every grammar lives in the
/// spec-level matchers its methods are proved against.
pub struct ContractParser {}

impl ContractParser {
    /// Create a new contract parser.
    pub fn new() -> (r: Self) {
        ContractParser {  }
    }

    /// Extract every function declaration, line by line.  For any source
    /// whose lines hold `N` declarations of the header grammar, exactly
    /// `N` records come back, each with `line_number` pointing at its
    /// header line.
    pub fn extract_functions(&self, lines: &Vec<String>) -> (r: Vec<crate::model::FunctionInfo>)
        requires
            sum_lens(views_of(lines@)) <= usize::MAX,
        ensures
            functions_match(
                r@,
                fn_records_upto(views_of(lines@), lines@.len() as int),
                views_of(lines@),
            ),
    {
        let ghost vs = views_of(lines@);
        let mut out: Vec<crate::model::FunctionInfo> = Vec::new();
        let mut li: usize = 0;
        while li < lines.len()
            invariant
                li <= lines@.len(),
                vs == views_of(lines@),
                sum_lens(vs) <= usize::MAX,
                functions_match(out@, fn_records_upto(vs, li as int), vs),
            decreases lines@.len() - li,
        {
            proof {
                assert(vs[li as int] == lines@[li as int]@);
            }
            match match_fn_header(lines[li].as_str()) {
                Some(caps) => {
                    let ghost h = line_fn_header(vs[li as int]).unwrap();
                    let body = extract_function_body(lines, li);
                    let parameters = parse_parameters(caps.params.as_str());
                    let return_parameters = parse_parameters(caps.returns_params.as_str());
                    let is_constructor = crate::text::str_eq(caps.name.as_str(), "constructor");
                    let is_fallback = crate::text::str_eq(caps.name.as_str(), "fallback");
                    let is_receive = crate::text::str_eq(caps.name.as_str(), "receive");
                    let f = crate::model::FunctionInfo {
                        name: caps.name,
                        visibility: caps.visibility,
                        state_mutability: caps.mutability,
                        parameters,
                        return_parameters,
                        modifiers: Vec::new(),
                        line_number: li + 1,
                        body,
                        is_constructor,
                        is_fallback,
                        is_receive,
                    };
                    proof {
                        lemma_functions_push(
                            out@,
                            fn_records_upto(vs, li as int),
                            f,
                            li as int,
                            h,
                            vs,
                        );
                    }
                    out.push(f);
                },
                None => {
                },
            }
            li = li + 1;
        }
        out
    }

    /// Extract every state-variable declaration, line by line.
    pub fn extract_state_variables(&self, lines: &Vec<String>) -> (r: Vec<
        crate::model::StateVariable,
    >)
        ensures
            state_vars_match(r@, sv_records_upto(views_of(lines@), lines@.len() as int)),
    {
        let ghost vs = views_of(lines@);
        let mut out: Vec<crate::model::StateVariable> = Vec::new();
        let mut li: usize = 0;
        while li < lines.len()
            invariant
                li <= lines@.len(),
                vs == views_of(lines@),
                state_vars_match(out@, sv_records_upto(vs, li as int)),
            decreases lines@.len() - li,
        {
            proof {
                assert(vs[li as int] == lines@[li as int]@);
            }
            match match_sv(lines[li].as_str()) {
                Some(caps) => {
                    let ghost g = line_sv(vs[li as int]).unwrap();
                    let v = crate::model::StateVariable {
                        name: caps.name,
                        type_text: caps.type_text,
                        visibility: caps.visibility,
                        is_constant: caps.is_constant,
                        is_immutable: caps.is_immutable,
                        initial_value: caps.init,
                        line_number: li + 1,
                    };
                    proof {
                        lemma_svs_push(out@, sv_records_upto(vs, li as int), v, li as int, g);
                    }
                    out.push(v);
                },
                None => {
                },
            }
            li = li + 1;
        }
        out
    }

    /// Extract every modifier declaration, with bodies taken by the same
    /// brace counting as function bodies.
    pub fn extract_modifiers(&self, lines: &Vec<String>) -> (r: Vec<crate::model::ModifierInfo>)
        requires
            sum_lens(views_of(lines@)) <= usize::MAX,
        ensures
            modifiers_match(
                r@,
                mod_records_upto(views_of(lines@), lines@.len() as int),
                views_of(lines@),
            ),
    {
        let ghost vs = views_of(lines@);
        let mut out: Vec<crate::model::ModifierInfo> = Vec::new();
        let mut li: usize = 0;
        while li < lines.len()
            invariant
                li <= lines@.len(),
                vs == views_of(lines@),
                sum_lens(vs) <= usize::MAX,
                modifiers_match(out@, mod_records_upto(vs, li as int), vs),
            decreases lines@.len() - li,
        {
            proof {
                assert(vs[li as int] == lines@[li as int]@);
            }
            match match_mod_header(lines[li].as_str()) {
                Some(caps) => {
                    let ghost h = line_mod_header(vs[li as int]).unwrap();
                    let body = extract_function_body(lines, li);
                    let parameters = parse_parameters(caps.params.as_str());
                    let m = crate::model::ModifierInfo {
                        name: caps.name,
                        parameters,
                        body,
                        line_number: li + 1,
                    };
                    proof {
                        lemma_mods_push(out@, mod_records_upto(vs, li as int), m, li as int, h, vs);
                    }
                    out.push(m);
                },
                None => {
                },
            }
            li = li + 1;
        }
        out
    }

    /// Extract every event declaration, line by line.
    pub fn extract_events(&self, lines: &Vec<String>) -> (r: Vec<crate::model::EventInfo>)
        ensures
            events_match(r@, ev_records_upto(views_of(lines@), lines@.len() as int)),
    {
        let ghost vs = views_of(lines@);
        let mut out: Vec<crate::model::EventInfo> = Vec::new();
        let mut li: usize = 0;
        while li < lines.len()
            invariant
                li <= lines@.len(),
                vs == views_of(lines@),
                events_match(out@, ev_records_upto(vs, li as int)),
            decreases lines@.len() - li,
        {
            proof {
                assert(vs[li as int] == lines@[li as int]@);
            }
            match match_ev_header(lines[li].as_str()) {
                Some(caps) => {
                    let ghost h = line_ev_header(vs[li as int]).unwrap();
                    let parameters = parse_parameters(caps.params.as_str());
                    let e = crate::model::EventInfo {
                        name: caps.name,
                        parameters,
                        anonymous: caps.anonymous,
                        line_number: li + 1,
                    };
                    proof {
                        lemma_evs_push(out@, ev_records_upto(vs, li as int), e, li as int, h);
                    }
                    out.push(e);
                },
                None => {
                },
            }
            li = li + 1;
        }
        out
    }

    /// Parse one raw contract unit into the contract model.  Parsing
    /// never fails on malformed contract text: absence of a match is not
    /// an error, it simply yields fewer extracted entities.
    pub fn parse_contract(&self, contract_info: &crate::model::ContractInfo) -> (r: Result<
        crate::model::ParsedContract,
        crate::errors::AnalysisError,
    >)
        ensures
            (r matches Ok(pc) && parsed_contract_ok(pc, *contract_info)),
    {
        let src = contract_info.source_code.as_str();
        let _len: usize = src.unicode_len();
        let lines = split_lines(src);
        let functions = self.extract_functions(&lines);
        let state_variables = self.extract_state_variables(&lines);
        let modifiers = self.extract_modifiers(&lines);
        let events = self.extract_events(&lines);
        let imports = extract_imports(src);
        let pragma_directives = extract_pragma_directives(src);
        let license = extract_license(src);
        let inheritance = extract_inheritance(src);
        let metadata = clone_metadata(&contract_info.metadata);
        Ok(
            crate::model::ParsedContract {
                name: contract_info.name.clone(),
                source_code: contract_info.source_code.clone(),
                functions,
                state_variables,
                modifiers,
                events,
                imports,
                inheritance,
                compiler_version: contract_info.compiler_version.clone(),
                pragma_directives,
                license,
                metadata,
            },
        )
    }
}

/// Copy a metadata mapping, preserving its contents exactly.
fn clone_metadata(v: &Vec<(String, String)>) -> (r: Vec<(String, String)>)
    ensures
        r@ == v@,
{
    let mut out: Vec<(String, String)> = Vec::new();
    let mut i: usize = 0;
    while i < v.len()
        invariant
            i <= v@.len(),
            out@ =~= v@.subrange(0, i as int),
        decreases v@.len() - i,
    {
        let pair = (v[i].0.clone(), v[i].1.clone());
        proof {
            assert(pair == v@[i as int]);
        }
        out.push(pair);
        proof {
            assert(out@ =~= v@.subrange(0, i + 1));
        }
        i = i + 1;
    }
    proof {
        assert(v@.subrange(0, v@.len() as int) =~= v@);
    }
    out
}


/// The lines joined back into text, one newline after each.
pub open spec fn join_lines(ls: Seq<Seq<char>>) -> Seq<char>
    decreases ls.len(),
{
    if ls.len() == 0 {
        Seq::empty()
    } else {
        ls[0].push('\n') + join_lines(ls.drop_first())
    }
}

/// A line as produced by line splitting: free of newlines and not
/// carriage-return-terminated.
pub open spec fn plain_line(l: Seq<char>) -> bool {
    (forall|k: int| 0 <= k < l.len() ==> l[k] != '\n') && (l.len() == 0 || l.last() != '\r')
}

/// Splitting joined plain lines gives the lines back.
proof fn lemma_lines_of_join(ls: Seq<Seq<char>>)
    requires
        forall|j: int| 0 <= j < ls.len() ==> plain_line(#[trigger] ls[j]),
    ensures
        lines_of(join_lines(ls)) == ls,
    decreases ls.len(),
{
    if ls.len() > 0 {
        let s = join_lines(ls);
        let first = ls[0];
        let rest = join_lines(ls.drop_first());
        assert(s == first.push('\n') + rest);
        assert(s.len() == first.len() + 1 + rest.len());
        assert forall|k: int| 0 <= k < first.len() implies s[k] != '\n' by {
            assert(s[k] == first[k]);
        }
        assert(s[first.len() as int] == '\n');
        lemma_find_char_unique(s, 0, first.len() as int, '\n');
        let e = find_char_from(s, 0, '\n');
        assert(e == first.len());
        assert(s.subrange(0, e) =~= first);
        assert(strip_cr(first) == first);
        if e < s.len() {
            assert(s.subrange(e + 1, s.len() as int) =~= rest);
            assert forall|j: int| 0 <= j < ls.drop_first().len() implies plain_line(
                #[trigger] ls.drop_first()[j],
            ) by {
                assert(ls.drop_first()[j] == ls[j + 1]);
            }
            lemma_lines_of_join(ls.drop_first());
            assert(lines_of(s) =~= seq![first] + lines_of(rest));
            assert(seq![first] + ls.drop_first() =~= ls);
        } else {
            assert(rest.len() == 0);
            assert(ls.drop_first().len() == 0);
            assert(ls =~= seq![first]);
            assert(lines_of(s) =~= seq![strip_cr(s)]);
            assert(s =~= first.push('\n'));
            assert(false);
        }
    }
}

/// The line at which a scan that has already seen an opening brace stops:
/// the first line from `i` onward whose delta returns the running depth
/// to zero, or the end of the file.
pub open spec fn stop_line(lines: Seq<Seq<char>>, i: int, depth: int) -> int
    recommends
        0 <= i <= lines.len(),
    decreases lines.len() - i when 0 <= i <= lines.len()
{
    if i >= lines.len() {
        lines.len() as int
    } else if depth + brace_delta(lines[i]) == 0 {
        i
    } else {
        stop_line(lines, i + 1, depth + brace_delta(lines[i]))
    }
}

proof fn lemma_stop_line_bounds(lines: Seq<Seq<char>>, i: int, depth: int)
    requires
        0 <= i <= lines.len(),
    ensures
        i <= stop_line(lines, i, depth) <= lines.len(),
    decreases lines.len() - i,
{
    if i < lines.len() && depth + brace_delta(lines[i]) != 0 {
        lemma_stop_line_bounds(lines, i + 1, depth + brace_delta(lines[i]));
    }
}

/// A scan that has already seen an opening brace consumes exactly the
/// lines up to its stop line, and closes exactly when one exists.
proof fn lemma_body_rec_started(lines: Seq<Seq<char>>, i: int, depth: int)
    requires
        0 <= i <= lines.len(),
    ensures
        body_rec(lines, i, depth, true).closed <==> stop_line(lines, i, depth) < lines.len(),
        body_rec(lines, i, depth, true).text == join_lines(
            lines.subrange(
                i,
                if stop_line(lines, i, depth) < lines.len() {
                    stop_line(lines, i, depth) + 1
                } else {
                    lines.len() as int
                },
            ),
        ),
    decreases lines.len() - i,
{
    lemma_stop_line_bounds(lines, i, depth);
    if i >= lines.len() {
        assert(lines.subrange(i, i) =~= Seq::<Seq<char>>::empty());
    } else {
        let d = depth + brace_delta(lines[i]);
        if d == 0 {
            let window = lines.subrange(i, i + 1);
            assert(window.len() == 1);
            assert(window[0] == lines[i]);
            assert(window.drop_first() =~= Seq::<Seq<char>>::empty());
            assert(join_lines(window.drop_first()) =~= Seq::<char>::empty());
            assert(join_lines(window) == window[0].push('\n') + join_lines(window.drop_first()));
            assert(lines[i].push('\n') + Seq::<char>::empty() =~= lines[i].push('\n'));
        } else {
            lemma_body_rec_started(lines, i + 1, d);
            let sl = stop_line(lines, i + 1, d);
            let hi = if sl < lines.len() {
                sl + 1
            } else {
                lines.len() as int
            };
            assert(lines.subrange(i, hi).drop_first() =~= lines.subrange(i + 1, hi));
            assert(join_lines(lines.subrange(i, hi)) == lines[i].push('\n') + join_lines(
                lines.subrange(i + 1, hi),
            ));
        }
    }
}

/// Stop lines translate under taking a window of the line list.
proof fn lemma_stop_line_shift(lines: Seq<Seq<char>>, a: int, b: int, i: int, depth: int)
    requires
        0 <= a <= a + i <= b <= lines.len(),
    ensures
        stop_line(lines, a + i, depth) <= b - 1 ==> stop_line(
            lines.subrange(a, b),
            i,
            depth,
        ) == stop_line(lines, a + i, depth) - a,
        stop_line(lines, a + i, depth) > b - 1 ==> stop_line(lines.subrange(a, b), i, depth)
            >= b - a,
    decreases b - a - i,
{
    let window = lines.subrange(a, b);
    if a + i >= b {
        lemma_stop_line_bounds(lines, a + i, depth);
    } else {
        assert(window[i] == lines[a + i]);
        let d = depth + brace_delta(lines[a + i]);
        if d == 0 {
        } else {
            lemma_stop_line_shift(lines, a, b, i + 1, d);
        }
    }
}

/// Brace-counting body extraction is idempotent on well-formed input:
/// when no brace stands before the line that opens the body, the braces
/// balance so the scan closes, and the scanned lines are plain text
/// lines, then splitting the extracted body back into lines and
/// extracting again returns the body unchanged.
pub proof fn lemma_body_extraction_idempotent(lines: Seq<Seq<char>>, start: int, s: int)
    requires
        0 <= start <= s < lines.len(),
        forall|k: int| start <= k < s ==> count_char(#[trigger] lines[k], '{') == 0
            && count_char(lines[k], '}') == 0,
        has_open(lines[s]),
        body_rec(lines, start, 0, false).closed,
        forall|k: int| s <= k < lines.len() ==> plain_line(#[trigger] lines[k]),
    ensures
        body_rec(
            lines_of(body_rec(lines, start, 0, false).text),
            0,
            0,
            false,
        ).text == body_rec(lines, start, 0, false).text,
{
    lemma_body_skip_braceless_prefix(lines, start, s);
    let rec = body_rec(lines, start, 0, false);
    assert(rec == body_rec(lines, s, 0, false));
    // At line `s` an opening brace appears, so the scan is in its
    // started state from `s` onward, whatever that line's delta.
    let d = brace_delta(lines[s]);
    lemma_body_rec_started(lines, s + 1, d);
    lemma_stop_line_bounds(lines, s + 1, d);
    let e = if d == 0 {
        s
    } else {
        stop_line(lines, s + 1, d)
    };
    assert(e < lines.len());
    let window = lines.subrange(s, e + 1);
    assert(rec.text == join_lines(window)) by {
        if d == 0 {
            assert(window.len() == 1);
            assert(window[0] == lines[s]);
            assert(window.drop_first() =~= Seq::<Seq<char>>::empty());
            assert(join_lines(window.drop_first()) =~= Seq::<char>::empty());
            assert(join_lines(window) == window[0].push('\n') + join_lines(window.drop_first()));
            assert(lines[s].push('\n') + Seq::<char>::empty() =~= lines[s].push('\n'));
        } else {
            assert(window.drop_first() =~= lines.subrange(s + 1, e + 1));
            assert(join_lines(window) == lines[s].push('\n') + join_lines(
                lines.subrange(s + 1, e + 1),
            ));
        }
    }
    assert forall|j: int| 0 <= j < window.len() implies plain_line(#[trigger] window[j]) by {
        assert(window[j] == lines[s + j]);
    }
    lemma_lines_of_join(window);
    assert(lines_of(rec.text) == window);
    // The re-run starts on the opening line itself, so it is started
    // from its first line and stops exactly at the window's last line.
    let d0 = brace_delta(window[0]);
    assert(window[0] == lines[s]);
    assert(d0 == d);
    if d == 0 {
        assert(body_rec(window, 0, 0, false).text =~= window[0].push('\n'));
        assert(join_lines(window) =~= window[0].push('\n')) by {
            assert(window.drop_first() =~= Seq::<Seq<char>>::empty());
        }
    } else {
        lemma_body_rec_started(window, 1, d);
        lemma_stop_line_shift(lines, s, e + 1, 1, d);
        assert(stop_line(lines, s + 1, d) == e);
        assert(stop_line(window, 1, d) == e - s);
        assert(body_rec(window, 0, 0, false).text == window[0].push('\n') + body_rec(
            window,
            1,
            d,
            true,
        ).text);
        assert(body_rec(window, 1, d, true).text == join_lines(
            window.subrange(1, window.len() as int),
        ));
        assert(join_lines(window) == window[0].push('\n') + join_lines(
            window.subrange(1, window.len() as int),
        )) by {
            assert(window.drop_first() =~= window.subrange(1, window.len() as int));
        }
    }
}

/// Lines without braces contribute nothing: the scan passes over them
/// with its depth unchanged and its text empty.
proof fn lemma_body_skip_braceless_prefix(lines: Seq<Seq<char>>, start: int, s: int)
    requires
        0 <= start <= s <= lines.len(),
        forall|k: int| start <= k < s ==> count_char(#[trigger] lines[k], '{') == 0
            && count_char(lines[k], '}') == 0,
    ensures
        body_rec(lines, start, 0, false) == body_rec(lines, s, 0, false),
    decreases s - start,
{
    if start < s {
        assert(brace_delta(lines[start]) == 0);
        assert(!has_open(lines[start]));
        assert(body_rec(lines, start, 0, false).text =~= body_rec(lines, start + 1, 0, false).text);
        lemma_body_skip_braceless_prefix(lines, start + 1, s);
    }
}


/// On well-matched input the idempotence side conditions follow from the
/// brace structure itself: when the running depth from `start` never goes
/// negative, the lines before the first opening brace can hold no
/// closing brace either, so re-extraction of a closed body returns it
/// unchanged.  The lines must be plain text lines — newline-free and not
/// carriage-return-terminated — as line splitting produces them.
pub proof fn lemma_body_extraction_idempotent_matched(
    lines: Seq<Seq<char>>,
    start: int,
    s: int,
)
    requires
        0 <= start <= s < lines.len(),
        forall|k: int| start <= k < s ==> !has_open(#[trigger] lines[k]),
        has_open(lines[s]),
        forall|k: int| start <= k < s ==> depth_over(lines, start, k) >= 0,
        body_rec(lines, start, 0, false).closed,
        forall|k: int| s <= k < lines.len() ==> plain_line(#[trigger] lines[k]),
    ensures
        body_rec(
            lines_of(body_rec(lines, start, 0, false).text),
            0,
            0,
            false,
        ).text == body_rec(lines, start, 0, false).text,
{
    lemma_braceless_prefix_from_depth(lines, start, s);
    lemma_body_extraction_idempotent(lines, start, s);
}

/// Lines without an opening brace whose running depth never dips below
/// zero hold no closing brace either.
proof fn lemma_braceless_prefix_from_depth(lines: Seq<Seq<char>>, start: int, s: int)
    requires
        0 <= start <= s <= lines.len(),
        forall|k: int| start <= k < s ==> !has_open(#[trigger] lines[k]),
        forall|k: int| start <= k < s ==> depth_over(lines, start, k) >= 0,
    ensures
        forall|k: int| start <= k < s ==> count_char(#[trigger] lines[k], '{') == 0
            && count_char(lines[k], '}') == 0,
    decreases s - start,
{
    if start < s {
        assert forall|k: int| start <= k < s implies count_char(#[trigger] lines[k], '{') == 0
            && count_char(lines[k], '}') == 0 by {
            lemma_count_char_bounds(lines[k], '{');
            lemma_count_char_bounds(lines[k], '}');
            assert(count_char(lines[k], '{') == 0);
            lemma_depth_over_split(lines, start, k);
            if k > start {
                lemma_depth_over_split(lines, start, k - 1);
            }
            assert(depth_over(lines, start, k) == (if k > start {
                depth_over(lines, start, k - 1)
            } else {
                0int
            }) + brace_delta(lines[k]));
            lemma_prefix_depths_nonincreasing(lines, start, k);
        }
    }
}

/// The span delta through `e` is the delta through `e - 1` plus the
/// last line's own delta.
proof fn lemma_depth_over_split(lines: Seq<Seq<char>>, i: int, e: int)
    requires
        i <= e,
    ensures
        depth_over(lines, i, e) == (if e > i {
            depth_over(lines, i, e - 1)
        } else {
            0int
        }) + brace_delta(lines[e]),
    decreases e - i,
{
    if e > i {
        lemma_depth_over_split(lines, i + 1, e);
        assert(depth_over(lines, i, e) == brace_delta(lines[i]) + depth_over(lines, i + 1, e));
        assert(depth_over(lines, i, e - 1) == brace_delta(lines[i]) + depth_over(
            lines,
            i + 1,
            e - 1,
        ));
        if e == i + 1 {
            assert(depth_over(lines, i + 1, e - 1) == 0);
        }
    } else {
        assert(depth_over(lines, i, e) == brace_delta(lines[i]) + depth_over(lines, i + 1, e));
        assert(depth_over(lines, i + 1, e) == 0);
    }
}

/// Over a run of lines that open nothing, each line's delta is at most
/// zero, so a non-negative running depth forces every delta — and with
/// no opens, every close count — to zero.
proof fn lemma_prefix_depths_nonincreasing(lines: Seq<Seq<char>>, start: int, k: int)
    requires
        0 <= start <= k,
        forall|j: int| start <= j <= k ==> !has_open(#[trigger] lines[j]),
        forall|j: int| start <= j <= k ==> depth_over(lines, start, j) >= 0,
    ensures
        count_char(lines[k], '}') == 0,
    decreases k - start,
{
    lemma_count_char_bounds(lines[k], '{');
    lemma_count_char_bounds(lines[k], '}');
    lemma_depth_over_split(lines, start, k);
    if k == start {
        assert(depth_over(lines, start, k) == brace_delta(lines[k]));
    } else {
        lemma_prefix_depths_nonincreasing(lines, start, k - 1);
        lemma_nonopen_depth_bound(lines, start, k - 1);
    }
}

/// The running depth over open-free lines never exceeds zero.
proof fn lemma_nonopen_depth_bound(lines: Seq<Seq<char>>, start: int, k: int)
    requires
        0 <= start <= k,
        forall|j: int| start <= j <= k ==> !has_open(#[trigger] lines[j]),
    ensures
        depth_over(lines, start, k) <= 0,
    decreases k - start,
{
    lemma_count_char_bounds(lines[k], '{');
    lemma_count_char_bounds(lines[k], '}');
    lemma_depth_over_split(lines, start, k);
    if k > start {
        lemma_nonopen_depth_bound(lines, start, k - 1);
    }
}

} // verus!
