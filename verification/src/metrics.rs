//! Shared counting measures over source text: pattern occurrences, non-blank
//! lines, function and test-function counts.
use vstd::prelude::*;
use crate::text::{
    chars_of, count_occurrences, distinct_patterns, lemma_differ_at,
    lemma_total_occurrences_bound, occurrences, prefix_free, total_occurrences,
};

verus! {

/// Unicode `White_Space`, the property that `char::is_whitespace` and
/// `str::trim` go by.
pub open spec fn is_whitespace(c: char) -> bool {
    let u = c as u32;
    ||| 0x9 <= u <= 0xd
    ||| u == 0x20
    ||| u == 0x85
    ||| u == 0xa0
    ||| u == 0x1680
    ||| 0x2000 <= u <= 0x200a
    ||| u == 0x2028
    ||| u == 0x2029
    ||| u == 0x202f
    ||| u == 0x205f
    ||| u == 0x3000
}

/// Nothing but whitespace stands between the last line break before `i`
/// (or the start of the text) and position `i`.
pub open spec fn blank_so_far(s: Seq<char>, i: int) -> bool
    decreases i,
{
    if i <= 0 {
        true
    } else {
        s[i - 1] == '\n' || (is_whitespace(s[i - 1]) && blank_so_far(s, i - 1))
    }
}

/// Position `i` holds the first non-whitespace character of its line.
pub open spec fn line_head(s: Seq<char>, i: int) -> bool {
    !is_whitespace(s[i]) && blank_so_far(s, i)
}

/// Number of lines, among those that start in the first `n` characters,
/// whose first non-whitespace character lies before `n`.
pub open spec fn nonblank_lines_upto(s: Seq<char>, n: int) -> nat
    decreases n,
{
    if n <= 0 {
        0
    } else {
        nonblank_lines_upto(s, n - 1) + if line_head(s, n - 1) {
            1nat
        } else {
            0nat
        }
    }
}

/// Number of lines of `s` (separated by `'\n'`) that hold a non-whitespace
/// character.
pub open spec fn nonblank_lines(s: Seq<char>) -> nat {
    nonblank_lines_upto(s, s.len() as int)
}

/// Space, tab, carriage return, line feed, vertical tab and form feed are
/// whitespace.
pub proof fn law_ascii_whitespace()
    ensures
        is_whitespace(' ') && is_whitespace('\t') && is_whitespace('\r'),
        is_whitespace('\n') && is_whitespace('\u{b}') && is_whitespace('\u{c}'),
{
}

/// Whether `blank_so_far` looks at the same characters in `s` and `t`.
proof fn lemma_blank_prefix(s: Seq<char>, t: Seq<char>, i: int)
    requires
        0 <= i <= s.len(),
        i <= t.len(),
        s.subrange(0, i) == t.subrange(0, i),
    ensures
        blank_so_far(s, i) == blank_so_far(t, i),
    decreases i,
{
    if i > 0 {
        assert(s[i - 1] == s.subrange(0, i)[i - 1]);
        assert(t[i - 1] == t.subrange(0, i)[i - 1]);
        assert(s.subrange(0, i - 1) =~= s.subrange(0, i).subrange(0, i - 1));
        assert(t.subrange(0, i - 1) =~= t.subrange(0, i).subrange(0, i - 1));
        lemma_blank_prefix(s, t, i - 1);
    }
}

/// The count up to `n` depends on the first `n` characters only.
proof fn lemma_upto_prefix(s: Seq<char>, t: Seq<char>, n: int)
    requires
        0 <= n <= s.len(),
        n <= t.len(),
        s.subrange(0, n) == t.subrange(0, n),
    ensures
        nonblank_lines_upto(s, n) == nonblank_lines_upto(t, n),
    decreases n,
{
    if n > 0 {
        assert(s.subrange(0, n - 1) =~= s.subrange(0, n).subrange(0, n - 1));
        assert(t.subrange(0, n - 1) =~= t.subrange(0, n).subrange(0, n - 1));
        lemma_upto_prefix(s, t, n - 1);
        lemma_blank_prefix(s, t, n - 1);
        assert(s[n - 1] == s.subrange(0, n)[n - 1]);
        assert(t[n - 1] == t.subrange(0, n)[n - 1]);
    }
}

/// After a line break, `blank_so_far` starts afresh.
proof fn lemma_blank_after_break(a: Seq<char>, b: Seq<char>, i: int)
    requires
        a.len() == 0 || a.last() == '\n',
        0 <= i <= b.len(),
    ensures
        blank_so_far(a + b, a.len() + i) == blank_so_far(b, i),
    decreases i,
{
    if i > 0 {
        lemma_blank_after_break(a, b, i - 1);
        assert((a + b)[a.len() + i - 1] == b[i - 1]);
    } else if a.len() > 0 {
        assert((a + b)[a.len() - 1] == a.last());
    } else {
        assert(a + b =~= b);
    }
}

/// The count over `a + b` beyond `a`'s characters is the count over `b`.
proof fn lemma_upto_after_break(a: Seq<char>, b: Seq<char>, m: int)
    requires
        a.len() == 0 || a.last() == '\n',
        0 <= m <= b.len(),
    ensures
        nonblank_lines_upto(a + b, a.len() + m) == nonblank_lines_upto(a, a.len() as int)
            + nonblank_lines_upto(b, m),
    decreases m,
{
    if m > 0 {
        lemma_upto_after_break(a, b, m - 1);
        lemma_blank_after_break(a, b, m - 1);
        assert((a + b)[a.len() + m - 1] == b[m - 1]);
    } else {
        assert((a + b).subrange(0, a.len() as int) =~= a.subrange(0, a.len() as int));
        lemma_upto_prefix(a + b, a, a.len() as int);
    }
}

/// A text made only of whitespace has no line to count.
pub proof fn law_whitespace_text_has_no_lines(s: Seq<char>)
    requires
        forall|k: int| 0 <= k < s.len() ==> is_whitespace(#[trigger] s[k]),
    ensures
        nonblank_lines(s) == 0,
{
    assert forall|n: int| 0 <= n <= s.len() implies nonblank_lines_upto(s, n) == 0 by {
        lemma_whitespace_upto(s, n);
    }
}

proof fn lemma_whitespace_upto(s: Seq<char>, n: int)
    requires
        0 <= n <= s.len(),
        forall|k: int| 0 <= k < s.len() ==> is_whitespace(#[trigger] s[k]),
    ensures
        nonblank_lines_upto(s, n) == 0,
    decreases n,
{
    if n > 0 {
        lemma_whitespace_upto(s, n - 1);
        assert(is_whitespace(s[n - 1]));
    }
}

/// Within a text without line breaks, the characters before `i` are all
/// whitespace exactly when the scan is still blank at `i`.
proof fn lemma_blank_in_line(s: Seq<char>, i: int)
    requires
        0 <= i <= s.len(),
        forall|k: int| 0 <= k < s.len() ==> #[trigger] s[k] != '\n',
    ensures
        blank_so_far(s, i) <==> forall|k: int| 0 <= k < i ==> is_whitespace(#[trigger] s[k]),
    decreases i,
{
    if i > 0 {
        lemma_blank_in_line(s, i - 1);
        assert(s[i - 1] != '\n');
        if blank_so_far(s, i) {
            assert forall|k: int| 0 <= k < i implies is_whitespace(#[trigger] s[k]) by {
                if k < i - 1 {
                } else {
                }
            }
        }
    }
}

proof fn lemma_line_upto(s: Seq<char>, n: int)
    requires
        0 <= n <= s.len(),
        forall|k: int| 0 <= k < s.len() ==> #[trigger] s[k] != '\n',
    ensures
        nonblank_lines_upto(s, n) == if exists|k: int| 0 <= k < n && !is_whitespace(#[trigger] s[k]) {
            1nat
        } else {
            0nat
        },
    decreases n,
{
    if n > 0 {
        lemma_line_upto(s, n - 1);
        lemma_blank_in_line(s, n - 1);
        if exists|k: int| 0 <= k < n - 1 && !is_whitespace(#[trigger] s[k]) {
            let k = choose|k: int| 0 <= k < n - 1 && !is_whitespace(#[trigger] s[k]);
            assert(!blank_so_far(s, n - 1));
            assert(0 <= k < n && !is_whitespace(s[k]));
        } else {
            if !is_whitespace(s[n - 1]) {
                assert(0 <= n - 1 < n && !is_whitespace(s[n - 1]));
            } else {
                assert forall|k: int| 0 <= k < n implies is_whitespace(#[trigger] s[k]) by {
                    if k < n - 1 {
                        assert(!(0 <= k < n - 1 && !is_whitespace(s[k])));
                    }
                }
            }
        }
    }
}

/// A single line (no line break) counts once if it holds a non-whitespace
/// character, and not at all otherwise.
pub proof fn law_single_line(s: Seq<char>)
    requires
        forall|k: int| 0 <= k < s.len() ==> #[trigger] s[k] != '\n',
    ensures
        nonblank_lines(s) == if exists|k: int| 0 <= k < s.len() && !is_whitespace(#[trigger] s[k]) {
            1nat
        } else {
            0nat
        },
{
    lemma_line_upto(s, s.len() as int);
}

/// Lines add up: when `a` is empty or ends with a line break, the lines of
/// `a + b` are those of `a` followed by those of `b`.
pub proof fn law_lines_add(a: Seq<char>, b: Seq<char>)
    requires
        a.len() == 0 || a.last() == '\n',
    ensures
        nonblank_lines(a + b) == nonblank_lines(a) + nonblank_lines(b),
{
    lemma_upto_after_break(a, b, b.len() as int);
    assert((a + b).len() == a.len() + b.len());
}

/// Whitespace at the end of a text, a line break or a carriage return
/// among it, adds no line.
pub proof fn law_trailing_whitespace_not_counted(s: Seq<char>, c: char)
    requires
        is_whitespace(c),
    ensures
        nonblank_lines(s.push(c)) == nonblank_lines(s),
{
    assert(s.push(c).subrange(0, s.len() as int) =~= s.subrange(0, s.len() as int));
    lemma_upto_prefix(s.push(c), s, s.len() as int);
    assert(s.push(c)[s.len() as int] == c);
}

/// The patterns whose occurrences count as function definitions.
pub open spec fn function_marker() -> Seq<char> {
    "fn "@
}

/// The patterns whose occurrences count as test functions.
pub open spec fn test_markers() -> Seq<Seq<char>> {
    seq!["#[test]"@, "#[tokio::test]"@]
}

/// Whether `c` is whitespace.
pub fn is_whitespace_char(c: char) -> (b: bool)
    ensures
        b == is_whitespace(c),
{
    let u = c as u32;
    (0x9 <= u && u <= 0xd) || u == 0x20 || u == 0x85 || u == 0xa0 || u == 0x1680 || (0x2000 <= u
        && u <= 0x200a) || u == 0x2028 || u == 0x2029 || u == 0x202f || u == 0x205f || u == 0x3000
}

/// Number of non-overlapping occurrences of `pattern` in `code`; the empty
/// pattern matches between every two characters and at both ends.
pub fn count_pattern(code: &str, pattern: &str) -> (n: usize)
    requires
        pattern@.len() > 0 || code@.len() < usize::MAX,
    ensures
        n == occurrences(code@, pattern@),
{
    let t = chars_of(code);
    let p = chars_of(pattern);
    count_occurrences(&t, &p)
}

/// Sum of the occurrence counts of the pairwise prefix-free `patterns`.
pub fn count_all(code: &Vec<char>, patterns: &Vec<&str>) -> (n: usize)
    requires
        distinct_patterns(patterns@.map_values(|p: &str| p@)),
    ensures
        n == total_occurrences(code@, patterns@.map_values(|p: &str| p@)),
        n <= code@.len(),
{
    let ghost pats = patterns@.map_values(|p: &str| p@);
    proof {
        lemma_total_occurrences_bound(code@, pats);
        assert(pats.take(0) =~= Seq::<Seq<char>>::empty());
    }
    let mut n: usize = 0;
    let mut i: usize = 0;
    while i < patterns.len()
        invariant
            pats == patterns@.map_values(|p: &str| p@),
            distinct_patterns(pats),
            i <= patterns@.len(),
            n == total_occurrences(code@, pats.take(i as int)),
            total_occurrences(code@, pats) <= code@.len(),
        decreases patterns@.len() - i,
    {
        let p = chars_of(patterns[i]);
        proof {
            assert(pats.take(i + 1).drop_last() =~= pats.take(i as int));
            assert(pats.take(i + 1).last() == pats[i as int]);
            assert(pats[i as int].len() > 0);
            assert(distinct_patterns(pats.take(i + 1))) by {
                let q = pats.take(i + 1);
                assert forall|a: int, b: int|
                    0 <= a < q.len() && 0 <= b < q.len() && a != b implies prefix_free(
                    #[trigger] q[a],
                    #[trigger] q[b],
                ) by {
                    assert(q[a] == pats[a] && q[b] == pats[b]);
                }
            }
            lemma_total_occurrences_bound(code@, pats.take(i + 1));
        }
        let c = count_occurrences(code, &p);
        assert(n + c == total_occurrences(code@, pats.take(i + 1)));
        assert(n + c <= code.len());
        n = n + c;
        i = i + 1;
    }
    assert(pats.take(patterns@.len() as int) =~= pats);
    n
}

/// Number of lines of `code` that hold a non-whitespace character.
pub fn count_lines(code: &str) -> (n: usize)
    ensures
        n == nonblank_lines(code@),
{
    let s = chars_of(code);
    let mut n: usize = 0;
    let mut blank = true;
    let mut i: usize = 0;
    while i < s.len()
        invariant
            s@ == code@,
            i <= s@.len(),
            n <= i,
            n == nonblank_lines_upto(s@, i as int),
            blank == blank_so_far(s@, i as int),
        decreases s@.len() - i,
    {
        let c = s[i];
        let ws = is_whitespace_char(c);
        if !ws && blank {
            n = n + 1;
        }
        blank = c == '\n' || (ws && blank);
        i = i + 1;
    }
    n
}

/// Number of function definitions, counted as occurrences of `fn `.
pub fn count_functions(code: &str) -> (n: usize)
    ensures
        n == occurrences(code@, function_marker()),
{
    proof {
        reveal_strlit("fn ");
    }
    count_pattern(code, "fn ")
}

/// Number of test functions, counted as occurrences of `#[test]` plus those
/// of `#[tokio::test]`.
pub fn count_test_functions(code: &str) -> (n: usize)
    ensures
        n == total_occurrences(code@, test_markers()),
{
    let s = chars_of(code);
    let markers: Vec<&str> = vec!["#[test]", "#[tokio::test]"];
    proof {
        reveal_strlit("#[test]");
        reveal_strlit("#[tokio::test]");
        let pats = markers@.map_values(|p: &str| p@);
        assert(pats =~= test_markers());
        lemma_differ_at(pats[0], pats[1], 3);
    }
    count_all(&s, &markers)
}

} // verus!
