//! Nesting guard run over raw source bytes before any parser sees them:
//! deep nesting of `{`, `(` and `[` and long chains of unary operators are
//! refused. Other nesting, such as generic brackets, is not bounded here, so
//! a parse that must survive hostile text still runs in a separate process.
use vstd::prelude::*;
use vstd::string::*;
use crate::text::{decimal, decimal_text};

verus! {

/// Largest accepted depth of nested `{`, `(` and `[`.
pub const MAX_DELIMITER_DEPTH: usize = 128;

/// Largest accepted run of consecutive unary operators (`&`, `*`, `!`),
/// whitespace between them included.
pub const MAX_UNARY_CHAIN: usize = 64;

/// Why the guard refused a text.
#[derive(Debug, Clone, PartialEq, Eq, Structural)]
pub enum DepthError {
    /// Delimiter nesting went past `max`.
    DelimiterDepthExceeded { depth: usize, max: usize },
    /// A unary operator chain went past `max`.
    UnaryChainExceeded { count: usize, max: usize },
}

/// The message that reports a refusal.
pub open spec fn depth_error_text(e: DepthError) -> Seq<char> {
    match e {
        DepthError::DelimiterDepthExceeded { depth, max } => "Nesting depth "@ + decimal(
            depth as nat,
        ) + " exceeds safety limit of "@ + decimal(max as nat),
        DepthError::UnaryChainExceeded { count, max } => "Unary operator chain "@ + decimal(
            count as nat,
        ) + " exceeds safety limit of "@ + decimal(max as nat),
    }
}

impl DepthError {
    /// The message that reports this refusal.
    pub fn message(&self) -> (s: String)
        ensures
            s@ == depth_error_text(*self),
    {
        let (head, n, max) = match self {
            DepthError::DelimiterDepthExceeded { depth, max } => ("Nesting depth ", *depth, *max),
            DepthError::UnaryChainExceeded { count, max } => ("Unary operator chain ", *count, *max),
        };
        let mut s = String::from_str(head);
        let a = decimal_text(n);
        s.append(a.as_str());
        s.append(" exceeds safety limit of ");
        let b = decimal_text(max);
        s.append(b.as_str());
        s
    }
}

/// Where a `//` comment whose text begins at `j` ends: at the next `'\n'`
/// (which is then scanned normally) or at the end of the text.
pub open spec fn line_comment_end(b: Seq<u8>, j: int) -> int
    decreases b.len() - j,
{
    if j < 0 || j >= b.len() || b[j] == 10 {
        j
    } else {
        line_comment_end(b, j + 1)
    }
}

/// Where a `/* */` comment ends, with `d` comments still open at `j`;
/// nested `/*` open further comments and the scan stops when one byte is
/// left.
pub open spec fn block_comment_end(b: Seq<u8>, j: int, d: nat) -> int
    decreases b.len() - j,
{
    if j < 0 || !(j + 1 < b.len() && d > 0) {
        j
    } else if b[j] == 47 && b[j + 1] == 42 {
        block_comment_end(b, j + 2, d + 1)
    } else if b[j] == 42 && b[j + 1] == 47 {
        block_comment_end(b, j + 2, (d - 1) as nat)
    } else {
        block_comment_end(b, j + 1, d)
    }
}

/// The position two bytes on, or the end of the text if that is nearer.
pub open spec fn skip_two(b: Seq<u8>, j: int) -> int {
    if j + 2 <= b.len() {
        j + 2
    } else {
        b.len() as int
    }
}

/// Where a `"..."` literal whose contents begin at `j` ends: just past the
/// closing quote, skipping escaped bytes; or at the end of the text.
pub open spec fn string_end(b: Seq<u8>, j: int) -> int
    decreases b.len() - j,
{
    if j < 0 || j >= b.len() {
        j
    } else if b[j] == 92 {
        string_end(b, skip_two(b, j))
    } else if b[j] == 34 {
        j + 1
    } else {
        string_end(b, j + 1)
    }
}

/// Where a `'...'` literal whose contents begin at `j` ends: just past the
/// closing quote, skipping escaped bytes; at a `'\n'` or `;` (left to the
/// main scan, as a lifetime has no closing quote); or at the end of the text.
pub open spec fn char_end(b: Seq<u8>, j: int) -> int
    decreases b.len() - j,
{
    if j < 0 || j >= b.len() {
        j
    } else if b[j] == 92 {
        char_end(b, skip_two(b, j))
    } else if b[j] == 39 {
        j + 1
    } else if b[j] == 10 || b[j] == 59 {
        j
    } else {
        char_end(b, j + 1)
    }
}

/// Opening delimiter byte: `{`, `(` or `[`.
pub open spec fn is_open_delim(c: u8) -> bool {
    c == 123 || c == 40 || c == 91
}

/// Closing delimiter byte: `}`, `)` or `]`.
pub open spec fn is_close_delim(c: u8) -> bool {
    c == 125 || c == 41 || c == 93
}

/// Unary operator byte: `&`, `*` or `!`.
pub open spec fn is_unary_op(c: u8) -> bool {
    c == 38 || c == 42 || c == 33
}

/// Blank byte that neither breaks nor extends a unary chain.
pub open spec fn is_blank(c: u8) -> bool {
    c == 32 || c == 9 || c == 13 || c == 10
}

/// A `//` comment starts at `i`.
pub open spec fn line_comment_at(b: Seq<u8>, i: int) -> bool {
    b[i] == 47 && i + 1 < b.len() && b[i + 1] == 47
}

/// A `/*` comment starts at `i`.
pub open spec fn block_comment_at(b: Seq<u8>, i: int) -> bool {
    b[i] == 47 && i + 1 < b.len() && b[i + 1] == 42
}

/// Every skip moves forward and stays within the text.
pub proof fn lemma_skips_advance(b: Seq<u8>, j: int, d: nat)
    requires
        0 <= j <= b.len(),
    ensures
        j <= line_comment_end(b, j) <= b.len(),
        j <= block_comment_end(b, j, d) <= b.len(),
        j <= string_end(b, j) <= b.len(),
        j <= char_end(b, j) <= b.len(),
    decreases b.len() - j,
{
    if j < b.len() {
        lemma_skips_advance(b, j + 1, d);
        lemma_skips_advance(b, skip_two(b, j), d);
        if j + 2 <= b.len() {
            lemma_skips_advance(b, j + 2, d + 1);
            if d > 0 {
                lemma_skips_advance(b, j + 2, (d - 1) as nat);
            }
        }
    }
}

/// The verdict of the guard on `b` from position `i`, with `depth`
/// delimiters open and a unary chain of length `chain` running.
pub open spec fn scan(b: Seq<u8>, i: int, depth: nat, chain: nat) -> Result<(), DepthError>
    decreases b.len() - i,
{
    if i < 0 || i >= b.len() {
        Ok(())
    } else if line_comment_at(b, i) {
        proof {
            lemma_skips_advance(b, i + 2, 1);
        }
        scan(b, line_comment_end(b, i + 2), depth, chain)
    } else if block_comment_at(b, i) {
        proof {
            lemma_skips_advance(b, i + 2, 1);
        }
        scan(b, block_comment_end(b, i + 2, 1), depth, chain)
    } else if b[i] == 34 {
        proof {
            lemma_skips_advance(b, i + 1, 1);
        }
        scan(b, string_end(b, i + 1), depth, chain)
    } else if b[i] == 39 {
        proof {
            lemma_skips_advance(b, i + 1, 1);
        }
        scan(b, char_end(b, i + 1), depth, chain)
    } else if is_open_delim(b[i]) {
        if depth + 1 > MAX_DELIMITER_DEPTH {
            Err(
                DepthError::DelimiterDepthExceeded {
                    depth: (depth + 1) as usize,
                    max: MAX_DELIMITER_DEPTH,
                },
            )
        } else {
            scan(b, i + 1, depth + 1, 0)
        }
    } else if is_close_delim(b[i]) {
        scan(
            b,
            i + 1,
            if depth > 0 {
                (depth - 1) as nat
            } else {
                0
            },
            0,
        )
    } else if is_unary_op(b[i]) {
        if chain + 1 > MAX_UNARY_CHAIN {
            Err(DepthError::UnaryChainExceeded { count: (chain + 1) as usize, max: MAX_UNARY_CHAIN })
        } else {
            scan(b, i + 1, depth, chain + 1)
        }
    } else if is_blank(b[i]) {
        scan(b, i + 1, depth, chain)
    } else {
        scan(b, i + 1, depth, 0)
    }
}

/// A refusal always reports the first value past the limit, together with
/// the limit.
pub open spec fn refusal_reports_limit(r: Result<(), DepthError>) -> bool {
    match r {
        Ok(()) => true,
        Err(DepthError::DelimiterDepthExceeded { depth, max }) => depth == MAX_DELIMITER_DEPTH
            + 1 && max == MAX_DELIMITER_DEPTH,
        Err(DepthError::UnaryChainExceeded { count, max }) => count == MAX_UNARY_CHAIN + 1 && max
            == MAX_UNARY_CHAIN,
    }
}

/// From any state within the limits, a refusal reports the limit.
pub proof fn lemma_scan_reports_limit(b: Seq<u8>, i: int, depth: nat, chain: nat)
    requires
        depth <= MAX_DELIMITER_DEPTH,
        chain <= MAX_UNARY_CHAIN,
    ensures
        refusal_reports_limit(scan(b, i, depth, chain)),
    decreases b.len() - i,
{
    if 0 <= i < b.len() {
        if line_comment_at(b, i) {
            lemma_skips_advance(b, i + 2, 1);
            lemma_scan_reports_limit(b, line_comment_end(b, i + 2), depth, chain);
        } else if block_comment_at(b, i) {
            lemma_skips_advance(b, i + 2, 1);
            lemma_scan_reports_limit(b, block_comment_end(b, i + 2, 1), depth, chain);
        } else if b[i] == 34 {
            lemma_skips_advance(b, i + 1, 1);
            lemma_scan_reports_limit(b, string_end(b, i + 1), depth, chain);
        } else if b[i] == 39 {
            lemma_skips_advance(b, i + 1, 1);
            lemma_scan_reports_limit(b, char_end(b, i + 1), depth, chain);
        } else if is_open_delim(b[i]) {
            if depth + 1 <= MAX_DELIMITER_DEPTH {
                lemma_scan_reports_limit(b, i + 1, depth + 1, 0);
            }
        } else if is_close_delim(b[i]) {
            let d: nat = if depth > 0 {
                (depth - 1) as nat
            } else {
                0
            };
            lemma_scan_reports_limit(b, i + 1, d, 0);
        } else if is_unary_op(b[i]) {
            if chain + 1 <= MAX_UNARY_CHAIN {
                lemma_scan_reports_limit(b, i + 1, depth, chain + 1);
            }
        } else if is_blank(b[i]) {
            lemma_scan_reports_limit(b, i + 1, depth, chain);
        } else {
            lemma_scan_reports_limit(b, i + 1, depth, 0);
        }
    }
}

/// No byte at or after `i` opens a delimiter or is a unary operator.
pub open spec fn free_of_nesting(b: Seq<u8>, i: int) -> bool {
    forall|k: int| i <= k < b.len() ==> !is_open_delim(#[trigger] b[k]) && !is_unary_op(b[k])
}

/// Only opening delimiters and unary operators can make the guard refuse.
pub proof fn lemma_scan_accepts_flat(b: Seq<u8>, i: int, depth: nat, chain: nat)
    requires
        0 <= i,
        free_of_nesting(b, i),
    ensures
        scan(b, i, depth, chain) == Ok::<(), DepthError>(()),
    decreases b.len() - i,
{
    if i < b.len() {
        assert(!is_open_delim(b[i]) && !is_unary_op(b[i]));
        if line_comment_at(b, i) {
            lemma_skips_advance(b, i + 2, 1);
            lemma_scan_accepts_flat(b, line_comment_end(b, i + 2), depth, chain);
        } else if block_comment_at(b, i) {
            lemma_skips_advance(b, i + 2, 1);
            lemma_scan_accepts_flat(b, block_comment_end(b, i + 2, 1), depth, chain);
        } else if b[i] == 34 {
            lemma_skips_advance(b, i + 1, 1);
            lemma_scan_accepts_flat(b, string_end(b, i + 1), depth, chain);
        } else if b[i] == 39 {
            lemma_skips_advance(b, i + 1, 1);
            lemma_scan_accepts_flat(b, char_end(b, i + 1), depth, chain);
        } else if is_close_delim(b[i]) {
            let d: nat = if depth > 0 {
                (depth - 1) as nat
            } else {
                0
            };
            lemma_scan_accepts_flat(b, i + 1, d, 0);
        } else if is_blank(b[i]) {
            lemma_scan_accepts_flat(b, i + 1, depth, chain);
        } else {
            lemma_scan_accepts_flat(b, i + 1, depth, 0);
        }
    }
}

/// Bytes `i .. i + n` are all opening delimiters.
pub open spec fn openers_run(b: Seq<u8>, i: int, n: int) -> bool {
    i + n <= b.len() && forall|k: int| i <= k < i + n ==> is_open_delim(#[trigger] b[k])
}

/// Bytes `i .. i + n` are all unary operators.
pub open spec fn unary_run(b: Seq<u8>, i: int, n: int) -> bool {
    i + n <= b.len() && forall|k: int| i <= k < i + n ==> is_unary_op(#[trigger] b[k])
}

proof fn lemma_openers_refused(b: Seq<u8>, i: int, depth: nat, chain: nat)
    requires
        0 <= i,
        depth <= MAX_DELIMITER_DEPTH,
        openers_run(b, i, MAX_DELIMITER_DEPTH + 1 - depth),
    ensures
        scan(b, i, depth, chain) == Err::<(), DepthError>(
            DepthError::DelimiterDepthExceeded {
                depth: (MAX_DELIMITER_DEPTH + 1) as usize,
                max: MAX_DELIMITER_DEPTH,
            },
        ),
    decreases MAX_DELIMITER_DEPTH + 1 - depth,
{
    assert(is_open_delim(b[i]));
    if depth + 1 <= MAX_DELIMITER_DEPTH {
        lemma_openers_refused(b, i + 1, depth + 1, 0);
    }
}

proof fn lemma_unary_refused(b: Seq<u8>, i: int, depth: nat, chain: nat)
    requires
        0 <= i,
        chain <= MAX_UNARY_CHAIN,
        unary_run(b, i, MAX_UNARY_CHAIN + 1 - chain),
    ensures
        scan(b, i, depth, chain) == Err::<(), DepthError>(
            DepthError::UnaryChainExceeded {
                count: (MAX_UNARY_CHAIN + 1) as usize,
                max: MAX_UNARY_CHAIN,
            },
        ),
    decreases MAX_UNARY_CHAIN + 1 - chain,
{
    assert(is_unary_op(b[i]));
    if chain + 1 <= MAX_UNARY_CHAIN {
        lemma_unary_refused(b, i + 1, depth, chain + 1);
    }
}

/// A text that opens with more than `MAX_DELIMITER_DEPTH` consecutive
/// opening delimiters is refused for its delimiter depth, which is reported
/// as the limit plus one.
pub proof fn law_deep_nesting_refused(code: &str)
    requires
        openers_run(code.spec_bytes(), 0, MAX_DELIMITER_DEPTH + 1),
    ensures
        nesting_verdict(code) == Err::<(), DepthError>(
            DepthError::DelimiterDepthExceeded {
                depth: (MAX_DELIMITER_DEPTH + 1) as usize,
                max: MAX_DELIMITER_DEPTH,
            },
        ),
{
    lemma_openers_refused(code.spec_bytes(), 0, 0, 0);
}

/// A text that opens with more than `MAX_UNARY_CHAIN` consecutive unary
/// operators is refused for its unary chain, which is reported as the limit
/// plus one.
pub proof fn law_long_unary_chain_refused(code: &str)
    requires
        unary_run(code.spec_bytes(), 0, MAX_UNARY_CHAIN + 1),
    ensures
        nesting_verdict(code) == Err::<(), DepthError>(
            DepthError::UnaryChainExceeded {
                count: (MAX_UNARY_CHAIN + 1) as usize,
                max: MAX_UNARY_CHAIN,
            },
        ),
{
    lemma_unary_refused(code.spec_bytes(), 0, 0, 0);
}

/// Number of opening delimiter bytes at or after `i`.
pub open spec fn openers_from(b: Seq<u8>, i: int) -> nat
    decreases b.len() - i,
{
    if i < 0 || i >= b.len() {
        0
    } else {
        (if is_open_delim(b[i]) {
            1nat
        } else {
            0nat
        }) + openers_from(b, i + 1)
    }
}

/// Number of unary operator bytes at or after `i`.
pub open spec fn unary_from(b: Seq<u8>, i: int) -> nat
    decreases b.len() - i,
{
    if i < 0 || i >= b.len() {
        0
    } else {
        (if is_unary_op(b[i]) {
            1nat
        } else {
            0nat
        }) + unary_from(b, i + 1)
    }
}

/// Fewer bytes remain to be counted further on.
proof fn lemma_counts_shrink(b: Seq<u8>, i: int, j: int)
    requires
        0 <= i <= j,
    ensures
        openers_from(b, j) <= openers_from(b, i),
        unary_from(b, j) <= unary_from(b, i),
    decreases j - i,
{
    if i < j {
        lemma_counts_shrink(b, i + 1, j);
    }
}

/// From a state whose depth plus the openers still ahead, and whose chain
/// plus the unary operators still ahead, stay within the limits, the guard
/// accepts.
proof fn lemma_scan_accepts_few(b: Seq<u8>, i: int, depth: nat, chain: nat)
    requires
        0 <= i,
        depth + openers_from(b, i) <= MAX_DELIMITER_DEPTH,
        chain + unary_from(b, i) <= MAX_UNARY_CHAIN,
    ensures
        scan(b, i, depth, chain) == Ok::<(), DepthError>(()),
    decreases b.len() - i,
{
    if i < b.len() {
        if line_comment_at(b, i) {
            lemma_skips_advance(b, i + 2, 1);
            lemma_counts_shrink(b, i, line_comment_end(b, i + 2));
            lemma_scan_accepts_few(b, line_comment_end(b, i + 2), depth, chain);
        } else if block_comment_at(b, i) {
            lemma_skips_advance(b, i + 2, 1);
            lemma_counts_shrink(b, i, block_comment_end(b, i + 2, 1));
            lemma_scan_accepts_few(b, block_comment_end(b, i + 2, 1), depth, chain);
        } else if b[i] == 34 {
            lemma_skips_advance(b, i + 1, 1);
            lemma_counts_shrink(b, i, string_end(b, i + 1));
            lemma_scan_accepts_few(b, string_end(b, i + 1), depth, chain);
        } else if b[i] == 39 {
            lemma_skips_advance(b, i + 1, 1);
            lemma_counts_shrink(b, i, char_end(b, i + 1));
            lemma_scan_accepts_few(b, char_end(b, i + 1), depth, chain);
        } else if is_open_delim(b[i]) {
            lemma_counts_shrink(b, i + 1, i + 1);
            lemma_scan_accepts_few(b, i + 1, depth + 1, 0);
        } else if is_close_delim(b[i]) {
            let d: nat = if depth > 0 {
                (depth - 1) as nat
            } else {
                0
            };
            lemma_scan_accepts_few(b, i + 1, d, 0);
        } else if is_unary_op(b[i]) {
            lemma_scan_accepts_few(b, i + 1, depth, chain + 1);
        } else if is_blank(b[i]) {
            lemma_scan_accepts_few(b, i + 1, depth, chain);
        } else {
            lemma_scan_accepts_few(b, i + 1, depth, 0);
        }
    }
}

/// A text with at most `MAX_DELIMITER_DEPTH` opening delimiter bytes and at
/// most `MAX_UNARY_CHAIN` unary operator bytes in all is accepted, wherever
/// they stand.
pub proof fn law_few_openers_and_unary_accepted(code: &str)
    requires
        openers_from(code.spec_bytes(), 0) <= MAX_DELIMITER_DEPTH,
        unary_from(code.spec_bytes(), 0) <= MAX_UNARY_CHAIN,
    ensures
        nesting_verdict(code) == Ok::<(), DepthError>(()),
{
    lemma_scan_accepts_few(code.spec_bytes(), 0, 0, 0);
}

/// Nesting depth after the first `k` bytes: `{`, `(` and `[` open a level,
/// `}`, `)` and `]` close one (never going below zero), every other byte
/// leaves it.
pub open spec fn depth_after(b: Seq<u8>, k: int) -> nat
    decreases k,
{
    if k <= 0 {
        0
    } else {
        let d = depth_after(b, k - 1);
        let c = b[k - 1];
        if c == 123 || c == 40 || c == 91 {
            d + 1
        } else if c == 125 || c == 41 || c == 93 {
            if d > 0 {
                (d - 1) as nat
            } else {
                0
            }
        } else {
            d
        }
    }
}

/// The text holds no comment, string or character literal: no `/`, `"` or
/// `'` byte.
pub open spec fn plain_text(b: Seq<u8>) -> bool {
    forall|k: int| 0 <= k < b.len() ==> #[trigger] b[k] != 47 && b[k] != 34 && b[k] != 39
}

proof fn lemma_scan_accepts_shallow(b: Seq<u8>, i: int, chain: nat)
    requires
        0 <= i <= b.len(),
        plain_text(b),
        forall|k: int| i <= k <= b.len() ==> #[trigger] depth_after(b, k) <= MAX_DELIMITER_DEPTH,
        chain + unary_from(b, i) <= MAX_UNARY_CHAIN,
    ensures
        scan(b, i, depth_after(b, i), chain) == Ok::<(), DepthError>(()),
    decreases b.len() - i,
{
    if i < b.len() {
        assert(b[i] != 47 && b[i] != 34 && b[i] != 39);
        assert(depth_after(b, i + 1) <= MAX_DELIMITER_DEPTH);
        if is_unary_op(b[i]) {
            lemma_scan_accepts_shallow(b, i + 1, chain + 1);
        } else if is_blank(b[i]) {
            lemma_scan_accepts_shallow(b, i + 1, chain);
        } else {
            lemma_scan_accepts_shallow(b, i + 1, 0);
        }
    }
}

/// The guard goes by nesting depth, not by how many delimiters there are:
/// a text without comments or literals whose delimiter nesting never goes
/// deeper than `MAX_DELIMITER_DEPTH`, with at most `MAX_UNARY_CHAIN` unary
/// operators, is accepted, however many groups open and close in it.
pub proof fn law_shallow_text_accepted(code: &str)
    requires
        plain_text(code.spec_bytes()),
        forall|k: int|
            0 <= k <= code.spec_bytes().len() ==> #[trigger] depth_after(code.spec_bytes(), k)
                <= MAX_DELIMITER_DEPTH,
        unary_from(code.spec_bytes(), 0) <= MAX_UNARY_CHAIN,
    ensures
        nesting_verdict(code) == Ok::<(), DepthError>(()),
{
    lemma_scan_accepts_shallow(code.spec_bytes(), 0, 0);
}

/// Closing a group brings the depth back to what it was before the group
/// opened: after any prefix, `{}` repeated any number of times leaves the
/// depth where the prefix left it.
pub proof fn law_balanced_groups_restore_depth(b: Seq<u8>, n: nat)
    ensures
        depth_after(b + Seq::new(2 * n, |k: int| if k % 2 == 0 { 123u8 } else { 125u8 }), (b.len()
            + 2 * n) as int) == depth_after(b, b.len() as int),
    decreases n,
{
    let g = Seq::new(2 * n, |k: int| if k % 2 == 0 { 123u8 } else { 125u8 });
    let t = b + g;
    if n == 0 {
        assert(t =~= b);
    } else {
        let m = (n - 1) as nat;
        let g1 = Seq::new(2 * m, |k: int| if k % 2 == 0 { 123u8 } else { 125u8 });
        let t1 = b + g1;
        let l: int = (b.len() + 2 * m) as int;
        law_balanced_groups_restore_depth(b, m);
        assert(t.subrange(0, l) =~= t1.subrange(0, l)) by {
            assert forall|k: int| 0 <= k < l implies t.subrange(0, l)[k] == t1.subrange(0, l)[k] by {
                if k >= b.len() {
                    assert(t[k] == g[k - b.len()]);
                    assert(t1[k] == g1[k - b.len()]);
                }
            }
        }
        lemma_depth_prefix(t, t1, l);
        assert(t[l] == g[(2 * m) as int]);
        assert((2 * m) % 2 == 0) by (nonlinear_arith);
        assert(t[l] == 123u8);
        assert(t[l + 1] == g[(2 * m + 1) as int]);
        assert((2 * m + 1) % 2 == 1) by (nonlinear_arith);
        assert(t[l + 1] == 125u8);
        assert(depth_after(t, l + 1) == depth_after(t, l) + 1);
        assert(depth_after(t, l + 2) == depth_after(t, l));
    }
}

/// The depth after `k` bytes depends on those bytes only.
proof fn lemma_depth_prefix(s: Seq<u8>, t: Seq<u8>, k: int)
    requires
        0 <= k <= s.len(),
        k <= t.len(),
        s.subrange(0, k) == t.subrange(0, k),
    ensures
        depth_after(s, k) == depth_after(t, k),
    decreases k,
{
    if k > 0 {
        assert(s.subrange(0, k - 1) =~= s.subrange(0, k).subrange(0, k - 1));
        assert(t.subrange(0, k - 1) =~= t.subrange(0, k).subrange(0, k - 1));
        lemma_depth_prefix(s, t, k - 1);
        assert(s[k - 1] == s.subrange(0, k)[k - 1]);
        assert(t[k - 1] == t.subrange(0, k)[k - 1]);
    }
}

/// Where the guard's scan goes after position `i`: past a comment or a
/// literal that starts there, otherwise to the next byte.
pub open spec fn next_pos(b: Seq<u8>, i: int) -> int {
    if line_comment_at(b, i) {
        line_comment_end(b, i + 2)
    } else if block_comment_at(b, i) {
        block_comment_end(b, i + 2, 1)
    } else if b[i] == 34 {
        string_end(b, i + 1)
    } else if b[i] == 39 {
        char_end(b, i + 1)
    } else {
        i + 1
    }
}

/// The scan from `i` looks at position `j` itself: `j` lies outside every
/// comment and literal that the scan skips.
pub open spec fn scanned(b: Seq<u8>, i: int, j: int) -> bool
    decreases b.len() - i,
{
    if i < 0 || i >= b.len() || j < i {
        false
    } else if i == j {
        true
    } else if i < next_pos(b, i) <= b.len() {
        scanned(b, next_pos(b, i), j)
    } else {
        false
    }
}

/// A run of openers or of unary operators past its limit at a scanned
/// position makes the scan refuse, from any state within the limits.
proof fn lemma_scan_refuses_run(b: Seq<u8>, i: int, j: int, depth: nat, chain: nat)
    requires
        depth <= MAX_DELIMITER_DEPTH,
        chain <= MAX_UNARY_CHAIN,
        scanned(b, i, j),
        openers_run(b, j, MAX_DELIMITER_DEPTH + 1) || unary_run(b, j, MAX_UNARY_CHAIN + 1),
    ensures
        scan(b, i, depth, chain) is Err,
    decreases b.len() - i,
{
    if i == j {
        if openers_run(b, j, MAX_DELIMITER_DEPTH + 1) {
            lemma_openers_refused(b, j, depth, chain);
        } else {
            lemma_unary_refused(b, j, depth, chain);
        }
    } else if line_comment_at(b, i) {
        lemma_skips_advance(b, i + 2, 1);
        lemma_scan_refuses_run(b, line_comment_end(b, i + 2), j, depth, chain);
    } else if block_comment_at(b, i) {
        lemma_skips_advance(b, i + 2, 1);
        lemma_scan_refuses_run(b, block_comment_end(b, i + 2, 1), j, depth, chain);
    } else if b[i] == 34 {
        lemma_skips_advance(b, i + 1, 1);
        lemma_scan_refuses_run(b, string_end(b, i + 1), j, depth, chain);
    } else if b[i] == 39 {
        lemma_skips_advance(b, i + 1, 1);
        lemma_scan_refuses_run(b, char_end(b, i + 1), j, depth, chain);
    } else if is_open_delim(b[i]) {
        if depth + 1 <= MAX_DELIMITER_DEPTH {
            lemma_scan_refuses_run(b, i + 1, j, depth + 1, 0);
        }
    } else if is_close_delim(b[i]) {
        let d: nat = if depth > 0 {
            (depth - 1) as nat
        } else {
            0
        };
        lemma_scan_refuses_run(b, i + 1, j, d, 0);
    } else if is_unary_op(b[i]) {
        if chain + 1 <= MAX_UNARY_CHAIN {
            lemma_scan_refuses_run(b, i + 1, j, depth, chain + 1);
        }
    } else if is_blank(b[i]) {
        lemma_scan_refuses_run(b, i + 1, j, depth, chain);
    } else {
        lemma_scan_refuses_run(b, i + 1, j, depth, 0);
    }
}

/// More than `MAX_DELIMITER_DEPTH` consecutive opening delimiters, starting
/// at any position outside the comments and literals the guard skips, make
/// the guard refuse the text.
pub proof fn law_opener_run_refused_anywhere(code: &str, j: int)
    requires
        scanned(code.spec_bytes(), 0, j),
        openers_run(code.spec_bytes(), j, MAX_DELIMITER_DEPTH + 1),
    ensures
        nesting_verdict(code) is Err,
{
    lemma_scan_refuses_run(code.spec_bytes(), 0, j, 0, 0);
}

/// More than `MAX_UNARY_CHAIN` consecutive unary operators, starting at any
/// position outside the comments and literals the guard skips, make the
/// guard refuse the text.
pub proof fn law_unary_run_refused_anywhere(code: &str, j: int)
    requires
        scanned(code.spec_bytes(), 0, j),
        unary_run(code.spec_bytes(), j, MAX_UNARY_CHAIN + 1),
    ensures
        nesting_verdict(code) is Err,
{
    lemma_scan_refuses_run(code.spec_bytes(), 0, j, 0, 0);
}

/// The guard's verdict on a whole text.
pub open spec fn nesting_verdict(code: &str) -> Result<(), DepthError> {
    scan(code.spec_bytes(), 0, 0, 0)
}

/// Checks the bytes of `code` for delimiter nesting deeper than
/// `MAX_DELIMITER_DEPTH` and unary chains longer than `MAX_UNARY_CHAIN`,
/// ignoring what stands in comments and string or character literals.
pub fn check_nesting_safety(code: &str) -> (r: Result<(), DepthError>)
    ensures
        r == nesting_verdict(code),
        refusal_reports_limit(r),
        free_of_nesting(code.spec_bytes(), 0) ==> r is Ok,
{
    proof {
        lemma_scan_reports_limit(code.spec_bytes(), 0, 0, 0);
        if free_of_nesting(code.spec_bytes(), 0) {
            lemma_scan_accepts_flat(code.spec_bytes(), 0, 0, 0);
        }
    }
    let bytes = code.as_bytes();
    let len = bytes.len();
    let ghost b = bytes@;
    let mut i: usize = 0;
    let mut delimiter_depth: usize = 0;
    let mut unary_chain: usize = 0;

    while i < len
        invariant
            b == bytes@,
            b == code.spec_bytes(),
            len == b.len(),
            i <= len,
            delimiter_depth <= MAX_DELIMITER_DEPTH,
            unary_chain <= MAX_UNARY_CHAIN,
            scan(b, i as int, delimiter_depth as nat, unary_chain as nat) == scan(b, 0, 0, 0),
        decreases len - i,
    {
        let c = bytes[i];

        if c == 47 && i + 1 < len && bytes[i + 1] == 47 {
            // `//` comment: skip to the end of the line.
            let ghost start = i + 2;
            i = i + 2;
            while i < len && bytes[i] != 10
                invariant
                    b == bytes@,
                    len == b.len(),
                    start <= i <= len,
                    line_comment_end(b, i as int) == line_comment_end(b, start as int),
                decreases len - i,
            {
                i = i + 1;
            }
            continue;
        }

        if c == 47 && i + 1 < len && bytes[i + 1] == 42 {
            // `/* */` comment, possibly nested.
            let ghost start = i + 2;
            i = i + 2;
            let mut block_depth: usize = 1;
            while len - i > 1 && block_depth > 0
                invariant
                    b == bytes@,
                    len == b.len(),
                    start <= i <= len,
                    block_depth <= i,
                    block_comment_end(b, i as int, block_depth as nat) == block_comment_end(
                        b,
                        start as int,
                        1,
                    ),
                decreases len - i,
            {
                if bytes[i] == 47 && bytes[i + 1] == 42 {
                    block_depth = block_depth + 1;
                    i = i + 2;
                } else if bytes[i] == 42 && bytes[i + 1] == 47 {
                    block_depth = block_depth - 1;
                    i = i + 2;
                } else {
                    i = i + 1;
                }
            }
            continue;
        }

        if c == 34 {
            // `"..."` literal.
            let ghost start = i + 1;
            proof {
                lemma_skips_advance(b, start as int, 1);
            }
            i = i + 1;
            while i < len
                invariant_except_break
                    start <= i <= len,
                    string_end(b, i as int) == string_end(b, start as int),
                invariant
                    b == bytes@,
                    len == b.len(),
                ensures
                    i <= len,
                    i == string_end(b, start as int),
                decreases len - i,
            {
                if bytes[i] == 92 {
                    i = if len - i >= 2 {
                        i + 2
                    } else {
                        len
                    };
                } else if bytes[i] == 34 {
                    i = i + 1;
                    break;
                } else {
                    i = i + 1;
                }
            }
            continue;
        }

        if c == 39 {
            // `'...'` literal, or a lifetime left open up to `'\n'` or `;`.
            let ghost start = i + 1;
            proof {
                lemma_skips_advance(b, start as int, 1);
            }
            i = i + 1;
            while i < len
                invariant_except_break
                    start <= i <= len,
                    char_end(b, i as int) == char_end(b, start as int),
                invariant
                    b == bytes@,
                    len == b.len(),
                ensures
                    i <= len,
                    i == char_end(b, start as int),
                decreases len - i,
            {
                if bytes[i] == 92 {
                    i = if len - i >= 2 {
                        i + 2
                    } else {
                        len
                    };
                } else if bytes[i] == 39 {
                    i = i + 1;
                    break;
                } else if bytes[i] == 10 || bytes[i] == 59 {
                    break;
                } else {
                    i = i + 1;
                }
            }
            continue;
        }

        if c == 123 || c == 40 || c == 91 {
            delimiter_depth = delimiter_depth + 1;
            if delimiter_depth > MAX_DELIMITER_DEPTH {
                return Err(
                    DepthError::DelimiterDepthExceeded {
                        depth: delimiter_depth,
                        max: MAX_DELIMITER_DEPTH,
                    },
                );
            }
            unary_chain = 0;
        } else if c == 125 || c == 41 || c == 93 {
            delimiter_depth = if delimiter_depth > 0 {
                delimiter_depth - 1
            } else {
                0
            };
            unary_chain = 0;
        } else if c == 38 || c == 42 || c == 33 {
            unary_chain = unary_chain + 1;
            if unary_chain > MAX_UNARY_CHAIN {
                return Err(
                    DepthError::UnaryChainExceeded { count: unary_chain, max: MAX_UNARY_CHAIN },
                );
            }
        } else if c == 32 || c == 9 || c == 13 || c == 10 {
            // Blanks neither break nor extend a unary chain.
        } else {
            unary_chain = 0;
        }

        i = i + 1;
    }
    Ok(())
}

/// Whether `code` may be handed to a parser: a text the guard refuses is
/// answered with the guard's message instead, and never reaches the parser.
pub fn parse_admission(code: &str) -> (r: Result<(), String>)
    ensures
        nesting_verdict(code) matches Err(e) ==> (r matches Err(m) && m@ == depth_error_text(e)),
        nesting_verdict(code) is Ok ==> r is Ok,
{
    match check_nesting_safety(code) {
        Ok(()) => Ok(()),
        Err(e) => Err(e.message()),
    }
}

} // verus!
