//! Keyword-level complexity measures.
use vstd::prelude::*;
use crate::metrics::{count_all, count_functions, function_marker};
use crate::text::{chars_of, distinct_patterns, lemma_differ_at, occurrences, total_occurrences};

verus! {

/// The branching keywords and operators whose occurrences estimate the
/// cyclomatic complexity.
pub open spec fn branch_markers() -> Seq<Seq<char>> {
    seq![
        "if "@,
        "else if"@,
        "match "@,
        "&&"@,
        "||"@,
        "while "@,
        "for "@,
        "loop "@,
        "?"@,
    ]
}

/// Complexity counts taken from source text.
#[derive(Debug, Clone)]
pub struct ComplexityMetrics {
    /// Estimated cyclomatic complexity: total occurrences of the branch markers.
    pub cyclomatic: usize,
    /// Number of functions (occurrences of `fn `).
    pub function_count: usize,
}

impl ComplexityMetrics {
    /// Counts the branch markers and functions of `code`.
    pub fn from_code(code: &str) -> (m: Self)
        ensures
            m.cyclomatic == total_occurrences(code@, branch_markers()),
            m.cyclomatic <= code@.len(),
            m.function_count == occurrences(code@, function_marker()),
    {
        let s = chars_of(code);
        let markers: Vec<&str> = vec![
            "if ",
            "else if",
            "match ",
            "&&",
            "||",
            "while ",
            "for ",
            "loop ",
            "?",
        ];
        proof {
            reveal_strlit("if ");
            reveal_strlit("else if");
            reveal_strlit("match ");
            reveal_strlit("&&");
            reveal_strlit("||");
            reveal_strlit("while ");
            reveal_strlit("for ");
            reveal_strlit("loop ");
            reveal_strlit("?");
            let pats = markers@.map_values(|p: &str| p@);
            assert(pats =~= branch_markers());
            assert forall|a: int, b: int|
                0 <= a < pats.len() && 0 <= b < pats.len() && a != b implies crate::text::prefix_free(
                #[trigger] pats[a],
                #[trigger] pats[b],
            ) by {
                lemma_differ_at(pats[a], pats[b], 0);
            }
            assert(distinct_patterns(pats));
        }
        let cyclomatic = count_all(&s, &markers);
        ComplexityMetrics { cyclomatic, function_count: count_functions(code) }
    }
}

} // verus!
