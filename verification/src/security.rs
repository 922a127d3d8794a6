//! Keyword-level security measures.
use vstd::prelude::*;
use crate::metrics::count_pattern;
use crate::text::occurrences;

verus! {

/// Security-relevant counts taken from source text.
#[derive(Debug, Clone)]
pub struct SecurityMetrics {
    /// Occurrences of `unsafe`.
    pub unsafe_blocks: usize,
    /// Occurrences of `.unwrap()`.
    pub unwrap_calls: usize,
    /// Occurrences of `.expect(`.
    pub expect_calls: usize,
    /// Occurrences of `panic!`.
    pub panic_calls: usize,
}

impl SecurityMetrics {
    /// Counts the security-relevant patterns of `code`.
    pub fn from_code(code: &str) -> (m: Self)
        ensures
            m.unsafe_blocks == occurrences(code@, "unsafe"@),
            m.unwrap_calls == occurrences(code@, ".unwrap()"@),
            m.expect_calls == occurrences(code@, ".expect("@),
            m.panic_calls == occurrences(code@, "panic!"@),
    {
        proof {
            reveal_strlit("unsafe");
            reveal_strlit(".unwrap()");
            reveal_strlit(".expect(");
            reveal_strlit("panic!");
        }
        SecurityMetrics {
            unsafe_blocks: count_pattern(code, "unsafe"),
            unwrap_calls: count_pattern(code, ".unwrap()"),
            expect_calls: count_pattern(code, ".expect("),
            panic_calls: count_pattern(code, "panic!"),
        }
    }

    /// The code holds no `unsafe`.
    pub fn is_safe(&self) -> (b: bool)
        ensures
            b == (self.unsafe_blocks == 0),
    {
        self.unsafe_blocks == 0
    }
}

} // verus!
