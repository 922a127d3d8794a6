//! Keyword-level test coverage measures.
use vstd::prelude::*;
use crate::metrics::{count_functions, count_test_functions, function_marker, test_markers};
use crate::text::{occurrences, total_occurrences};

verus! {

/// Function and test-function counts taken from source text.
#[derive(Debug, Clone)]
pub struct CoverageMetrics {
    /// Number of functions (occurrences of `fn `).
    pub total_functions: usize,
    /// Number of test functions (`#[test]` and `#[tokio::test]`).
    pub test_functions: usize,
}

impl CoverageMetrics {
    /// Counts the functions and test functions of `code`.
    pub fn from_code(code: &str) -> (m: Self)
        ensures
            m.total_functions == occurrences(code@, function_marker()),
            m.test_functions == total_occurrences(code@, test_markers()),
    {
        CoverageMetrics {
            total_functions: count_functions(code),
            test_functions: count_test_functions(code),
        }
    }

    /// There is at least one function and at least as many tests as functions.
    pub fn is_fully_covered(&self) -> (b: bool)
        ensures
            b == (self.total_functions > 0 && self.test_functions >= self.total_functions),
    {
        self.total_functions > 0 && self.test_functions >= self.total_functions
    }
}

} // verus!
