//! The interface every template offers.
use vstd::prelude::*;
use crate::codegen::result::GenerationResult;
use crate::codegen::spec::GenerationSpec;

verus! {

/// A template produces one kind of code for the descriptions it matches.
pub trait CodeTemplate {
    /// Name of the template.
    fn name(&self) -> &'static str;

    /// Whether the template fits the description.
    fn matches(&self, s: &GenerationSpec) -> bool;

    /// Generates code for the description.
    fn generate(&self, s: &GenerationSpec) -> GenerationResult
        requires
            s.previous_failures@.len() < usize::MAX,
    ;

    /// Priority of the template; higher is tried first.
    fn priority(&self) -> (p: u8)
        default_ensures
            p == 50,
    {
        50
    }
}

} // verus!
