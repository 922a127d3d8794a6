//! Outcome of a generation.
use vstd::prelude::*;
use uuid::Uuid;
use crate::text::{contains_seq, contains_text};

verus! {

#[verifier::external_type_specification]
#[verifier::external_body]
pub struct ExUuid(Uuid);

/// `uuid::Uuid::clone`, which the derived `Clone` of `GenerationSuccess`
/// calls. `Uuid` derives `Clone` together with `Copy`, so the clone is the
/// same value; that is what is stated.
pub assume_specification[ <Uuid as Clone>::clone ](u: &Uuid) -> (r: Uuid)
    ensures
        r == *u,
;

/// Calls `uuid::Uuid::new_v4`: a fresh random identifier. Nothing is stated
/// of its value, which comes from the random number generator.
#[verifier::external_body]
fn new_generation_id() -> (id: Uuid) {
    Uuid::new_v4()
}

/// Generated code, with the template that produced it.
#[derive(Debug, Clone)]
pub struct GenerationSuccess {
    /// The generated source.
    pub code: String,
    /// Name of the template used.
    pub template_name: &'static str,
    /// Identifier of this generation, random.
    pub generation_id: Uuid,
    /// Attempt number, counted from one.
    pub attempt_number: usize,
}

impl GenerationSuccess {
    /// A success record with a fresh random identifier.
    pub fn new(code: String, template_name: &'static str, attempt_number: usize) -> (s: Self)
        ensures
            s.code == code,
            s.template_name == template_name,
            s.attempt_number == attempt_number,
    {
        GenerationSuccess { code, template_name, generation_id: new_generation_id(), attempt_number }
    }

    /// The generated code mentions `unsafe`.
    pub fn has_unsafe(&self) -> (b: bool)
        ensures
            b == contains_seq(self.code@, "unsafe"@),
    {
        contains_text(self.code.as_str(), "unsafe")
    }

    /// The generated code holds a `#[test]` function.
    pub fn has_tests(&self) -> (b: bool)
        ensures
            b == contains_seq(self.code@, "#[test]"@),
    {
        contains_text(self.code.as_str(), "#[test]")
    }
}

/// Outcome of a generation.
#[derive(Debug, Clone)]
pub enum GenerationResult {
    /// Code was generated.
    Success(GenerationSuccess),
    /// No code was generated, for the given reason.
    Failed { reason: String },
}

impl GenerationResult {
    /// Code was generated.
    pub fn succeeded(&self) -> (b: bool)
        ensures
            b == (self is Success),
    {
        match self {
            GenerationResult::Success(_) => true,
            GenerationResult::Failed { .. } => false,
        }
    }

    /// The generated code, if any.
    pub fn code(&self) -> (c: Option<&str>)
        ensures
            match self {
                GenerationResult::Success(s) => c is Some && c->0@ == s.code@,
                GenerationResult::Failed { .. } => c is None,
            },
    {
        match self {
            GenerationResult::Success(s) => Some(s.code.as_str()),
            GenerationResult::Failed { .. } => None,
        }
    }

    /// The success record, if any.
    pub fn success(&self) -> (r: Option<&GenerationSuccess>)
        ensures
            match self {
                GenerationResult::Success(s) => r == Some(s),
                GenerationResult::Failed { .. } => r is None,
            },
    {
        match self {
            GenerationResult::Success(s) => Some(s),
            GenerationResult::Failed { .. } => None,
        }
    }
}

} // verus!
