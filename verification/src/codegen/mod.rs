//! Template-based generation of Rust source from a function description.
pub mod generator;
pub mod laws;
pub mod result;
pub mod rust;
pub mod spec;
pub mod template;

pub use generator::CodeGenerator;
pub use result::{GenerationResult, GenerationSuccess};
pub use spec::{FailureContext, GenerationSpec};
