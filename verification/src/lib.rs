//! Verified kernel of a code evaluation toolkit: keyword and AST-event
//! measures of Rust source, a nesting guard, template-based code generation
//! and the decisions of the evaluation pipeline.
use vstd::prelude::*;

pub mod api;
pub mod ast_analyzer;
pub mod codegen;
pub mod complexity;
pub mod coverage;
pub mod depth_guard;
pub mod isolation;
pub mod metrics;
pub mod pipeline;
pub mod reversibility;
pub mod security;
pub mod text;
pub mod visitors;
pub mod workspace;
