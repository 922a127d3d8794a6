//! Per-file AST measures. Each visitor is the state of one measure; the
//! syntax walk hands it the events it reacts to (a function entered, a use
//! item met, a macro invoked, ...), and the visitor keeps the counts.
pub mod complexity_visitor;
pub mod coupling_visitor;
pub mod performance_visitor;
pub mod side_effect_visitor;
pub mod test_visitor;
pub mod unsafe_visitor;

pub use complexity_visitor::ComplexityVisitor;
pub use coupling_visitor::CouplingVisitor;
pub use performance_visitor::PerformanceVisitor;
pub use side_effect_visitor::SideEffectVisitor;
pub use test_visitor::TestVisitor;
pub use unsafe_visitor::UnsafeVisitor;
