use ec_kernel::visitors::complexity_visitor::FnComplexity;
use ec_kernel::visitors::unsafe_visitor::UnsafeKind;
use ec_kernel::visitors::{
    ComplexityVisitor, CouplingVisitor, PerformanceVisitor, SideEffectVisitor, TestVisitor,
    UnsafeVisitor,
};

#[test]
fn complexity_visitor_nests_functions() {
    let mut v = ComplexityVisitor::new();
    let outer = v.enter_fn("outer".to_string(), false);
    v.record_decision();
    let inner = v.enter_fn("inner".to_string(), true);
    for _ in 0..11 {
        v.record_decision();
    }
    v.exit_fn(inner);
    v.record_decision();
    v.exit_fn(outer);
    let names: Vec<(String, u32, bool)> =
        v.functions().iter().map(|f: &FnComplexity| (f.name.clone(), f.cc, f.is_test)).collect();
    assert_eq!(
        names,
        vec![("inner".to_string(), 12, true), ("outer".to_string(), 3, false)]
    );
    assert_eq!(v.high_complexity(), vec![("inner".to_string(), 12)]);
}

#[test]
fn coupling_visitor_classifies_roots() {
    let mut v = CouplingVisitor::new();
    v.record_mod("bayesian".to_string());
    v.record_use(Some("bayesian".to_string()), true);
    assert_eq!(v.external_uses(), 0);
    v.record_use(Some("bayesian".to_string()), false);
    assert_eq!(v.external_uses(), 1);
    v.record_use(Some("serde".to_string()), true);
    assert_eq!(v.external_uses(), 2);
    v.record_use(Some("std".to_string()), false);
    v.record_use(Some("core".to_string()), false);
    assert_eq!(v.std_uses(), 2);
    v.record_use(Some("ec_fitness".to_string()), false);
    v.record_use(Some("crate".to_string()), false);
    v.record_use(Some("super".to_string()), false);
    v.record_use(None, true);
    assert_eq!(v.external_uses(), 2);
    assert_eq!(v.std_uses(), 2);
    assert!(v.has_local_module("bayesian"));
    assert!(!v.has_local_module("state"));
}

#[test]
fn performance_visitor_counts() {
    let mut v = PerformanceVisitor::new();
    v.record_call(&vec!["Vec".to_string(), "new".to_string()]);
    v.record_call(&vec!["HashMap".to_string(), "new".to_string()]);
    v.record_call(&vec!["std".to_string(), "vec".to_string(), "Vec".to_string(), "new".to_string()]);
    v.record_call(&vec!["new".to_string()]);
    v.record_method("clone");
    v.record_method("len");
    v.record_macro("format");
    v.record_macro("println");
    assert_eq!(v.allocations, 3);
    assert_eq!(v.clones, 1);
}

#[test]
fn side_effect_visitor_counts() {
    let mut v = SideEffectVisitor::new();
    v.record_macro("println");
    v.record_macro("eprint");
    v.record_macro("format");
    v.record_static(true);
    v.record_static(false);
    assert_eq!(v.stdout_writes, 2);
    assert_eq!(v.static_muts, 1);
    assert_eq!(v.io_calls, 0);
}

#[test]
fn test_visitor_counts() {
    let mut v = TestVisitor::new();
    v.record_fn(true);
    v.record_fn(false);
    v.record_fn(false);
    v.record_macro("assert_eq");
    v.record_macro("assert");
    v.record_macro("debug_assert");
    assert_eq!(v.test_fns, 1);
    assert_eq!(v.production_fns, 2);
    assert_eq!(v.assert_count, 2);
}

#[test]
fn unsafe_visitor_counts_unjustified() {
    let mut v = UnsafeVisitor::new();
    assert_eq!(v.unjustified_count(), 0);
    v.record_unsafe_block();
    v.record_unsafe_fn(true);
    v.record_unsafe_impl(false);
    v.record_unsafe_trait(true);
    assert_eq!(v.blocks.len(), 4);
    assert_eq!(v.unjustified_count(), 2);
    assert_eq!(v.blocks[0].kind, UnsafeKind::ExprBlock);
    assert_eq!(v.blocks[3].kind, UnsafeKind::UnsafeTrait);
}

#[test]
fn analyzer_warns_on_unjustified_unsafe_only() {
    let analyzer = ec_kernel::ast_analyzer::AstAnalyzer::new();
    let mut v = UnsafeVisitor::new();
    assert_eq!(analyzer.unsafe_warning(&v), None);
    v.record_unsafe_fn(true);
    assert_eq!(analyzer.unsafe_warning(&v), None);
    v.record_unsafe_block();
    v.record_unsafe_impl(false);
    assert_eq!(analyzer.unsafe_warning(&v), Some(2));
}

#[test]
fn analyzer_warns_on_complexity_above_twenty() {
    let analyzer = ec_kernel::ast_analyzer::AstAnalyzer::new();
    let mut v = ComplexityVisitor::new();
    for (name, decisions) in [("small", 5u32), ("medium", 15), ("big", 25), ("edge", 20)] {
        let saved = v.enter_fn(name.to_string(), false);
        for _ in 0..decisions {
            v.record_decision();
        }
        v.exit_fn(saved);
    }
    // cc is decisions + 1: 6, 16, 26, 21
    assert_eq!(
        analyzer.complexity_warnings(&v),
        vec![("big".to_string(), 26), ("edge".to_string(), 21)]
    );
}
