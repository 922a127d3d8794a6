use ec_kernel::codegen::rust::{RustFunctionTemplate, RustPureTemplate, RustStructTemplate};
use ec_kernel::codegen::template::CodeTemplate;
use ec_kernel::codegen::{
    CodeGenerator, FailureContext, GenerationResult, GenerationSpec, GenerationSuccess,
};

#[test]
fn test_generator_creates() {
    let g = CodeGenerator::new();
    assert!(g.template_count() > 0);
    assert!(g.template_names().contains(&"RustFunctionTemplate"));
}

#[test]
fn test_generate_add_function() {
    let g = CodeGenerator::new();
    let spec = GenerationSpec::simple("add", vec!["i32", "i32"], "i32");
    let result = g.generate(&spec);
    assert!(result.succeeded());
    let code = result.code().unwrap();
    assert!(code.contains("pub fn add"));
}

#[test]
fn test_no_matching_template() {
    let g = CodeGenerator::new();
    let mut spec = GenerationSpec::simple("ptrmagic", vec!["*const u8"], "*mut u8");
    spec.constraints.push("unsafe".into());
    spec.constraints.push("raw_ptr".into());
    let result = g.generate(&spec);
    assert!(!result.succeeded());
}

#[test]
fn test_rust_function_template_generates() {
    let spec = GenerationSpec::simple("add", vec!["i32", "i32"], "i32");
    let tmpl = RustFunctionTemplate;
    assert!(tmpl.matches(&spec));
    let result = tmpl.generate(&spec);
    assert!(result.succeeded());
    let code = result.code().unwrap();
    assert!(code.contains("pub fn add"));
    assert!(code.contains("-> i32"));
    assert!(!code.contains("unsafe"));
}

#[test]
fn test_pure_template_generates_inline() {
    let mut spec = GenerationSpec::simple("square", vec!["f64"], "f64");
    spec.constraints.push("pure".into());
    spec.constraints.push("no_side_effects".into());
    let tmpl = RustPureTemplate;
    assert!(tmpl.matches(&spec));
    let result = tmpl.generate(&spec);
    let code = result.code().unwrap();
    assert!(code.contains("#[inline]"));
    assert!(code.contains("pub fn square"));
}

#[test]
fn test_includes_tests() {
    let spec = GenerationSpec::simple("sum", vec!["i32", "i32", "i32"], "i32");
    let tmpl = RustFunctionTemplate;
    let result = tmpl.generate(&spec);
    let code = result.code().unwrap();
    assert!(code.contains("#[test]"));
}

#[test]
fn test_function_template_rejects_struct_name() {
    let spec = GenerationSpec::simple("Point", vec!["f64", "f64"], "()");
    let tmpl = RustFunctionTemplate;
    assert!(!tmpl.matches(&spec));
}

#[test]
fn test_struct_template_matches_uppercase() {
    let mut spec = GenerationSpec::simple("Point", vec!["f64", "f64"], "()");
    spec.constraints.push("struct".into());
    let tmpl = RustStructTemplate;
    assert!(tmpl.matches(&spec));
    let result = tmpl.generate(&spec);
    let code = result.code().unwrap();
    assert!(code.contains("pub struct Point"), "code: {}", code);
}

#[test]
fn gate_generator_creates() {
    let g = CodeGenerator::new();
    assert!(g.template_count() > 0);
}

#[test]
fn gate_generates_add_function() {
    let g = CodeGenerator::new();
    let spec = GenerationSpec::simple("add", vec!["i32", "i32"], "i32");
    let result = g.generate(&spec);
    assert!(result.succeeded());
    let code = result.code().unwrap();
    assert!(code.contains("pub fn add"), "code: {}", code);
    assert!(code.contains("i32"));
}

#[test]
fn gate_generates_float_computation() {
    let g = CodeGenerator::new();
    let spec = GenerationSpec::simple("area", vec!["f64", "f64"], "f64");
    let result = g.generate(&spec);
    assert!(result.succeeded());
    let code = result.code().unwrap();
    assert!(code.contains("pub fn area"), "code: {}", code);
}

#[test]
fn gate_generated_code_has_tests() {
    let g = CodeGenerator::new();
    let spec = GenerationSpec::simple("multiply", vec!["i32", "i32"], "i32");
    let result = g.generate(&spec);
    let code = result.code().unwrap();
    assert!(code.contains("#[test]"), "code: {}", code);
}

#[test]
fn gate_generated_code_no_unsafe() {
    let g = CodeGenerator::new();
    let spec = GenerationSpec::simple("safe_fn", vec!["i32"], "i32");
    let result = g.generate(&spec);
    let code = result.code().unwrap();
    assert!(!code.contains("unsafe"), "code contains unsafe: {}", code);
}

#[test]
fn gate_pure_template_used_for_pure_constraint() {
    let g = CodeGenerator::new();
    let mut spec = GenerationSpec::simple("pure_calc", vec!["f64"], "f64");
    spec.constraints.push("pure".into());
    spec.constraints.push("no_side_effects".into());
    let result = g.generate(&spec);
    assert!(result.succeeded());
    let success = result.success().unwrap();
    assert_eq!(success.template_name, "RustPureTemplate");
}

#[test]
fn gate_generates_struct() {
    let g = CodeGenerator::new();
    let mut spec = GenerationSpec::simple("Point", vec!["f64", "f64"], "()");
    spec.constraints.push("struct".into());
    let result = g.generate(&spec);
    assert!(result.succeeded());
    let code = result.code().unwrap();
    assert!(code.contains("pub struct Point"), "code: {}", code);
}

#[test]
fn gate_generation_result_api() {
    let r: GenerationResult = GenerationResult::Failed {
        reason: "oops".into(),
    };
    assert!(!r.succeeded());
    assert!(r.code().is_none());
}

#[test]
fn gate_adaptive_with_failure() {
    let g = CodeGenerator::new();
    let mut spec = GenerationSpec::simple("adaptive_fn", vec!["i32"], "i32");
    spec.include_tests = true;
    let result = g.generate(&spec);
    assert!(result.succeeded());
}

#[test]
fn template_order_is_by_priority() {
    let g = CodeGenerator::new();
    assert_eq!(
        g.template_names(),
        vec!["RustPureTemplate", "RustStructTemplate", "RustFunctionTemplate"]
    );
    assert_eq!(g.template_count(), 3);
    assert_eq!(RustPureTemplate.priority(), 80);
    assert_eq!(RustStructTemplate.priority(), 60);
    assert_eq!(RustFunctionTemplate.priority(), 50);
}

#[test]
fn function_code_exact_text() {
    let spec = GenerationSpec::simple("add", vec!["i32", "i32"], "i32");
    let result = RustFunctionTemplate.generate(&spec);
    let expected = "/// Compute: add\npub fn add(a: i32, b: i32) -> i32 {\n    a + b\n}\n\n#[cfg(test)]\nmod tests {\n    use super::*;\n\n    #[test]\n    fn test_add() {\n        let result = add(a, b);\n        let _ = result;\n    }\n}\n";
    assert_eq!(result.code().unwrap(), expected);
}

#[test]
fn function_bodies_by_arity() {
    let body = |types: Vec<&str>, out: &str| {
        let mut spec = GenerationSpec::simple("f", types, out);
        spec.include_tests = false;
        RustFunctionTemplate.generate(&spec).code().unwrap().to_string()
    };
    assert!(body(vec![], "String").contains("    String::from(\"f\")"));
    assert!(body(vec![], "f64").contains("    0.0_f64"));
    assert!(body(vec![], "f32").contains("    0.0_f32"));
    assert!(body(vec![], "u8").contains("    todo!()"));
    assert!(body(vec!["i32"], "i32").contains("{\n    a\n}"));
    assert!(body(vec!["i32"], "i64").contains("    a as i64"));
    let many = body(vec!["u8"; 10], "u8");
    assert!(many.contains("    a + b + c + d + e + f + g + h\n"), "{}", many);
    assert!(many.contains("j: u8"));
}

#[test]
fn pure_bodies_by_arity() {
    let body = |types: Vec<&str>| {
        let mut spec = GenerationSpec::simple("p", types, "u32");
        spec.constraints.push("pure".into());
        spec.include_tests = false;
        RustPureTemplate.generate(&spec).code().unwrap().to_string()
    };
    assert_eq!(body(vec![]), "/// Pure function: p\n#[inline]\npub fn p() -> u32 {\n    42\n}\n");
    assert!(body(vec!["u32"]).contains("    a\n"));
    assert!(body(vec!["u32", "u32"]).contains("    a * b\n"));
    assert!(body(vec!["u32", "u32", "u32"]).contains("    a * b * c\n"));
}

#[test]
fn struct_code_exact_text() {
    let spec = GenerationSpec::simple("Point", vec!["f64", "f64", "u8"], "()")
        .with_description("A point");
    let code = RustStructTemplate.generate(&spec).code().unwrap().to_string();
    let expected = "/// A point\n#[derive(Debug, Clone)]\npub struct Point {\n    pub value: f64,\n    pub field_1: f64,\n    pub field_2: u8\n}\n\nimpl Point {\n    pub fn new(a: f64, b: f64, c: u8) -> Self {\n        Self { value: a, field_1: b, field_2: c }\n    }\n}\n";
    assert_eq!(code, expected);
}

#[test]
fn test_module_uses_at_most_four_arguments() {
    let spec = GenerationSpec::simple("f", vec!["u8"; 6], "u8");
    let code = RustFunctionTemplate.generate(&spec).code().unwrap().to_string();
    assert!(code.contains("let result = f(a, b, c, d);"), "{}", code);
}

#[test]
fn format_params_falls_back_to_x() {
    let spec = GenerationSpec::simple("f", vec!["u8"; 28], "u8");
    let params = spec.format_params();
    assert!(params.starts_with("a: u8, b: u8"));
    assert!(params.ends_with("z: u8, x: u8, x: u8"));
    assert_eq!(GenerationSpec::simple("f", vec![], "u8").format_params(), "");
}

#[test]
fn no_template_reason_names_function_and_inputs() {
    let g = CodeGenerator::new();
    let mut spec = GenerationSpec::simple("ptrmagic", vec!["*const u8"], "*mut u8");
    spec.constraints.push("raw_ptr".into());
    match g.generate(&spec) {
        GenerationResult::Failed { reason } => assert_eq!(
            reason,
            "No template matches spec for function 'ptrmagic' with 1 input(s)"
        ),
        GenerationResult::Success(_) => panic!("no template should fit"),
    }
}

#[test]
fn empty_name_fits_no_template() {
    let g = CodeGenerator::new();
    let spec = GenerationSpec::simple("", vec!["u8"], "u8");
    assert!(!g.generate(&spec).succeeded());
}

#[test]
fn uppercase_name_selects_struct_template() {
    let g = CodeGenerator::new();
    let spec = GenerationSpec::simple("Écu", vec!["u8"], "u8");
    let r = g.generate(&spec);
    assert_eq!(r.success().unwrap().template_name, "RustStructTemplate");
    let spec = GenerationSpec::simple("écu", vec!["u8"], "u8");
    let r = g.generate(&spec);
    assert_eq!(r.success().unwrap().template_name, "RustFunctionTemplate");
}

#[test]
fn attempts_count_previous_failures() {
    let failure = FailureContext {
        reason: "low security".into(),
        security_score_bits: 0.4f64.to_bits(),
        coverage_score_bits: 0.0f64.to_bits(),
    };
    let spec = GenerationSpec::simple("f", vec!["u8"], "u8");
    assert!(spec.is_first_attempt());
    assert_eq!(spec.attempt_number(), 1);
    let spec = spec.with_failure(failure.clone()).with_failure(failure);
    assert!(!spec.is_first_attempt());
    assert_eq!(spec.attempt_number(), 3);
    let r = CodeGenerator::new().generate(&spec);
    assert_eq!(r.success().unwrap().attempt_number, 3);
}

#[test]
fn unsafe_constraints_are_detected() {
    let mut spec = GenerationSpec::simple("f", vec![], "u8");
    assert!(!spec.requires_unsafe());
    spec.constraints.push("needs raw_ptr access".into());
    assert!(spec.requires_unsafe());
}

#[test]
fn success_record_queries() {
    let s = GenerationSuccess::new("unsafe { }\n#[test]".to_string(), "T", 2);
    assert!(s.has_unsafe());
    assert!(s.has_tests());
    let t = GenerationSuccess::new("fn f() {}".to_string(), "T", 1);
    assert!(!t.has_unsafe());
    assert!(!t.has_tests());
    assert_ne!(s.generation_id, t.generation_id);
}
