use ec_kernel::complexity::ComplexityMetrics;
use ec_kernel::coverage::CoverageMetrics;
use ec_kernel::metrics::{count_functions, count_lines, count_pattern, count_test_functions};
use ec_kernel::reversibility::ReversibilityMetrics;
use ec_kernel::security::SecurityMetrics;

#[test]
fn count_pattern_works() {
    assert_eq!(count_pattern("unsafe { unsafe {", "unsafe"), 2);
    assert_eq!(count_pattern("no match here", "unsafe"), 0);
}

#[test]
fn count_functions_works() {
    assert_eq!(count_functions("fn main() {} fn foo() {}"), 2);
    assert_eq!(count_functions("no functions"), 0);
}

#[test]
fn count_test_functions_works() {
    let code = "#[test]\nfn test_a() {} #[tokio::test]\nfn test_b() {}";
    assert_eq!(count_test_functions(code), 2);
}

#[test]
fn branching_increases_complexity() {
    let code = "fn foo() { if x { } if y { } }";
    let m = ComplexityMetrics::from_code(code);
    assert_eq!(m.cyclomatic, 2);
}

#[test]
fn match_counts_as_branch() {
    let code = "fn foo() { match x { 1 => {}, 2 => {} } }";
    let m = ComplexityMetrics::from_code(code);
    assert!(m.cyclomatic >= 1);
}

#[test]
fn fs_counted_as_side_effect() {
    let m = ReversibilityMetrics::from_code("fs::write(\"a\", \"b\")");
    assert!(m.side_effects >= 1);
}

#[test]
fn count_pattern_is_non_overlapping() {
    assert_eq!(count_pattern("aaaa", "aa"), 2);
    assert_eq!(count_pattern("aaa", "aa"), 1);
}

#[test]
fn count_pattern_empty_pattern_matches_between_chars() {
    assert_eq!(count_pattern("abc", ""), 4);
    assert_eq!(count_pattern("", ""), 1);
    assert_eq!(count_pattern("é", ""), 2);
}

#[test]
fn count_pattern_agrees_with_str_matches() {
    let cases = [
        ("if a && b || c { if d {} }", "if "),
        ("ééé é", "é"),
        ("abababab", "aba"),
        ("", "x"),
    ];
    for (code, pat) in cases {
        assert_eq!(count_pattern(code, pat), code.matches(pat).count());
    }
}

#[test]
fn count_lines_skips_blank_lines() {
    assert_eq!(count_lines(""), 0);
    assert_eq!(count_lines("a\n\n  \t\nb\r\n"), 2);
    assert_eq!(count_lines("  x  "), 1);
    assert_eq!(count_lines("\u{3000}\n\u{a0}y"), 1);
}

#[test]
fn count_lines_agrees_with_std_lines() {
    let code = "fn a() {}\n\n   \n\tlet x = 1;\r\n\u{2003}\nlast";
    let expected = code.lines().filter(|l| !l.trim().is_empty()).count();
    assert_eq!(count_lines(code), expected);
}

#[test]
fn security_metrics_counts_each_marker() {
    let m = SecurityMetrics::from_code("unsafe { x.unwrap() } y.expect(\"z\") panic!(\"a\") unsafe");
    assert_eq!(m.unsafe_blocks, 2);
    assert_eq!(m.unwrap_calls, 1);
    assert_eq!(m.expect_calls, 1);
    assert_eq!(m.panic_calls, 1);
    assert!(!m.is_safe());
    assert!(SecurityMetrics::from_code("fn main() { let x = 1; }").is_safe());
}

#[test]
fn coverage_full_only_with_functions() {
    let none = CoverageMetrics::from_code("let x = 1;");
    assert_eq!(none.total_functions, 0);
    assert!(!none.is_fully_covered());
    let all = CoverageMetrics::from_code("#[test]\nfn test_a() {} #[test]\nfn test_b() {}");
    assert_eq!(all.total_functions, 2);
    assert_eq!(all.test_functions, 2);
    assert!(all.is_fully_covered());
    let half = CoverageMetrics::from_code("#[test]\nfn test_it() {} fn main() {}");
    assert!(!half.is_fully_covered());
}

#[test]
fn complexity_counts_every_branch_marker() {
    let m = ComplexityMetrics::from_code(
        "fn foo() { if a && b || c { } else if d { } match e {} while f {} for g in h {} loop {} x? }",
    );
    // "if " twice (once inside "else if "), then one each of "else if",
    // "match ", "&&", "||", "while ", "for ", "loop " and "?".
    assert_eq!(m.cyclomatic, 10);
    assert_eq!(m.function_count, 1);
}

#[test]
fn reversibility_counts_and_purity() {
    let m = ReversibilityMetrics::from_code("println!(\"hi\"); print!(\"x\"); std::process::exit(0); f.flush()");
    assert_eq!(m.side_effects, 4);
    assert!(!m.is_pure());
    assert!(ReversibilityMetrics::from_code("fn main() { let x = 1; }").is_pure());
}
