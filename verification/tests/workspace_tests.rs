use ec_kernel::workspace::{is_skipped_dir, is_test_or_bench};

fn parts(items: &[&str]) -> Vec<String> {
    items.iter().map(|s| s.to_string()).collect()
}

#[test]
fn build_and_vcs_directories_are_skipped() {
    assert!(is_skipped_dir("target"));
    assert!(is_skipped_dir(".git"));
    assert!(is_skipped_dir("node_modules"));
    assert!(!is_skipped_dir("src"));
    assert!(!is_skipped_dir("targets"));
}

#[test]
fn files_under_tests_or_benches_are_test_code() {
    assert!(is_test_or_bench(&parts(&["crate", "tests", "a.rs"])));
    assert!(is_test_or_bench(&parts(&["benches", "b.rs"])));
    assert!(!is_test_or_bench(&parts(&["crate", "src", "lib.rs"])));
    assert!(!is_test_or_bench(&parts(&["crate", "src", "tests.rs"])));
    assert!(!is_test_or_bench(&parts(&[])));
}
