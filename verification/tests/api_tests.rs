use ec_kernel::api::{enough_history, is_authorized, API_KEY_HEADER, MAX_ANALYZE_BODY_BYTES};

#[test]
fn header_name_is_lowercase_and_stable() {
    assert_eq!(API_KEY_HEADER, "x-api-key");
}

#[test]
fn only_the_exact_key_is_authorized() {
    assert!(is_authorized(Some("secret"), "secret"));
    assert!(!is_authorized(Some("Secret"), "secret"));
    assert!(!is_authorized(Some("secret "), "secret"));
    assert!(!is_authorized(Some(""), "secret"));
    assert!(!is_authorized(None, "secret"));
}

#[test]
fn analyze_body_limit_is_two_mebibytes() {
    assert_eq!(MAX_ANALYZE_BODY_BYTES, 2_097_152);
}

#[test]
fn drift_needs_baseline_plus_window() {
    assert!(!enough_history(19, 10, 10));
    assert!(enough_history(20, 10, 10));
    assert!(enough_history(15, 10, 5));
    assert!(!enough_history(usize::MAX, usize::MAX, 1));
}

#[test]
fn submitted_proposal_is_pending() {
    let r = ec_kernel::api::ProposalResponse::pending("p-1".to_string());
    assert_eq!(r.id, "p-1");
    assert_eq!(r.status, "Pending");
}

#[test]
fn health_answer_reports_ok() {
    let r = ec_kernel::api::HealthResponse::healthy(3, 1, "0.1.0");
    assert_eq!(r.status, "ok");
    assert_eq!(r.memory_nodes, 3);
    assert_eq!(r.pending_proposals, 1);
    assert_eq!(r.version, "0.1.0");
}
