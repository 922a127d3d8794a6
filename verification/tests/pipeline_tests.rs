use ec_kernel::isolation::{truncate, IsolationError, WORKER_MAGIC};
use ec_kernel::pipeline::{
    after_attempt, after_generation_failure, attempt_label, determine_verdict, first_step,
    IterationStep, PipelineVerdict, RealityCheck,
};

#[test]
fn security_is_checked_first() {
    let v = determine_verdict(false, false, "bad".into(), false, None, RealityCheck::Missing);
    assert!(matches!(v, PipelineVerdict::ExecutionFailed { ref reason } if reason == "Security violation detected"));
}

#[test]
fn constitution_is_checked_second() {
    let v = determine_verdict(true, false, "too risky".into(), false, None, RealityCheck::Missing);
    assert!(matches!(v, PipelineVerdict::RejectedByConstitution { ref reason } if reason == "too risky"));
}

#[test]
fn failed_execution_uses_its_message() {
    let v = determine_verdict(true, true, String::new(), false, Some("boom".into()), RealityCheck::Trustworthy);
    assert!(matches!(v, PipelineVerdict::RejectedByReality { ref reason } if reason == "boom"));
    let v = determine_verdict(true, true, String::new(), false, None, RealityCheck::Trustworthy);
    assert!(matches!(v, PipelineVerdict::RejectedByReality { ref reason } if reason == "Execution failed"));
}

#[test]
fn reality_vector_decides_last() {
    let v = determine_verdict(true, true, String::new(), true, None, RealityCheck::Missing);
    assert!(matches!(v, PipelineVerdict::ExecutionFailed { ref reason } if reason == "No reality vector produced"));
    let v = determine_verdict(
        true,
        true,
        String::new(),
        true,
        None,
        RealityCheck::Untrustworthy { detail: "correctness=0.1".into() },
    );
    assert!(matches!(v, PipelineVerdict::RejectedByReality { ref reason } if reason == "Not trustworthy: correctness=0.1"));
    let v = determine_verdict(true, true, String::new(), true, None, RealityCheck::Trustworthy);
    assert!(v.is_accepted());
}

#[test]
fn summary_lines() {
    assert_eq!(PipelineVerdict::Accepted.summary("42"), "Pipeline: ACCEPTED (run=42)");
    let v = PipelineVerdict::RejectedByReality { reason: "slow".into() };
    assert_eq!(v.summary("7"), "Pipeline: REJECTED BY REALITY \u{2014} slow (run=7)");
    let v = PipelineVerdict::RejectedAfterMaxAttempts { reason: "Failed after 3 attempts".into() };
    assert_eq!(
        v.summary("x"),
        "Pipeline: REJECTED AFTER MAX ATTEMPTS \u{2014} Failed after 3 attempts (run=x)"
    );
    assert!(!v.is_accepted());
}

#[test]
fn retry_loop_control() {
    assert!(matches!(first_step(3), IterationStep::Attempt { number: 1 }));
    match first_step(0) {
        IterationStep::Finished { total_iterations, verdict } => {
            assert_eq!(total_iterations, 0);
            assert!(matches!(verdict, PipelineVerdict::RejectedAfterMaxAttempts { ref reason } if reason == "Failed after 0 attempts"));
        }
        IterationStep::Attempt { .. } => panic!("no attempt is allowed"),
    }
    assert!(matches!(after_attempt(3, 1, false), IterationStep::Attempt { number: 2 }));
    match after_attempt(3, 2, true) {
        IterationStep::Finished { total_iterations, verdict } => {
            assert_eq!(total_iterations, 2);
            assert!(verdict.is_accepted());
        }
        IterationStep::Attempt { .. } => panic!("accepted code ends the loop"),
    }
    match after_attempt(3, 3, false) {
        IterationStep::Finished { total_iterations, verdict } => {
            assert_eq!(total_iterations, 3);
            assert!(matches!(verdict, PipelineVerdict::RejectedAfterMaxAttempts { ref reason } if reason == "Failed after 3 attempts"));
        }
        IterationStep::Attempt { .. } => panic!("attempts are exhausted"),
    }
    match after_generation_failure(2, "no template".into()) {
        IterationStep::Finished { total_iterations, verdict } => {
            assert_eq!(total_iterations, 1);
            assert!(matches!(verdict, PipelineVerdict::GenerationFailed { ref reason } if reason == "no template"));
        }
        IterationStep::Attempt { .. } => panic!("generation failure ends the loop"),
    }
}

#[test]
fn attempt_labels() {
    assert_eq!(attempt_label("add", 1), "add-iter-1");
    assert_eq!(attempt_label("multiply", 12), "multiply-iter-12");
}

#[test]
fn truncate_keeps_short_text() {
    assert_eq!(truncate("boom"), "boom");
    let exact = "a".repeat(512);
    assert_eq!(truncate(&exact), exact);
}

#[test]
fn truncate_cuts_on_char_boundary() {
    let long = "a".repeat(600);
    assert_eq!(truncate(&long), format!("{}...", "a".repeat(512)));
    let text = format!("{}{}", "a".repeat(511), "é".repeat(10));
    assert_eq!(truncate(&text), format!("{}...", "a".repeat(511)));
}

#[test]
fn isolation_errors_and_banner() {
    assert_eq!(WORKER_MAGIC, "EC-ANALYZE-WORKER-V1");
    let e = IsolationError::Timeout { millis: 300 };
    assert_eq!(e, IsolationError::Timeout { millis: 300 });
    assert_ne!(e, IsolationError::WorkerNotFound);
}
