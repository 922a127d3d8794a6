use ec_kernel::isolation::{
    truncate, worker_outcome, worker_payload, IsolationError, MAX_EXCERPT_BYTES, WORKER_MAGIC,
};

#[test]
fn banner_and_payload_are_accepted() {
    let raw = format!("{}\n{{\"a\":1}}\n", WORKER_MAGIC);
    assert_eq!(worker_payload(&raw), Ok("{\"a\":1}".to_string()));
}

#[test]
fn banner_is_compared_after_trimming() {
    let raw = format!("  {}\r\npayload", WORKER_MAGIC);
    assert_eq!(worker_payload(&raw), Ok("payload".to_string()));
}

#[test]
fn foreign_output_is_a_protocol_error() {
    let err = worker_payload("running 3 tests\ntest x ... ok\n").unwrap_err();
    assert_eq!(
        err,
        IsolationError::Protocol("unexpected worker banner: running 3 tests".to_string())
    );
}

#[test]
fn missing_payload_line_gives_an_empty_payload() {
    let raw = format!("{}\n", WORKER_MAGIC);
    assert_eq!(worker_payload(&raw), Ok(String::new()));
}

#[test]
fn empty_output_is_a_protocol_error() {
    assert!(matches!(worker_payload(""), Err(IsolationError::Protocol(_))));
}

#[test]
fn short_text_is_kept_whole() {
    assert_eq!(truncate("boom"), "boom");
    let exact = "x".repeat(MAX_EXCERPT_BYTES);
    assert_eq!(truncate(&exact), exact);
}

#[test]
fn long_text_is_cut_at_the_limit() {
    let long = "y".repeat(MAX_EXCERPT_BYTES + 10);
    let cut = truncate(&long);
    assert_eq!(cut, format!("{}...", "y".repeat(MAX_EXCERPT_BYTES)));
}

#[test]
fn cut_never_splits_a_character() {
    // 'é' takes two bytes: 511 bytes of 'a' and then 'é' straddles the limit.
    let text = format!("{}é{}", "a".repeat(MAX_EXCERPT_BYTES - 1), "b".repeat(20));
    let cut = truncate(&text);
    assert_eq!(cut, format!("{}...", "a".repeat(MAX_EXCERPT_BYTES - 1)));
}

#[test]
fn long_foreign_banner_is_shortened_in_the_error() {
    let banner = "z".repeat(600);
    let err = worker_payload(&banner).unwrap_err();
    assert_eq!(
        err,
        IsolationError::Protocol(format!("unexpected worker banner: {}...", "z".repeat(512)))
    );
}

#[test]
fn isolation_errors_have_messages() {
    assert_eq!(
        IsolationError::WorkerNotFound.message(),
        "no analysis worker binary could be located"
    );
    assert_eq!(
        IsolationError::Spawn("no such file".to_string()).message(),
        "cannot start analysis worker: no such file"
    );
    assert_eq!(
        IsolationError::Timeout { millis: 300 }.message(),
        "analysis worker exceeded 300ms budget and was killed"
    );
    assert_eq!(
        IsolationError::Crashed { status: "exit status: 7".to_string(), stderr: "boom".to_string() }
            .message(),
        "analysis worker died (exit status: 7); stderr: boom"
    );
    assert_eq!(
        IsolationError::Protocol("bad".to_string()).message(),
        "analysis worker protocol violation: bad"
    );
    assert_eq!(
        IsolationError::Timeout { millis: 0 }.message(),
        "analysis worker exceeded 0ms budget and was killed"
    );
}

#[test]
fn timeout_wins_over_everything_else() {
    let ok = Some((true, "exit status: 0".to_string()));
    assert_eq!(
        worker_outcome(true, 300, ok, "anything", "boom"),
        Err(IsolationError::Timeout { millis: 300 })
    );
}

#[test]
fn missing_status_is_a_protocol_error() {
    assert_eq!(
        worker_outcome(false, 300, None, "", ""),
        Err(IsolationError::Protocol("worker status unavailable".to_string()))
    );
}

#[test]
fn unsuccessful_exit_is_a_crash_with_an_excerpt() {
    let long = "e".repeat(600);
    assert_eq!(
        worker_outcome(false, 300, Some((false, "exit status: 7".to_string())), "", &long),
        Err(IsolationError::Crashed {
            status: "exit status: 7".to_string(),
            stderr: format!("{}...", "e".repeat(512)),
        })
    );
}

#[test]
fn successful_exit_hands_over_the_payload() {
    let raw = format!("{}\n{{}}\n", WORKER_MAGIC);
    let ok = Some((true, "exit status: 0".to_string()));
    assert_eq!(worker_outcome(false, 300, ok.clone(), &raw, ""), Ok("{}".to_string()));
    assert!(matches!(
        worker_outcome(false, 300, ok, "garbage\n", ""),
        Err(IsolationError::Protocol(_))
    ));
}
