use ec_kernel::depth_guard::{
    check_nesting_safety, parse_admission, DepthError, MAX_DELIMITER_DEPTH, MAX_UNARY_CHAIN,
};

#[test]
fn shallow_code_passes() {
    let code = "fn main() { let x = (1 + 2); [1, 2, 3]; }";
    assert!(check_nesting_safety(code).is_ok());
}

#[test]
fn deep_braces_rejected() {
    let mut code = String::from("fn f() ");
    for _ in 0..150 {
        code.push('{');
    }
    code.push_str("let x = 1;");
    for _ in 0..150 {
        code.push('}');
    }
    assert!(matches!(
        check_nesting_safety(&code),
        Err(DepthError::DelimiterDepthExceeded { .. })
    ));
}

#[test]
fn deep_unary_rejected() {
    let code = format!("fn f() {{ let x: {}u8 = todo!(); }}", "&".repeat(100));
    assert!(matches!(
        check_nesting_safety(&code),
        Err(DepthError::UnaryChainExceeded { .. })
    ));
}

#[test]
fn refusal_reports_limit_plus_one() {
    let code = "(".repeat(200);
    assert_eq!(
        check_nesting_safety(&code),
        Err(DepthError::DelimiterDepthExceeded { depth: 129, max: 128 })
    );
    let code = "*".repeat(70);
    assert_eq!(
        check_nesting_safety(&code),
        Err(DepthError::UnaryChainExceeded { count: 65, max: 64 })
    );
}

#[test]
fn exactly_at_limits_passes() {
    let code = format!("{}{}", "[".repeat(MAX_DELIMITER_DEPTH), "]".repeat(MAX_DELIMITER_DEPTH));
    assert!(check_nesting_safety(&code).is_ok());
    let code = format!("x{}y", "! ".repeat(MAX_UNARY_CHAIN));
    assert!(check_nesting_safety(&code).is_ok());
}

#[test]
fn closing_resets_and_never_underflows() {
    let code = format!("}}}}}}{}", "{".repeat(128));
    assert!(check_nesting_safety(&code).is_ok());
}

#[test]
fn blanks_do_not_break_unary_chain() {
    let code = "& ".repeat(65);
    assert_eq!(
        check_nesting_safety(&code),
        Err(DepthError::UnaryChainExceeded { count: 65, max: 64 })
    );
    let code = "&a".repeat(200);
    assert!(check_nesting_safety(&code).is_ok());
}

#[test]
fn comments_and_literals_are_skipped() {
    let deep = "{".repeat(300);
    assert!(check_nesting_safety(&format!("// {}\nfn f() {{}}", deep)).is_ok());
    assert!(check_nesting_safety(&format!("/* /* {} */ */ fn f() {{}}", deep)).is_ok());
    assert!(check_nesting_safety(&format!("let s = \"{}\";", deep)).is_ok());
    assert!(check_nesting_safety(&format!("let s = \"\\\"{}\";", deep)).is_ok());
    assert!(check_nesting_safety(&format!("let c = '{}';", "{")).is_ok());
}

#[test]
fn lifetime_quote_stops_at_semicolon() {
    // The quote of a lifetime has no partner: the skip stops at `;` and
    // the delimiters after it are counted again.
    let code = format!("let r: &'static str = x; {}", "(".repeat(129));
    assert!(matches!(
        check_nesting_safety(&code),
        Err(DepthError::DelimiterDepthExceeded { .. })
    ));
}

#[test]
fn unterminated_block_comment_leaves_last_byte_scanned() {
    assert!(check_nesting_safety("/* never closed").is_ok());
    let code = format!("{}/*{}", "{".repeat(127), "{");
    assert!(check_nesting_safety(&code).is_ok());
    let code = format!("{}/*{}", "{".repeat(128), "{");
    assert!(matches!(
        check_nesting_safety(&code),
        Err(DepthError::DelimiterDepthExceeded { .. })
    ));
}

#[test]
fn refusals_have_messages() {
    assert_eq!(
        DepthError::DelimiterDepthExceeded { depth: 129, max: 128 }.message(),
        "Nesting depth 129 exceeds safety limit of 128"
    );
    assert_eq!(
        DepthError::UnaryChainExceeded { count: 65, max: 64 }.message(),
        "Unary operator chain 65 exceeds safety limit of 64"
    );
}

#[test]
fn few_openers_anywhere_are_accepted() {
    let code = format!("{}{}", "([{".repeat(42), ")]}".repeat(42));
    assert_eq!(check_nesting_safety(&code), Ok(()));
}

#[test]
fn long_unary_run_after_other_code_is_refused() {
    let code = format!("fn f() {{ let y = 1; let x = {}y; }}", "!".repeat(70));
    assert_eq!(
        check_nesting_safety(&code),
        Err(DepthError::UnaryChainExceeded { count: 65, max: 64 })
    );
}

#[test]
fn runs_inside_comments_and_strings_are_skipped() {
    let code = format!("// {}\nlet s = \"{}\";", "(".repeat(200), "&".repeat(200));
    assert_eq!(check_nesting_safety(&code), Ok(()));
}

#[test]
fn generic_brackets_are_not_counted() {
    let code = format!("fn f() {{ let x: {}i32{} = todo!(); }}", "Vec<".repeat(600), ">".repeat(600));
    assert_eq!(check_nesting_safety(&code), Ok(()));
}

#[test]
fn refused_text_is_answered_with_the_guard_message() {
    let code = format!("fn f() {}let x = 1;{}", "{".repeat(512), "}".repeat(512));
    assert_eq!(
        parse_admission(&code),
        Err("Nesting depth 129 exceeds safety limit of 128".to_string())
    );
    assert_eq!(parse_admission("fn f() { let x = &&y; }"), Ok(()));
}
