use exmo_exchange::utils::{format_error, text_contains};

fn chain(items: &[&str]) -> Vec<String> {
    items.iter().map(|s| s.to_string()).collect()
}

#[test]
fn causes_are_printed_innermost_first() {
    assert_eq!(format_error(&chain(&["outer", "middle", "inner"]), None), "inner\nmiddle\nouter\n");
    assert_eq!(format_error(&chain(&[]), None), "");
}

#[test]
fn backtrace_without_frames_gets_header() {
    assert_eq!(format_error(&chain(&["e"]), Some("stack backtrace:")), "e\n\nRelevant backtrace:\n");
    assert_eq!(format_error(&chain(&["e"]), Some("")), "e\n\nRelevant backtrace:\n");
}

#[test]
fn backtrace_keeps_project_frames_only() {
    let bt = "stack backtrace:\n  0: transactions_lib::services::sell\n      at src/services.rs:10\n  1: std::rt::lang_start\n      at transactions_lib/x.rs:1\n  2: transactions_lib::main";
    assert_eq!(
        format_error(&chain(&["boom"]), Some(bt)),
        "boom\n  0: transactions_lib::services::sell\n      at src/services.rs:10\n  2: transactions_lib::main\n"
    );
    assert_eq!(format_error(&chain(&["boom"]), Some("header\n  0: std::x\n  at y")), "boom\n");
    assert_eq!(format_error(&chain(&["boom"]), Some("header\n")), "boom\n");
}

#[test]
fn contains_finds_substrings() {
    assert!(text_contains("a transactions_lib b", "transactions_lib"));
    assert!(text_contains("abc", ""));
    assert!(text_contains("", ""));
    assert!(!text_contains("ab", "abc"));
    assert!(!text_contains("transaction_lib", "transactions_lib"));
    assert!(text_contains("ééx", "éx"));
}
