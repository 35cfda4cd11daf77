use sandbox_dispatch::text::{join, str_eq};

#[test]
fn str_eq_compares_every_byte() {
    assert!(str_eq("", ""));
    assert!(str_eq("stable", "stable"));
    assert!(!str_eq("stable", "stablE"));
    assert!(!str_eq("stable", "Stable"));
    assert!(!str_eq("stable", "stabl"));
    assert!(!str_eq("stabl", "stable"));
    assert!(!str_eq("", "a"));
    assert!(!str_eq("a", ""));
    assert!(str_eq("\u{e9}\u{4e16}\u{1f600}", "\u{e9}\u{4e16}\u{1f600}"));
    // One character against the two that look like it.
    assert!(!str_eq("\u{e9}", "e\u{301}"));
}

#[test]
fn join_puts_the_second_text_behind_the_first() {
    assert_eq!(join("rust-", "stable"), "rust-stable");
    assert_eq!(join("", "x"), "x");
    assert_eq!(join("x", ""), "x");
    assert_eq!(join("", ""), "");
    assert_eq!(join("unknown release channel ", "st\u{e4}ble"), "unknown release channel st\u{e4}ble");
}
