use repo_init::text::{same_text, starts_with_dashes, trimmed};

#[test]
fn trims_both_ends() {
    assert_eq!(trimmed("  a b \n"), "a b");
    assert_eq!(trimmed("\t\r\n"), "");
    assert_eq!(trimmed(""), "");
    assert_eq!(trimmed("\u{3000}x\u{a0}"), "x");
    assert_eq!(trimmed("plain"), "plain");
}

#[test]
fn trim_agrees_with_std() {
    for s in ["  é  ", "\u{2028}ü\u{85}", " \u{200b} ", "x\u{1680}y "] {
        assert_eq!(trimmed(s), s.trim());
    }
}

#[test]
fn dash_prefix() {
    assert!(starts_with_dashes("--x"));
    assert!(starts_with_dashes("--"));
    assert!(!starts_with_dashes("-x"));
    assert!(!starts_with_dashes(""));
    assert!(!starts_with_dashes("a--"));
}

#[test]
fn text_equality() {
    assert!(same_text("--name", "--name"));
    assert!(!same_text("--name", "--names"));
    assert!(!same_text("--nam", "--name"));
    assert!(same_text("", ""));
}
