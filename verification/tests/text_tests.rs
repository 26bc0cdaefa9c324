use aria_gui::text::{chars_of, lines_of, same_text, starts_with, string_of, trim_bounds, trim_str};

#[test]
fn trim_removes_surrounding_whitespace() {
    assert_eq!(trim_str("  hello world \t\r\n"), "hello world");
    assert_eq!(trim_str("\u{3000}x\u{a0}"), "x");
    assert_eq!(trim_str("   "), "");
    assert_eq!(trim_str(""), "");
    assert_eq!(trim_str("a b"), "a b");
}

#[test]
fn trim_agrees_with_std() {
    for s in ["", " ", "x", " x ", "\u{2028}ab\u{85}", "\u{200b}a", "tab\tin"] {
        assert_eq!(trim_str(s), s.trim());
    }
}

#[test]
fn trim_bounds_mark_the_kept_part() {
    let cs = chars_of("  ab ");
    assert_eq!(trim_bounds(&cs), (2, 4));
}

#[test]
fn lines_are_cut_like_std_lines() {
    let cases = ["", "a", "a\n", "a\nb", "a\n\nb\n", "\n", "x\r\ny\r\n", "\n\n"];
    for s in cases {
        let got = lines_of(&chars_of(s));
        let want: Vec<String> = s.split_inclusive('\n').map(|l| l.strip_suffix('\n').unwrap_or(l).to_string()).collect();
        assert_eq!(got, want, "input {:?}", s);
    }
    assert_eq!(lines_of(&chars_of("a\nb\n")), vec!["a".to_string(), "b".to_string()]);
}

#[test]
fn prefixes_and_equality() {
    assert!(starts_with(&chars_of("data: x"), &chars_of("data: ")));
    assert!(!starts_with(&chars_of("data"), &chars_of("data: ")));
    assert!(same_text("abc", "abc"));
    assert!(!same_text("abc", "abd"));
    assert_eq!(string_of(&chars_of("hello"), 1, 4), "ell");
}
