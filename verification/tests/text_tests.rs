use context_policy::text::{decimal, join, lines, same_text};

#[test]
fn lines_are_those_of_the_standard_library() {
    for text in [
        "",
        "\n",
        "a",
        "a\n",
        "a\nb",
        "a\r\nb\r\n",
        "a\r",
        "\r\n\r\n",
        "a\n\nb\r\r\nc\rd\n\r",
        "\u{e9}\u{2028}x\ny",
    ] {
        let expected: Vec<String> = text.lines().map(|line| line.to_string()).collect();
        assert_eq!(lines(text), expected, "{text:?}");
    }
}

#[test]
fn decimal_digits_are_those_of_the_standard_library() {
    for n in [0, 7, 9, 10, 99, 100, 1234567890, u64::MAX - 1, u64::MAX] {
        assert_eq!(decimal(n), n.to_string());
    }
}

#[test]
fn texts_are_compared_and_joined() {
    assert!(same_text("abc", "abc"));
    assert!(!same_text("abc", "abd"));
    assert!(!same_text("abc", "ab"));
    assert_eq!(join("ab", "\u{e9}"), "ab\u{e9}");
}
