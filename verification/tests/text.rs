use boxy::text::{
    chars_of, contains, copy_str, decimal_of, find, is_whitespace, join2, join3, join_strings,
    remove_all, same_text, signed_decimal_of, split_lines, split_on, split_words, starts_with,
    string_of, strip_both, strip_leading, strip_trailing, trimmed,
};

fn samples() -> Vec<&'static str> {
    vec![
        "",
        " ",
        "a",
        "  a  ",
        "a b",
        "  requests   2.31.0  ",
        "\tone\ttwo\r\n",
        "line1\nline2",
        "line1\nline2\n",
        "line1\r\nline2\r\n",
        "line1\r\nline2\r",
        "\n",
        "\n\n",
        "a\n\nb",
        "\r",
        "x\u{a0}y\u{2003}z",
        "\u{3000}wide\u{3000}",
        "jq (1.6) < 1.7",
        "名前 版本\n一 二\n",
        "a=b=c",
        "@scope/name@1.0.0",
    ]
}

fn text(v: &Vec<char>) -> String {
    v.iter().collect()
}

fn texts(v: &Vec<Vec<char>>) -> Vec<String> {
    v.iter().map(text).collect()
}

#[test]
fn chars_round_trip() {
    for s in samples() {
        let v = chars_of(s);
        assert_eq!(v, s.chars().collect::<Vec<char>>());
        assert_eq!(string_of(&v), s);
        assert_eq!(copy_str(s), s);
    }
}

#[test]
fn whitespace_is_the_unicode_property() {
    let mut n: u32 = 0;
    while n <= 0x3100 {
        if let Some(c) = char::from_u32(n) {
            assert_eq!(is_whitespace(c), c.is_whitespace(), "U+{:04X}", n);
        }
        n += 1;
    }
    assert!(!is_whitespace('\u{feff}'));
    assert!(!is_whitespace('\u{200b}'));
}

#[test]
fn trimmed_is_str_trim() {
    for s in samples() {
        assert_eq!(text(&trimmed(&chars_of(s))), s.trim(), "{:?}", s);
    }
}

#[test]
fn split_words_is_split_whitespace() {
    for s in samples() {
        let expected: Vec<String> = s.split_whitespace().map(|w| w.to_string()).collect();
        assert_eq!(texts(&split_words(&chars_of(s))), expected, "{:?}", s);
    }
}

#[test]
fn split_lines_is_str_lines() {
    for s in samples() {
        let expected: Vec<String> = s.lines().map(|w| w.to_string()).collect();
        assert_eq!(texts(&split_lines(&chars_of(s))), expected, "{:?}", s);
    }
}

#[test]
fn split_on_is_str_split() {
    for s in samples() {
        for sep in ['=', '@', '#', '\n'] {
            let expected: Vec<String> = s.split(sep).map(|w| w.to_string()).collect();
            assert_eq!(texts(&split_on(&chars_of(s), sep)), expected, "{:?}", s);
        }
    }
}

#[test]
fn starts_with_and_contains_are_those_of_str() {
    for s in samples() {
        for p in ["", "a", "line", "==>", "1.", "@", "二"] {
            let v = chars_of(s);
            assert_eq!(starts_with(&v, p), s.starts_with(p), "{:?} {:?}", s, p);
            assert_eq!(contains(&v, p), s.contains(p), "{:?} {:?}", s, p);
            let at = find(&v, &chars_of(p));
            let expected = s.find(p).map(|b| s[..b].chars().count());
            assert_eq!(at, expected, "{:?} {:?}", s, p);
        }
    }
}

#[test]
fn remove_all_is_replace_with_nothing() {
    for s in ["Version: 1.0", "Version:Version: x", "aaa", "abab ab", "", "Summary: a Summary: b"] {
        for p in ["Version:", "Summary:", "a", "ab", "aa"] {
            assert_eq!(text(&remove_all(&chars_of(s), p)), s.replace(p, ""), "{:?} {:?}", s, p);
        }
    }
    assert_eq!(text(&remove_all(&chars_of("abc"), "")), "abc");
}

#[test]
fn strip_is_trim_matches() {
    for s in ["(1.6)", "((x))", "1.7", "()", "", "^1.2.3", "~^2", "\"0.4.1\" ", "1.0:", "(a)b(c)"] {
        let v = chars_of(s);
        assert_eq!(text(&strip_both(&v, "()")), s.trim_matches(&['(', ')'] as &[char]));
        assert_eq!(text(&strip_leading(&v, "^~")), s.trim_start_matches(['^', '~']));
        assert_eq!(text(&strip_trailing(&v, ":")), s.trim_end_matches(':'));
        assert_eq!(text(&strip_both(&v, "\" ")), s.trim_matches(&['"', ' '] as &[char]));
    }
}

#[test]
fn decimal_is_to_string() {
    for n in [0u64, 1, 9, 10, 11, 99, 100, 12345, u64::MAX] {
        assert_eq!(decimal_of(n), n.to_string());
    }
    for n in [0i64, 1, -1, 10, -10, i64::MAX, i64::MIN] {
        assert_eq!(signed_decimal_of(n), n.to_string());
    }
}

#[test]
fn joins() {
    assert_eq!(join2("a", "b"), "ab");
    assert_eq!(join3("a", "-", "b"), "a-b");
    let none: Vec<String> = Vec::new();
    assert_eq!(join_strings(&none, " "), "");
    assert_eq!(join_strings(&vec!["a".to_string()], " "), "a");
    assert_eq!(
        join_strings(&vec!["install".to_string(), "--force".to_string(), "jq".to_string()], " "),
        "install --force jq"
    );
    assert!(same_text("jq", "jq"));
    assert!(!same_text("jq", "jr"));
    assert!(!same_text("jq", "jqq"));
}
