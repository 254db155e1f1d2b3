use gitpop::text::{
    chars_of, ends_with, is_whitespace, line_spans, push_decimal, same_text, skip_spaces,
    span_equals, string_of, trim, trim_span, word_span, LineSpan,
};

fn lines_of(text: &str) -> Vec<String> {
    let chars = chars_of(text);
    line_spans(&chars).iter().map(|s| string_of(&chars, s.start, s.end)).collect()
}

fn std_lines(text: &str) -> Vec<String> {
    text.lines().map(|l| l.to_string()).collect()
}

fn decimal(n: u64) -> String {
    let mut out = String::new();
    push_decimal(&mut out, n);
    out
}

const SAMPLES: [&str; 22] = [
    "",
    "a",
    "a\n",
    "a\nb",
    "a\nb\n",
    "\n",
    "\n\n",
    "a\n\nb",
    "a\r\nb\r\n",
    "a\rb",
    "a\r",
    "a\r\n",
    "\r\n",
    "\r",
    "a\r\r\nb",
    "\n\r\n\r",
    "  lead",
    "trail  ",
    "\t both \u{a0}\u{3000}",
    " \n ",
    "é\nü\r\n漢字",
    " \u{2028}x\u{2029} ",
];

#[test]
fn white_space_is_what_std_calls_white_space() {
    for n in 0..=0x10FFFFu32 {
        if let Some(c) = char::from_u32(n) {
            assert_eq!(is_whitespace(c), c.is_whitespace(), "U+{n:04X}");
        }
    }
}

#[test]
fn white_space_code_points() {
    for c in ['\t', '\n', '\u{b}', '\u{c}', '\r', ' ', '\u{85}', '\u{a0}', '\u{1680}', '\u{2000}',
        '\u{200a}', '\u{2028}', '\u{2029}', '\u{202f}', '\u{205f}', '\u{3000}']
    {
        assert!(is_whitespace(c));
    }
    for c in ['a', '0', '\u{0}', '\u{8}', '\u{e}', '\u{1f}', '!', '\u{200b}', '\u{feff}', '\u{180e}'] {
        assert!(!is_whitespace(c));
    }
}

#[test]
fn chars_and_back() {
    for s in SAMPLES {
        let chars = chars_of(s);
        assert_eq!(chars, s.chars().collect::<Vec<char>>());
        assert_eq!(string_of(&chars, 0, chars.len()), s);
    }
    let chars = chars_of("héllo");
    assert_eq!(string_of(&chars, 1, 4), "éll");
    assert_eq!(string_of(&chars, 2, 2), "");
}

#[test]
fn trim_is_std_trim() {
    for s in SAMPLES {
        assert_eq!(trim(s), s.trim(), "{s:?}");
    }
    assert_eq!(trim("  a b  "), "a b");
    assert_eq!(trim(" \t\r\n"), "");
}

#[test]
fn trim_span_stays_within_its_bounds() {
    let chars = chars_of("ab  cd  ef");
    assert_eq!(trim_span(&chars, 2, 8), (4, 6));
    assert_eq!(trim_span(&chars, 2, 4), (4, 4));
    assert_eq!(trim_span(&chars, 0, 10), (0, 10));
    assert_eq!(trim_span(&chars, 3, 3), (3, 3));
    assert_eq!(skip_spaces(&chars, 2, 8), 4);
    assert_eq!(skip_spaces(&chars, 6, 8), 8);
}

#[test]
fn lines_are_std_lines() {
    for s in SAMPLES {
        assert_eq!(lines_of(s), std_lines(s), "{s:?}");
    }
}

#[test]
fn line_spans_leave_out_terminators() {
    let chars = chars_of("ab\r\n\ncd");
    assert_eq!(
        line_spans(&chars),
        vec![
            LineSpan { start: 0, end: 2 },
            LineSpan { start: 4, end: 4 },
            LineSpan { start: 5, end: 7 },
        ]
    );
    assert_eq!(lines_of("one\ntwo\r\nthree"), vec!["one", "two", "three"]);
    assert_eq!(lines_of("a\r"), vec!["a\r"]);
    assert_eq!(lines_of("a\n\n"), vec!["a", ""]);
}

#[test]
fn first_word_is_std_first_word() {
    for s in SAMPLES {
        let chars = chars_of(s);
        let word = word_span(&chars, 0, chars.len()).map(|(a, b)| string_of(&chars, a, b));
        assert_eq!(word.as_deref(), s.split_whitespace().next(), "{s:?}");
    }
    let chars = chars_of("  one two");
    assert_eq!(word_span(&chars, 0, 9), Some((2, 5)));
    assert_eq!(word_span(&chars, 5, 9), Some((6, 9)));
    assert_eq!(word_span(&chars, 0, 2), None);
    assert_eq!(word_span(&chars, 3, 4), Some((3, 4)));
}

#[test]
fn text_comparison() {
    assert!(same_text("", ""));
    assert!(same_text("abc", "abc"));
    assert!(!same_text("abc", "abd"));
    assert!(!same_text("abc", "ab"));
    assert!(!same_text("ab", "abc"));
    assert!(!same_text("abc", "ABC"));
    let chars = chars_of("xxabcxx");
    assert!(span_equals(&chars, 2, 5, &chars_of("abc")));
    assert!(!span_equals(&chars, 2, 5, &chars_of("abx")));
    assert!(!span_equals(&chars, 2, 4, &chars_of("abc")));
    assert!(span_equals(&chars, 3, 3, &chars_of("")));
}

#[test]
fn suffixes() {
    for (s, suffix) in [("", ""), ("a", ""), ("abc", "c"), ("abc", "bc"), ("abc", "abc"), ("abc", "xabc"),
        ("abc", "ab"), ("", "a"), ("a/", "/"), ("a/b", "/"), ("é", "é")]
    {
        assert_eq!(ends_with(s, suffix), s.ends_with(suffix), "{s:?} {suffix:?}");
    }
}

#[test]
fn decimal_digits() {
    for n in [0u64, 1, 9, 10, 11, 99, 100, 101, 1024, 65535, 1234567890, u64::MAX] {
        assert_eq!(decimal(n), n.to_string());
    }
    let mut out = "code ".to_string();
    push_decimal(&mut out, 404);
    assert_eq!(out, "code 404");
}
