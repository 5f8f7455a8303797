use frippy::text::{
    chars_of, flatten_line_breaks, i32_text, i64_text, join_words, parse_i32_chars, split_chars,
    trim_chars, truncate_chars,
};

fn chars(s: &str) -> Vec<char> {
    s.chars().collect()
}

fn text(v: Vec<char>) -> String {
    v.into_iter().collect()
}

#[test]
fn decimal_text() {
    assert_eq!(text(i64_text(0)), "0");
    assert_eq!(text(i64_text(-12)), "-12");
    assert_eq!(text(i64_text(i64::MAX)), "9223372036854775807");
    assert_eq!(text(i32_text(i32::MIN)), "-2147483648");
}

#[test]
fn integer_parsing() {
    assert_eq!(parse_i32_chars(&chars("42")), Some(42));
    assert_eq!(parse_i32_chars(&chars("+42")), Some(42));
    assert_eq!(parse_i32_chars(&chars("-0")), Some(0));
    assert_eq!(parse_i32_chars(&chars("-2147483648")), Some(i32::MIN));
    assert_eq!(parse_i32_chars(&chars("2147483647")), Some(i32::MAX));
    assert_eq!(parse_i32_chars(&chars("2147483648")), None);
    assert_eq!(parse_i32_chars(&chars("99999999999999999999")), None);
    assert_eq!(parse_i32_chars(&chars("")), None);
    assert_eq!(parse_i32_chars(&chars("-")), None);
    assert_eq!(parse_i32_chars(&chars(" 1")), None);
    assert_eq!(parse_i32_chars(&chars("1x")), None);
    for s in ["17", "-5", "+0", "000123", "2147483647", "x", "--1", "+"] {
        assert_eq!(parse_i32_chars(&chars(s)), s.parse::<i32>().ok());
    }
}

#[test]
fn cutting_by_bytes() {
    assert_eq!(text(truncate_chars(&chars("hello"), 3)), "hel");
    assert_eq!(text(truncate_chars(&chars("hello"), 10)), "hello");
    assert_eq!(text(truncate_chars(&chars("héllo"), 3)), "hé");
    let mut s = String::from("héllo");
    s.truncate(3);
    assert_eq!(text(truncate_chars(&chars("héllo"), 3)), s);
}

#[test]
fn line_breaks_and_words() {
    assert_eq!(text(flatten_line_breaks(&chars("a\r\nb\n"))), "a|b|");
    assert_eq!(split_chars(&chars("a  b"), ' '), vec!["a", "", "b"]);
    assert_eq!(split_chars(&chars(""), ' '), vec![""]);
    assert_eq!(split_chars(&chars("x,y,"), ','), vec!["x", "y", ""]);
    let words = vec!["a".to_string(), String::new(), "b".to_string()];
    assert_eq!(text(join_words(&words)), "a  b");
    assert_eq!(text(trim_chars(&chars("\u{3000} a b\t\n"))), "a b");
    assert_eq!(text(trim_chars(&chars("   "))), "");
    assert_eq!(chars_of("ab"), vec!['a', 'b']);
}

#[test]
fn joining_split_words_gives_the_text_back() {
    for s in ["", " ", "a", "a b", " lead", "trail ", "a  b   c", "héllo wörld"] {
        let words = split_chars(&chars(s), ' ');
        assert_eq!(text(join_words(&words)), s);
    }
}
