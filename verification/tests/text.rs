use service_install::text::{
    char_is_whitespace, chars_of, decimal_string, split_lines, str_contains, str_eq, str_lt,
    str_starts_with, string_of, trimmed, trimmed_end_string,
};
use service_install::{Tense, install::Mode};

#[test]
fn tense_punctuation() {
    assert_eq!(Tense::Questioning.punct(), "?");
    assert_eq!(Tense::Past.punct(), ".");
    assert_eq!(Tense::Future.punct(), ".");
    assert_eq!(Tense::Active.punct(), ".");
    assert_eq!(Tense::Future.pick("a", "b", "c", "d"), "c");
}

#[test]
fn mode_words() {
    assert_eq!(Mode::User.to_string(), "user");
    assert_eq!(Mode::System.to_string(), "system");
    assert!(Mode::User.is_user());
    assert!(!Mode::System.is_user());
}

#[test]
fn chars_and_back() {
    assert_eq!(chars_of("a♥b"), vec!['a', '♥', 'b']);
    assert_eq!(string_of(&vec!['a', '♥', 'b']), "a♥b");
    assert_eq!(string_of(&vec![]), "");
}

#[test]
fn white_space_is_what_the_standard_library_calls_white_space() {
    for n in 0..=0x10FFFFu32 {
        if let Some(c) = char::from_u32(n) {
            assert_eq!(char_is_whitespace(c), c.is_whitespace(), "U+{n:04X}");
        }
    }
}

#[test]
fn lines_are_split_like_the_standard_library_splits_them() {
    for text in [
        "",
        "a",
        "a\n",
        "a\nb",
        "a\nb\n",
        "\n",
        "\n\n",
        "a\n\nb",
        "a\r\nb\r\n",
        "a\r",
        "a\r\n",
        "\r\n",
        "a\rb\n",
        "a\r\r\nb",
        "# x\n# y\n# z\n0 0 * * * run\n",
    ] {
        let expected: Vec<String> = text.lines().map(str::to_owned).collect();
        assert_eq!(split_lines(text), expected, "for {text:?}");
    }
}

#[test]
fn trimming_is_what_the_standard_library_does() {
    for text in ["", " ", " a ", "\t a b \n", "a", "\u{3000}x\u{2003}", " \"q\" tail  "] {
        assert_eq!(trimmed(text), text.trim(), "for {text:?}");
        assert_eq!(trimmed_end_string(text), text.trim_end(), "for {text:?}");
    }
}

#[test]
fn numbers_in_decimal() {
    assert_eq!(decimal_string(0), "0");
    assert_eq!(decimal_string(7), "7");
    assert_eq!(decimal_string(10), "10");
    assert_eq!(decimal_string(4096), "4096");
    assert_eq!(decimal_string(u64::MAX), u64::MAX.to_string());
}

#[test]
fn searching_text() {
    assert!(str_contains("hello world", "o w"));
    assert!(str_contains("hello", ""));
    assert!(!str_contains("hello", "world"));
    assert!(!str_contains("", "a"));
    assert!(str_starts_with("@reboot x", "@reboot"));
    assert!(!str_starts_with("@reb", "@reboot"));
    assert!(str_eq("abc", "abc"));
    assert!(!str_eq("abc", "abd"));
    assert!(!str_eq("abc", "ab"));
}

#[test]
fn order_of_strings() {
    let words = ["", "a", "ab", "b", "B", "aa", "é", "z", "a b"];
    for a in words {
        for b in words {
            assert_eq!(str_lt(a, b), a < b, "{a:?} < {b:?}");
        }
    }
}
