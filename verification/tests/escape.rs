use service_install::install::init::extract_path::{eat_head, split_unescaped_whitespace_once};
use service_install::install::init::extract_path::unsystemd_quote::{
    decoded_unquoted_first_segment, escape_hex2, escape_hex4, escape_hex8, escape_oct2,
    first_segement, to_digit, unicode_char_from_char_digits, UnquoteError,
};
use service_install::install::init::{autogenerated_comment, ShellEscape, SystemdEscape};

#[test]
fn escape_with_exclamation() {
    let s = "message with spaces/1/11:00..16:30/!".to_string().systemd_escape();
    assert_eq!(&s, "\"message with spaces/1/11:00..16:30/!\"");
}

#[test]
fn escape_single_letter() {
    let s = "v".to_string().systemd_escape();
    assert_eq!(&s, "\"v\"");
}

#[test]
fn systemd_escape_protects_double_quotes() {
    assert_eq!("say \"hi\"".systemd_escape(), "\"say \\\"hi\\\"\"");
    assert_eq!("".systemd_escape(), "\"\"");
}

#[test]
fn shell_escape_leaves_safe_words_alone() {
    assert_eq!("/usr/bin/demo".shell_escaped(), "/usr/bin/demo");
    assert_eq!("a-b_c=d,e.f+g".to_string().shell_escaped(), "a-b_c=d,e.f+g");
}

#[test]
fn shell_escape_quotes_the_rest() {
    assert_eq!("a b/exe".shell_escaped(), "'a b/exe'");
    assert_eq!("a'b/exe".shell_escaped(), "'a'\\''b/exe'");
    assert_eq!("wow!".shell_escaped(), "'wow'\\!''");
    assert_eq!("".shell_escaped(), "''");
}

fn check(input: &'static str) {
    let escaped = input.shell_escaped();
    let path = split_unescaped_whitespace_once(&escaped);
    assert_eq!(&path, input);
}

#[test]
fn extract_path_contains_space() {
    check(".local/hi there/exe")
}

#[test]
fn contains_single_quote() {
    check(".local/hi' there/exe")
}

#[test]
fn realistic() {
    check("/home/david/.local/hi bin/cron_only")
}

#[test]
fn smoke() {
    check("i't")
}

#[test]
fn eat_double_escape() {
    let mut out = String::new();
    eat_head(&vec!['\\', '\\', '\''], 0, &mut out, &mut false);
    assert_eq!(out, String::from("\\"))
}

#[test]
fn eating_the_head() {
    let text: Vec<char> = "'a' \\".chars().collect();
    let mut out = String::new();
    let mut in_quoted = false;
    assert_eq!(eat_head(&text, 0, &mut out, &mut in_quoted), 1);
    assert!(in_quoted);
    assert_eq!(eat_head(&text, 1, &mut out, &mut in_quoted), 1);
    assert_eq!(eat_head(&text, 2, &mut out, &mut in_quoted), 1);
    assert!(!in_quoted);
    assert_eq!(out, "a");
    assert_eq!(eat_head(&text, 3, &mut out, &mut in_quoted), 0);
    assert_eq!(eat_head(&text, 3, &mut out, &mut true), 1);
    assert_eq!(eat_head(&text, 4, &mut out, &mut in_quoted), 1);
    assert_eq!(out, "a \\");
}

#[test]
fn shell_round_trip_on_hard_words() {
    for input in [
        "a b/exe",
        "a'b/exe",
        "abc",
        "v",
        "",
        " ",
        "$",
        "a b",
        "/x y",
        "!",
        "it's! a \\ back\\'slash",
        "tab\there",
        "new\nline",
        "\u{2665} heart",
        "''",
        "\\",
    ] {
        let escaped = input.shell_escaped();
        assert_eq!(split_unescaped_whitespace_once(&escaped), input, "for {escaped}");
        let with_args = format!("{escaped} --flag value");
        assert_eq!(split_unescaped_whitespace_once(&with_args), input, "for {with_args}");
    }
}

#[test]
fn first_shell_word_ends_at_bare_white_space() {
    assert_eq!(split_unescaped_whitespace_once("/usr/bin/demo --flag"), "/usr/bin/demo");
    assert_eq!(split_unescaped_whitespace_once("a\\ b c"), "a b");
    assert_eq!(split_unescaped_whitespace_once("'a b'c d"), "a bc");
    assert_eq!(split_unescaped_whitespace_once(""), "");
    assert_eq!(split_unescaped_whitespace_once(" x"), "");
    assert_eq!(split_unescaped_whitespace_once("a\\"), "a\\");
}

#[test]
fn hex() {
    // Hex 70 is ascii P
    // Hex 20 is ascii space
    let escaped = "\"/long/\\x70ath/with\\x20spaces\\x20/to/cmd\"";
    let cmd = first_segement(&escaped).unwrap();
    assert_eq!(cmd, "/long/path/with spaces /to/cmd");
}

#[test]
fn multiple_quoted_parts() {
    let escaped = "\"/path with spaces/cmd\" \"arg with quotes\" arg_without_quotes";
    let cmd = first_segement(&escaped).unwrap();
    assert_eq!(cmd, "/path with spaces/cmd");
}

#[test]
fn hex2() {
    assert_eq!(first_segement("\\x69").unwrap(), "i");
}

#[test]
fn heart() {
    assert_eq!(first_segement("\\u2665").unwrap(), "♥");
}

#[test]
fn omega() {
    assert_eq!(first_segement("\\u03A9").unwrap(), "Ω");
}

fn systemd_round_trip(input: &str) {
    let escaped = input.systemd_escape();
    let path = first_segement(&escaped).unwrap();
    assert_eq!(path, input);
}

#[test]
fn spaces() {
    systemd_round_trip("/long/path with spaces/to/cmd")
}

#[test]
fn single_letter() {
    systemd_round_trip("v")
}

#[test]
fn three_letters() {
    systemd_round_trip("abc")
}

#[test]
fn long_spaces() {
    systemd_round_trip("/long              spaces/cmd")
}

#[test]
fn many_slashes() {
    systemd_round_trip("///////cmd")
}

#[test]
fn name_with_quotes() {
    systemd_round_trip("/strange\'name\"")
}

#[test]
fn systemd_round_trip_with_arguments_behind() {
    for input in ["a b/exe", "a'b/exe", "abc", "", "say \"hi\" twice", " lead and trail "] {
        let line = format!("{} \"arg one\" two  ", input.systemd_escape());
        assert_eq!(first_segement(&line).unwrap(), input);
    }
}

#[test]
fn systemd_escape_does_not_protect_backslashes() {
    assert_eq!(first_segement(&"a\\nb".systemd_escape()).unwrap(), "a\nb");
    assert_eq!(
        first_segement(&"a\\".systemd_escape()),
        Err(UnquoteError::MissingEndQuo('"'))
    );
}

#[test]
fn named_escapes() {
    assert_eq!(
        first_segement("\"\\a\\b\\f\\n\\r\\t\\v\\\\\\\"\\'\\s\"").unwrap(),
        "\u{7}\u{8}\u{c}\n\r\t\u{b}\\\"' "
    );
}

#[test]
fn numbered_escapes() {
    assert_eq!(first_segement("'\\x41\\o17\\u00e9\\U0001F600'").unwrap(), "A\u{f}é😀");
    assert_eq!(first_segement("\\o101").unwrap(), "\u{8}1");
}

#[test]
fn quoted_item_goes_on_behind_an_escape() {
    assert_eq!(first_segement("\"a\\\"b c\" rest").unwrap(), "a\"b c");
    assert_eq!(first_segement("  'it is' x").unwrap(), "it is");
}

#[test]
fn bare_item_ends_at_space_or_double_quote() {
    assert_eq!(first_segement("/usr/bin/demo --flag").unwrap(), "/usr/bin/demo");
    assert_eq!(first_segement("abc").unwrap(), "abc");
    assert_eq!(first_segement("ab\"cd").unwrap(), "ab");
    assert_eq!(first_segement("").unwrap(), "");
    assert_eq!(first_segement("a\\").unwrap(), "a\\");
    assert_eq!(decoded_unquoted_first_segment("a\\sb c").unwrap(), "a b");
    assert_eq!(decoded_unquoted_first_segment("\\x4").unwrap_err(), UnquoteError::EscapeTooShort { expected: 2, got: 1 });
}

#[test]
fn unquote_errors() {
    assert_eq!(first_segement("\"a\\qb\""), Err(UnquoteError::UnknownEscape('q')));
    assert_eq!(
        first_segement("\"\\x4"),
        Err(UnquoteError::EscapeTooShort { expected: 2, got: 1 })
    );
    assert_eq!(
        first_segement("\"\\u12"),
        Err(UnquoteError::EscapeTooShort { expected: 4, got: 2 })
    );
    assert_eq!(
        first_segement("\"\\xZZ\""),
        Err(UnquoteError::DoesNotFitBase { base: 16, char: 'Z' })
    );
    assert_eq!(
        first_segement("\"\\o78\""),
        Err(UnquoteError::DoesNotFitBase { base: 8, char: '8' })
    );
    assert_eq!(first_segement("\"\\uD800\""), Err(UnquoteError::InvalidUnicode(0xD800)));
    assert_eq!(
        first_segement("\"\\UFFFFFFFF\""),
        Err(UnquoteError::InvalidUnicode(0xFFFF_FFFF))
    );
    assert_eq!(first_segement("\"abc"), Err(UnquoteError::MissingEndQuo('"')));
    assert_eq!(first_segement("'abc"), Err(UnquoteError::MissingEndQuo('\'')));
    assert_eq!(first_segement("\""), Err(UnquoteError::MissingEndQuo('"')));
    assert_eq!(first_segement("\"abc\\"), Err(UnquoteError::MissingEndQuo('"')));
}

#[test]
fn digits_are_read_like_the_standard_library_reads_them() {
    for base in [2u32, 8, 10, 16] {
        for n in 0..=0x2FFu32 {
            let c = char::from_u32(n).unwrap();
            assert_eq!(to_digit(c, base), c.to_digit(base), "{c:?} in base {base}");
        }
    }
}

#[test]
fn escapes_by_number() {
    let chars: Vec<char> = "xx41rest".chars().collect();
    assert_eq!(escape_hex2(&chars, 2), Ok('A'));
    assert_eq!(escape_oct2(&chars, 2), Ok('!'));
    let chars: Vec<char> = "2665".chars().collect();
    assert_eq!(escape_hex4(&chars, 0), Ok('♥'));
    let chars: Vec<char> = "0001F600".chars().collect();
    assert_eq!(escape_hex8(&chars, 0), Ok('😀'));
    assert_eq!(unicode_char_from_char_digits(0, 16, &chars, 0), Ok('\0'));
    assert_eq!(
        escape_hex8(&chars, 8),
        Err(UnquoteError::EscapeTooShort { expected: 8, got: 0 })
    );
}

#[test]
fn landmark_comment() {
    assert_eq!(
        autogenerated_comment("demo"),
        "# created by: 'demo' during its installation\n# might get removed by it in the future.\n# Remove this comment to prevent that"
    );
}
