use stabil_api::text::{
    after_marker, chars_of, contains, find, i32_to_text, is_space_char, join_from,
    nonempty_trimmed, parse_i32, parse_i8, parse_integer, same_text, trim, u64_to_text,
};

#[test]
fn chars_of_keeps_order() {
    assert_eq!(chars_of("aü€"), vec!['a', 'ü', '€']);
    assert!(chars_of("").is_empty());
}

#[test]
fn find_gives_first_position() {
    let s = chars_of("a:bar:b:bar:c");
    assert_eq!(find(&s, &chars_of(":bar:")), Some(1));
    assert_eq!(find(&s, &chars_of("zz")), None);
    assert_eq!(find(&s, &chars_of("")), Some(0));
    assert_eq!(find(&chars_of("ab"), &chars_of("abc")), None);
}

#[test]
fn after_marker_reads_what_follows_the_first_marker() {
    assert_eq!(after_marker("x:bar:1:bar:2", ":bar:"), Some("1:bar:2".to_string()));
    assert_eq!(after_marker("x:bar:", ":bar:"), Some(String::new()));
    assert_eq!(after_marker("nothing", ":bar:"), None);
    assert_eq!(after_marker("Bücher:ppn:4711", ":ppn:"), Some("4711".to_string()));
}

#[test]
fn contains_and_same_text() {
    assert!(contains("3 Bestellungen erfolgreich storniert.", "erfolgreich storniert"));
    assert!(!contains("Fehler", "erfolgreich storniert"));
    assert!(same_text("Rückgabe", "Rückgabe"));
    assert!(!same_text("Rückgabe", "Ruckgabe"));
    assert!(!same_text("a", "ab"));
}

#[test]
fn trim_matches_std() {
    for s in ["  a b  ", "\t\n x \u{a0}", "", "   ", "\u{3000}y\u{2009}", "z"] {
        assert_eq!(trim(s), s.trim());
    }
}

#[test]
fn trim_is_idempotent() {
    let once = trim(" \u{2028} Regal 3 \r\n");
    assert_eq!(once, "Regal 3");
    assert_eq!(trim(&once), once);
}

#[test]
fn whitespace_matches_std() {
    for c in ['\t', '\n', ' ', '\u{85}', '\u{a0}', '\u{1680}', '\u{2000}', '\u{200a}',
              '\u{2028}', '\u{2029}', '\u{202f}', '\u{205f}', '\u{3000}', 'a', '\u{200b}', '_'] {
        assert_eq!(is_space_char(c), c.is_whitespace(), "{:?}", c);
    }
}

#[test]
fn words_are_trimmed_and_nonempty() {
    let texts = vec!["  Rust ".to_string(), " \n ".to_string(), "Ausleihstelle:".to_string(), "".to_string()];
    assert_eq!(nonempty_trimmed(&texts), vec!["Rust".to_string(), "Ausleihstelle:".to_string()]);
}

#[test]
fn join_from_skips_and_joins_with_spaces() {
    let parts = vec!["a".to_string(), "b".to_string(), "c d".to_string()];
    assert_eq!(join_from(&parts, 0), "a b c d");
    assert_eq!(join_from(&parts, 1), "b c d");
    assert_eq!(join_from(&parts, 3), "");
}

#[test]
fn parse_i8_matches_std() {
    for s in ["0", "127", "128", "-128", "-129", "+5", "+", "-", "", " 1", "1 ", "007", "x", "99999999999999999999"] {
        assert_eq!(parse_i8(s), s.parse::<i8>().ok(), "{:?}", s);
    }
}

#[test]
fn parse_i32_matches_std() {
    for s in ["1947771086", "2147483647", "2147483648", "-2147483648", "-2147483649", "100000000X", "0"] {
        assert_eq!(parse_i32(s), s.parse::<i32>().ok(), "{:?}", s);
    }
}

#[test]
fn parse_integer_respects_range() {
    assert_eq!(parse_integer("5", 0, 4), None);
    assert_eq!(parse_integer("4", 0, 4), Some(4));
    assert_eq!(parse_integer("-0", 0, 0), Some(0));
}

#[test]
fn numbers_are_written_like_std() {
    for n in [0i32, 7, 10, 109956811, -1, -2147483648, 2147483647] {
        assert_eq!(i32_to_text(n), n.to_string());
    }
    assert_eq!(u64_to_text(18446744073709551615), "18446744073709551615");
}

#[test]
fn written_numbers_read_back() {
    for n in [0i32, 42, -17, 2147483647, -2147483648] {
        assert_eq!(parse_i32(&i32_to_text(n)), Some(n));
    }
}
