use watchtv::text::{starts_with, string_from, to_chars, trimmed, u64_to_decimal};

#[test]
fn decimal_of_small_numbers() {
    assert_eq!(u64_to_decimal(0), "0");
    assert_eq!(u64_to_decimal(7), "7");
    assert_eq!(u64_to_decimal(10), "10");
    assert_eq!(u64_to_decimal(9000), "9000");
    assert_eq!(u64_to_decimal(1234567890), "1234567890");
}

#[test]
fn decimal_of_the_largest_number() {
    assert_eq!(u64_to_decimal(u64::MAX), "18446744073709551615");
}

#[test]
fn chars_round_trip() {
    let chars = to_chars("héllo ✓");
    assert_eq!(chars, vec!['h', 'é', 'l', 'l', 'o', ' ', '✓']);
    assert_eq!(string_from(&chars, 0, chars.len()), "héllo ✓");
    assert_eq!(string_from(&chars, 1, 4), "éll");
    assert_eq!(string_from(&chars, 3, 3), "");
}

#[test]
fn trimmed_drops_whitespace_at_both_ends() {
    let chars = to_chars("  \t a b \r\n");
    assert_eq!(trimmed(&chars, 0, chars.len()), to_chars("a b"));
}

#[test]
fn trimmed_of_whitespace_is_empty() {
    let chars = to_chars(" \u{a0}\u{3000}\n");
    assert_eq!(trimmed(&chars, 0, chars.len()), Vec::<char>::new());
    assert_eq!(trimmed(&chars, 2, 2), Vec::<char>::new());
}

#[test]
fn trimmed_works_on_a_part() {
    let chars = to_chars("ab  cd  ef");
    assert_eq!(trimmed(&chars, 2, 8), to_chars("cd"));
    assert_eq!(trimmed(&chars, 0, 3), to_chars("ab"));
}

#[test]
fn trimmed_agrees_with_std() {
    for text in ["", " ", "x", " x", "x ", "\u{2003}x y\u{2003}", "\u{200b}x", "\tx\u{0085}"] {
        let chars = to_chars(text);
        let bare: String = trimmed(&chars, 0, chars.len()).into_iter().collect();
        assert_eq!(bare, text.trim());
    }
}

#[test]
fn starts_with_compares_the_head() {
    assert!(starts_with(&to_chars("#EXTINF:-1,x"), &to_chars("#EXTINF:")));
    assert!(starts_with(&to_chars("abc"), &to_chars("")));
    assert!(!starts_with(&to_chars("#EXTINF"), &to_chars("#EXTINF:")));
    assert!(!starts_with(&to_chars(" #EXTINF:"), &to_chars("#EXTINF:")));
}
