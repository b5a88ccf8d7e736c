use bot_core::text::{blank, chars_of, clock_string, decimal_string, fold_one, join};

#[test]
fn fold_one_lowers_capitals_and_the_kelvin_sign() {
    assert_eq!(fold_one('A'), 'a');
    assert_eq!(fold_one('Z'), 'z');
    assert_eq!(fold_one('m'), 'm');
    assert_eq!(fold_one('~'), '~');
    assert_eq!(fold_one('É'), 'É');
    assert_eq!(fold_one('@'), '@');
    assert_eq!(fold_one('['), '[');
    assert_eq!(fold_one('\u{212a}'), 'k');
}

#[test]
fn fold_one_is_the_lower_case_of_unicode_wherever_that_is_ascii() {
    for code in 0..=0x10ffffu32 {
        if let Some(c) = char::from_u32(code) {
            let lower: String = c.to_lowercase().collect();
            if lower.is_ascii() {
                assert_eq!(fold_one(c).to_string(), lower);
            } else {
                assert_eq!(fold_one(c), c);
            }
        }
    }
}

#[test]
fn blank_is_the_white_space_of_unicode() {
    for c in [' ', '\t', '\n', '\x0b', '\x0c', '\r', '\u{85}', '\u{a0}', '\u{1680}'] {
        assert!(blank(c));
    }
    for c in ['\u{2000}', '\u{2005}', '\u{200a}', '\u{2028}', '\u{2029}', '\u{202f}'] {
        assert!(blank(c));
    }
    assert!(blank('\u{205f}'));
    assert!(blank('\u{3000}'));
    assert!(!blank('a'));
    assert!(!blank('\x08'));
    assert!(!blank('\x0e'));
    assert!(!blank('\u{200b}'));
    assert!(!blank('\u{1fff}'));
    assert!(!blank('\u{feff}'));
}

#[test]
fn blank_agrees_with_the_standard_library_on_every_character() {
    for code in 0..=0x10ffffu32 {
        if let Some(c) = char::from_u32(code) {
            assert_eq!(blank(c), c.is_whitespace());
        }
    }
}

#[test]
fn chars_of_keeps_every_character() {
    assert_eq!(chars_of("a é~"), vec!['a', ' ', 'é', '~']);
    assert_eq!(chars_of(""), Vec::<char>::new());
}

#[test]
fn decimal_string_renders_numbers() {
    assert_eq!(decimal_string(0), "0");
    assert_eq!(decimal_string(7), "7");
    assert_eq!(decimal_string(10), "10");
    assert_eq!(decimal_string(1234567890), "1234567890");
    assert_eq!(decimal_string(u128::MAX), u128::MAX.to_string());
}

#[test]
fn join_puts_the_separator_between_neighbours() {
    let parts = vec!["a".to_string(), "bc".to_string(), "d".to_string()];
    assert_eq!(join(&parts, ", "), "a, bc, d");
    assert_eq!(join(&vec!["solo".to_string()], ", "), "solo");
    assert_eq!(join(&Vec::new(), ", "), "");
}

#[test]
fn clock_string_is_minutes_and_two_digit_seconds() {
    assert_eq!(clock_string(0), "0:00");
    assert_eq!(clock_string(999), "0:00");
    assert_eq!(clock_string(1000), "0:01");
    assert_eq!(clock_string(83_000), "1:23");
    assert_eq!(clock_string(600_000), "10:00");
    assert_eq!(clock_string(3_725_999), "62:05");
}
