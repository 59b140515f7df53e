use viperserver::text::{
    chars_of, render_decimal, render_led, render_spaced, same_text, search, white_space,
};

fn chars(text: &str) -> Vec<char> {
    text.chars().collect()
}

fn strings(items: &[&str]) -> Vec<String> {
    items.iter().map(|item| item.to_string()).collect()
}

#[test]
fn decimal_of_small_and_large_numbers() {
    assert_eq!(render_decimal(0), "0");
    assert_eq!(render_decimal(7), "7");
    assert_eq!(render_decimal(10), "10");
    assert_eq!(render_decimal(109), "109");
    assert_eq!(render_decimal(9_007_199_254_740_993), "9007199254740993");
    assert_eq!(render_decimal(u64::MAX), "18446744073709551615");
}

#[test]
fn a_space_follows_each_part() {
    assert_eq!(render_spaced(&strings(&[])), "");
    assert_eq!(render_spaced(&strings(&["a"])), "a ");
    assert_eq!(render_spaced(&strings(&["--x", "1 2", ""])), "--x 1 2  ");
}

#[test]
fn the_lead_stands_before_each_line() {
    assert_eq!(render_led("\n", &strings(&[])), "");
    assert_eq!(render_led("\n", &strings(&["a", "b"])), "\na\nb");
    assert_eq!(render_led("", &strings(&["a", "", "b"])), "ab");
    assert_eq!(render_led("> ", &strings(&["x"])), "> x");
}

#[test]
fn texts_are_the_same_when_their_characters_are() {
    assert!(same_text("", ""));
    assert!(same_text("verify", "verify"));
    assert!(same_text("ä→𝄞", "ä→𝄞"));
    assert!(!same_text("verify", "Verify"));
    assert!(!same_text("verify", "verif"));
    assert!(!same_text("", " "));
    assert!(!same_text("é", "e\u{301}"));
}

#[test]
fn white_space_is_what_unicode_says() {
    for c in [
        '\t', '\n', '\u{b}', '\u{c}', '\r', ' ', '\u{85}', '\u{a0}', '\u{1680}', '\u{2000}',
        '\u{2005}', '\u{200a}', '\u{2028}', '\u{2029}', '\u{202f}', '\u{205f}', '\u{3000}',
    ] {
        assert!(white_space(c), "{c:?}");
    }
    for c in ['a', '0', '\u{8}', '\u{e}', '\u{1f}', '\u{200b}', '\u{180e}', '\u{feff}', '_'] {
        assert!(!white_space(c), "{c:?}");
    }
    for code in 0..=0x3100u32 {
        if let Some(c) = char::from_u32(code) {
            assert_eq!(white_space(c), c.is_whitespace(), "{code:#x}");
        }
    }
}

#[test]
fn characters_of_a_text() {
    assert_eq!(chars_of(""), Vec::<char>::new());
    assert_eq!(chars_of("aä𝄞"), vec!['a', 'ä', '𝄞']);
}

#[test]
fn search_finds_the_first_occurrence() {
    assert_eq!(search(&chars("abcabc"), &chars("bc")), Some(1));
    assert_eq!(search(&chars("abcabc"), &chars("abc")), Some(0));
    assert_eq!(search(&chars("aaab"), &chars("aab")), Some(1));
    assert_eq!(search(&chars("abc"), &chars("c")), Some(2));
    assert_eq!(search(&chars("abc"), &chars("")), Some(0));
    assert_eq!(search(&chars(""), &chars("")), Some(0));
    assert_eq!(search(&chars("abc"), &chars("abcd")), None);
    assert_eq!(search(&chars("abc"), &chars("bd")), None);
    assert_eq!(search(&chars(""), &chars("a")), None);
    assert_eq!(search(&chars("ääb"), &chars("äb")), Some(1));
}
