use litter_terminal::text::{after_first, blank, decimal_string, leading_word, trim};

#[test]
fn white_space_is_that_of_unicode() {
    for c in '\0'..=char::MAX {
        assert_eq!(blank(c), c.is_whitespace(), "{:?}", c);
    }
}

const SAMPLES: [&str; 9] = [
    "",
    " ",
    "a",
    "  a b  ",
    "\u{a0}\u{3000}x\u{2003}",
    "\r\nkey value\r\n",
    "no-blanks",
    "\u{200b}zero width\u{200b}",
    "\t\u{e9}\u{1f600}\t",
];

#[test]
fn trim_agrees_with_std() {
    for sample in SAMPLES {
        assert_eq!(trim(sample), sample.trim());
        assert_eq!(trim(trim(sample)), trim(sample));
    }
}

#[test]
fn leading_word_agrees_with_std() {
    for sample in SAMPLES {
        assert_eq!(leading_word(sample), sample.split_whitespace().next().unwrap_or(""));
    }
}

#[test]
fn after_first_takes_the_first_place() {
    assert_eq!(after_first("a=b=c", "="), Some("b=c"));
    assert_eq!(after_first("abc", "c"), Some(""));
    assert_eq!(after_first("abc", ""), Some("abc"));
    assert_eq!(after_first("\u{e9}ab\u{e9}ac", "\u{e9}a"), Some("b\u{e9}ac"));
    assert_eq!(after_first("aaab", "aab"), Some(""));
    assert_eq!(after_first("abc", "d"), None);
    assert_eq!(after_first("ab", "abc"), None);
}

#[test]
fn decimals_agree_with_std() {
    for n in [0, 7, 9, 10, 22, 100, 2022, 65535, 1_000_000_007, u32::MAX] {
        assert_eq!(decimal_string(n), n.to_string());
    }
}
