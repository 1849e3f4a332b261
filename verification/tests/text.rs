use ov_chat::text::{
    eq_ignore_ascii_case, find_char, is_whitespace, same_text, strip_prefix, trim, trim_end,
    truncate_utf8,
};

#[test]
fn whitespace_is_that_of_unicode() {
    for u in 0..=0x10ffffu32 {
        if let Some(c) = char::from_u32(u) {
            assert_eq!(is_whitespace(c), c.is_whitespace(), "U+{:04X}", u);
        }
    }
}

#[test]
fn trims_both_ends() {
    for s in [
        "", " ", "\t\n\r ", "a", " a", "a ", "  a b \n", "\u{3000}x\u{a0}", "\u{200b}x\u{200b}",
        "a\u{2028}b\u{2028}", "\u{feff}x",
    ] {
        assert_eq!(trim(s), s.trim());
        assert_eq!(trim_end(s), s.trim_end());
        assert_eq!(trim(trim(s)), trim(s));
    }
    assert_eq!(trim(" \u{85}hello world\u{3000}\r\n"), "hello world");
}

#[test]
fn compares_texts() {
    assert!(same_text("", ""));
    assert!(same_text("größe", "größe"));
    assert!(!same_text("a", "b"));
    assert!(!same_text("a", "ab"));
}

#[test]
fn ignores_the_case_of_ascii_letters_only() {
    assert!(eq_ignore_ascii_case("EXIT", "exit"));
    assert!(eq_ignore_ascii_case("eXiT", "ExIt"));
    assert!(!eq_ignore_ascii_case("exits", "exit"));
    assert!(!eq_ignore_ascii_case("exi", "exit"));
    assert!(!eq_ignore_ascii_case("@", "`"));
    assert!(!eq_ignore_ascii_case("[", "{"));
    assert!(!eq_ignore_ascii_case("Ä", "ä"));
    assert!(!eq_ignore_ascii_case("\u{212a}", "k"));
    assert!(eq_ignore_ascii_case("Zz", "zZ"));
}

#[test]
fn strips_a_prefix() {
    assert_eq!(strip_prefix("data: x", "data: "), Some("x"));
    assert_eq!(strip_prefix("data: ", "data: "), Some(""));
    assert_eq!(strip_prefix("data:x", "data: "), None);
    assert_eq!(strip_prefix("dat", "data: "), None);
    assert_eq!(strip_prefix("äöü", "äö"), Some("ü"));
}

#[test]
fn finds_the_first_character() {
    assert_eq!(find_char("ä(b(c", '('), Some(1));
    assert_eq!(find_char("(", '('), Some(0));
    assert_eq!(find_char("abc", '('), None);
    assert_eq!(find_char("", '('), None);
}

#[test]
fn truncates_between_characters() {
    assert_eq!(truncate_utf8("hello", 10), "hello");
    assert_eq!(truncate_utf8("hello", 5), "hello");
    assert_eq!(truncate_utf8("hello", 4), "hell");
    assert_eq!(truncate_utf8("hello", 0), "");
    assert_eq!(truncate_utf8("aé", 2), "a");
    assert_eq!(truncate_utf8("aé", 3), "aé");
    assert_eq!(truncate_utf8("日本語", 7), "日本");
    assert_eq!(truncate_utf8("日本語", 2), "");
    assert_eq!(truncate_utf8("x😀y", 4), "x");
    assert_eq!(truncate_utf8("x😀y", 5), "x😀");
    let s = "aß水🌊".repeat(5);
    for max in 0..60 {
        let kept = truncate_utf8(&s, max);
        assert!(s.starts_with(kept) && kept.len() <= max);
        if kept.len() < s.len() {
            let next = s[kept.len()..].chars().next().unwrap();
            assert!(kept.len() + next.len_utf8() > max);
        }
    }
}
