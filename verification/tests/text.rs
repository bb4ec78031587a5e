use maxine::text::{
    contains, decimal_text, join, replace_all, split, split_whitespace, starts_with,
    text_after_last, trim,
};

fn owned(items: &[&str]) -> Vec<String> {
    items.iter().map(|s| s.to_string()).collect()
}

#[test]
fn split_keeps_empty_pieces() {
    assert_eq!(split("a::b", ':'), owned(&["a", "", "b"]));
    assert_eq!(split("", ':'), owned(&[""]));
    assert_eq!(split(":", ':'), owned(&["", ""]));
    assert_eq!(split("no colon", ':'), owned(&["no colon"]));
}

#[test]
fn join_puts_the_separator_between_neighbours() {
    assert_eq!(join(&owned(&["a", "b", "c"]), "; "), "a; b; c");
    assert_eq!(join(&owned(&["only"]), "; "), "only");
    assert_eq!(join(&owned(&[]), "; "), "");
}

#[test]
fn trim_removes_whitespace_around_only() {
    assert_eq!(trim("  a b \n"), "a b");
    assert_eq!(trim("   "), "");
    assert_eq!(trim(""), "");
    assert_eq!(trim("\u{3000}x\u{a0}"), "x");
    assert_eq!(trim("x"), "x");
}

#[test]
fn text_after_last_takes_what_follows_the_last_occurrence() {
    assert_eq!(text_after_last("a</think>b</think>c", "</think>"), "c");
    assert_eq!(text_after_last("nothing here", "</think>"), "nothing here");
    assert_eq!(text_after_last("ends</think>", "</think>"), "");
    assert_eq!(text_after_last("abc", ""), "");
    assert_eq!(text_after_last("ab", "abc"), "ab");
}

#[test]
fn contains_and_starts_with_find_patterns() {
    assert!(contains("https://www.reddit.com/r/x", "reddit.com"));
    assert!(!contains("https://example.com", "reddit.com"));
    assert!(contains("abc", ""));
    assert!(starts_with("http://x", "http"));
    assert!(!starts_with("ftp://x", "http"));
    assert!(!starts_with("htt", "http"));
}

#[test]
fn split_whitespace_drops_empty_words() {
    assert_eq!(
        split_whitespace("  -ss 00:05 \t -to 00:10 "),
        owned(&["-ss", "00:05", "-to", "00:10"])
    );
    assert_eq!(split_whitespace("   "), owned(&[]));
    assert_eq!(split_whitespace("one"), owned(&["one"]));
}

#[test]
fn replace_all_replaces_every_occurrence_from_the_left() {
    assert_eq!(replace_all("{x} and {x}", "{x}", "1"), "1 and 1");
    assert_eq!(replace_all("aaa", "aa", "b"), "ba");
    assert_eq!(replace_all("abc", "", "-"), "abc");
    assert_eq!(replace_all("abc", "z", "-"), "abc");
}

#[test]
fn decimal_text_writes_numbers_without_leading_zeros() {
    assert_eq!(decimal_text(0), "0");
    assert_eq!(decimal_text(7), "7");
    assert_eq!(decimal_text(10), "10");
    assert_eq!(decimal_text(12345), "12345");
    assert_eq!(decimal_text(u64::MAX), "18446744073709551615");
}

#[test]
fn whitespace_is_what_the_list_says() {
    let listed = |c: char| {
        let n = c as u32;
        (0x0009..=0x000D).contains(&n)
            || n == 0x0020
            || n == 0x0085
            || n == 0x00A0
            || n == 0x1680
            || (0x2000..=0x200A).contains(&n)
            || n == 0x2028
            || n == 0x2029
            || n == 0x202F
            || n == 0x205F
            || n == 0x3000
    };
    for n in 0..=0x10FFFFu32 {
        if let Some(c) = char::from_u32(n) {
            let text = c.to_string();
            assert_eq!(trim(&text).is_empty(), listed(c), "{:#x}", n);
        }
    }
    assert_eq!(trim("\u{200B}x\u{180E}"), "\u{200B}x\u{180E}");
    assert_eq!(trim("\u{FEFF}x"), "\u{FEFF}x");
    assert_eq!(trim("\u{2028}\u{205F}x\u{1680}\u{85}"), "x");
}
