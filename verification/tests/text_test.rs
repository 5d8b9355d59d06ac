use pbtb_rust::text::{chars_of, last_segment, text_contains, text_eq, text_lt};

#[test]
fn chars_of_gives_each_character() {
    assert_eq!(chars_of(""), Vec::<char>::new());
    assert_eq!(chars_of("abc"), vec!['a', 'b', 'c']);
    assert_eq!(chars_of("né€"), vec!['n', 'é', '€']);
}

#[test]
fn text_eq_compares_character_by_character() {
    assert!(text_eq("", ""));
    assert!(text_eq("STOPPED", "STOPPED"));
    assert!(!text_eq("STOPPED", "STOPPE"));
    assert!(!text_eq("STOPPE", "STOPPED"));
    assert!(!text_eq("STOPPED", "stopped"));
    assert!(!text_eq("", "a"));
    assert!(!text_eq("a", ""));
    assert!(text_eq("né€", "né€"));
    assert!(!text_eq("né€", "ne€"));
}

#[test]
fn text_contains_finds_a_part_at_any_place() {
    assert!(text_contains("abcdef", "abc"));
    assert!(text_contains("abcdef", "cde"));
    assert!(text_contains("abcdef", "def"));
    assert!(text_contains("abcdef", "abcdef"));
    assert!(!text_contains("abcdef", "abd"));
    assert!(!text_contains("abcdef", "abcdefg"));
    assert!(!text_contains("abcdef", "fa"));
    assert!(text_contains("aab", "ab"));
    assert!(text_contains("aaab", "aab"));
}

#[test]
fn text_contains_the_empty_text_everywhere() {
    assert!(text_contains("", ""));
    assert!(text_contains("abc", ""));
    assert!(!text_contains("", "a"));
}

#[test]
fn text_contains_agrees_with_std() {
    let texts = ["", "a", "ab", "ba", "aba", "bab", "abab", "UserInitiated", "é", "aé", "éa€"];
    for hay in texts {
        for needle in texts {
            assert_eq!(text_contains(hay, needle), hay.contains(needle), "{hay:?} {needle:?}");
        }
    }
}

#[test]
fn last_segment_follows_the_last_separator() {
    assert_eq!(
        last_segment("arn:aws:ecs:eu-west-1:123456789012:task/bots/0123456789abcdef", '/'),
        "0123456789abcdef"
    );
    assert_eq!(last_segment("a/b", '/'), "b");
    assert_eq!(last_segment("a/b/c", '/'), "c");
    assert_eq!(last_segment("/c", '/'), "c");
}

#[test]
fn last_segment_without_separator_is_the_whole_text() {
    assert_eq!(last_segment("task-id", '/'), "task-id");
    assert_eq!(last_segment("", '/'), "");
}

#[test]
fn last_segment_after_a_trailing_separator_is_empty() {
    assert_eq!(last_segment("a/b/", '/'), "");
    assert_eq!(last_segment("/", '/'), "");
    assert_eq!(last_segment("//", '/'), "");
}

#[test]
fn last_segment_counts_characters_not_bytes() {
    assert_eq!(last_segment("é/€x", '/'), "€x");
    assert_eq!(last_segment("€€/é", '/'), "é");
}

#[test]
fn last_segment_agrees_with_rsplit() {
    for s in ["", "/", "a", "a/", "/a", "a/b", "a//b", "a/b/c/", "é/€", "x/y/z"] {
        assert_eq!(last_segment(s, '/'), s.rsplit('/').next().unwrap(), "{s:?}");
    }
}

#[test]
fn text_lt_orders_as_strings_are_ordered() {
    let texts = ["", "a", "A", "ab", "abc", "abd", "b", "ba", "BTC", "ETH", "btc", "é", "e", "€", "z"];
    for a in texts {
        for b in texts {
            assert_eq!(text_lt(a, b), a < b, "{a:?} {b:?}");
        }
    }
}

#[test]
fn text_lt_puts_a_beginning_before_the_whole() {
    assert!(text_lt("", "a"));
    assert!(text_lt("BTC", "BTCUSDT"));
    assert!(!text_lt("BTCUSDT", "BTC"));
    assert!(!text_lt("BTC", "BTC"));
}
