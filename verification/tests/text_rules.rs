use starbound::text::{decimal_string, join, replace_all, trim};

#[test]
fn replace_all_matches_str_replace() {
    assert_eq!(replace_all("{name} and {name}", "{name}", "Oren"), "Oren and Oren");
    assert_eq!(replace_all("aaa", "aa", "b"), "ba");
    assert_eq!(replace_all("nothing here", "{x}", "y"), "nothing here");
}

#[test]
fn replace_all_with_empty_pattern_interleaves() {
    assert_eq!(replace_all("abc", "", "-"), "abc".replace("", "-"));
    assert_eq!(replace_all("", "", "-"), "-");
}

#[test]
fn decimal_and_join_and_trim() {
    assert_eq!(decimal_string(0), "0");
    assert_eq!(decimal_string(1207), "1207");
    assert_eq!(join(&vec!["a".to_string(), "b".to_string()], ", "), "a, b");
    assert_eq!(trim("  hi \n"), "hi");
}
