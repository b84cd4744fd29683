use xbitos::text::{
    chain, chain3, contains, contains_text, decimal_text, ends_with, interleave, is_under, join,
    join_path, remove_char, remove_text, same, starts_with,
};

fn strings(items: &[&str]) -> Vec<String> {
    items.iter().map(|s| s.to_string()).collect()
}

#[test]
fn numbers_are_written_in_decimal() {
    assert_eq!(decimal_text(0), "0");
    assert_eq!(decimal_text(7), "7");
    assert_eq!(decimal_text(10), "10");
    assert_eq!(decimal_text(513), "513");
    assert_eq!(decimal_text(1025), "1025");
    assert_eq!(decimal_text(9_876_543_210), "9876543210");
    assert_eq!(decimal_text(u64::MAX), "18446744073709551615");
}

#[test]
fn texts_are_put_together() {
    assert_eq!(chain("ab", "cd"), "abcd");
    assert_eq!(chain("", ""), "");
    assert_eq!(chain3("a", "", "c"), "ac");
    assert_eq!(join_path("/mnt", "etc/hostname"), "/mnt/etc/hostname");
    assert_eq!(join_path("", "x"), "/x");
}

#[test]
fn lists_are_joined_with_the_separator_between() {
    assert_eq!(join(&strings(&[]), " "), "");
    assert_eq!(join(&strings(&["a"]), " "), "a");
    assert_eq!(join(&strings(&["a", "b", "c"]), " "), "a b c");
    assert_eq!(join(&strings(&["a", "", "c"]), ", "), "a, , c");
    assert_eq!(join(&strings(&["", "b"]), "-"), "-b");
}

#[test]
fn comparing_and_searching() {
    assert!(same("abc", "abc"));
    assert!(!same("abc", "abd"));
    assert!(!same("abc", "ab"));
    assert!(contains_text(&strings(&["a", "b"]), "b"));
    assert!(!contains_text(&strings(&["a", "b"]), "c"));
    assert!(!contains_text(&strings(&[]), ""));
    assert!(starts_with("/mnt/boot", "/mnt"));
    assert!(starts_with("abc", ""));
    assert!(starts_with("abc", "abc"));
    assert!(!starts_with("ab", "abc"));
    assert!(!starts_with("abc", "b"));
    assert!(ends_with("x.pkg.tar.zst", ".pkg.tar.zst"));
    assert!(ends_with("abc", ""));
    assert!(!ends_with("zst", ".pkg.tar.zst"));
    assert!(!ends_with("x.pkg.tar.zst.sig", ".pkg.tar.zst"));
    assert!(is_under("/mnt/boot", "/mnt"));
    assert!(is_under("/mnt/boot/efi", "/mnt"));
    assert!(!is_under("/mnt", "/mnt"));
    assert!(!is_under("/mntx/boot", "/mnt"));
    assert!(!is_under("/mnt", "/mnt/boot"));
}

#[test]
fn substrings_are_found_wherever_they_are() {
    assert!(contains("firefox", "fox"));
    assert!(contains("firefox", "fire"));
    assert!(contains("firefox", "ref"));
    assert!(contains("firefox", "firefox"));
    assert!(contains("firefox", ""));
    assert!(contains("", ""));
    assert!(!contains("firefox", "foxy"));
    assert!(!contains("fox", "firefox"));
    assert!(!contains("", "a"));
    assert!(contains("aab", "ab"));
    assert!(contains("نواة النظام", "النظام"));
}

#[test]
fn characters_and_texts_are_removed() {
    assert_eq!(remove_char("1.0.0", '.'), "100");
    assert_eq!(remove_char("...", '.'), "");
    assert_eq!(remove_char("100", '.'), "100");
    assert_eq!(remove_char("", '.'), "");
    assert_eq!(remove_text(&strings(&["a", "b", "a", "c"]), "a"), strings(&["b", "c"]));
    assert_eq!(remove_text(&strings(&["a"]), "b"), strings(&["a"]));
    assert_eq!(remove_text(&strings(&[]), "b"), strings(&[]));
}

#[test]
fn templates_are_filled_piece_by_piece() {
    assert_eq!(interleave(&["a=", ";b=", ";"], &strings(&["1", "2"])), "a=1;b=2;");
    assert_eq!(interleave(&["only"], &strings(&[])), "only");
    assert_eq!(interleave(&[], &strings(&["x"])), "");
    // a value without a piece before it is not written, a piece without a value stands alone
    assert_eq!(interleave(&["a", "b"], &strings(&["1", "2", "3"])), "a1b2");
    assert_eq!(interleave(&["a", "b", "c"], &strings(&["1"])), "a1bc");
}
