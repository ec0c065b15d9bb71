use alphascout_agent::ranking::select_top;
use alphascout_agent::text::{has_text, push_char, push_decimal, to_lowercase};

#[test]
fn decimal_text() {
    let mut s = String::new();
    push_decimal(&mut s, 0);
    assert_eq!(s, "0");
    let mut s = String::from("x");
    push_decimal(&mut s, 1234);
    assert_eq!(s, "x1234");
    let mut s = String::new();
    push_decimal(&mut s, i64::MIN);
    assert_eq!(s, "-9223372036854775808");
    let mut s = String::new();
    push_decimal(&mut s, -7);
    assert_eq!(s, "-7");
}

#[test]
fn substrings() {
    assert!(has_text("scout new tokens", "new"));
    assert!(has_text("abc", ""));
    assert!(!has_text("ab", "abc"));
    assert!(!has_text("scout", "scan"));
    assert!(has_text("\u{e9}t\u{e9}", "t\u{e9}"));
}

#[test]
fn lowercase_and_push() {
    assert_eq!(to_lowercase("ScOuT \u{c0}"), "scout \u{e0}");
    let mut s = String::from("a");
    push_char(&mut s, '\u{e9}');
    assert_eq!(s, "a\u{e9}");
}

#[test]
fn selection_by_key() {
    let keys = vec![3, 9, 3, 9, 1];
    let all = vec![true; 5];
    assert_eq!(select_top(&keys, &all, 10), vec![1, 3, 0, 2, 4]);
    assert_eq!(select_top(&keys, &vec![true, false, true, true, false], 2), vec![3, 0]);
}
