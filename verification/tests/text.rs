//! Tests for the text helpers.

use what_you_shouldnt_care_about_in_2026::text::{
    chars_of, push_decimal, replace_all, text_less, trim_chars,
};

#[test]
fn replace_all_replaces_left_to_right() {
    assert_eq!(replace_all("aaa", "aa", "b"), "ba");
    assert_eq!(replace_all("{k}-{k}", "{k}", "x"), "x-x");
    assert_eq!(replace_all("none", "{k}", "x"), "none");
    assert_eq!(replace_all("", "a", "b"), "");
}

#[test]
fn decimal_and_trim() {
    let mut s = String::new();
    push_decimal(&mut s, 0);
    s.push(' ');
    push_decimal(&mut s, 1_000_007);
    assert_eq!(s, "0 1000007");
    let t = trim_chars(&chars_of("\t ab c \n"));
    assert_eq!(t, vec!['a', 'b', ' ', 'c']);
}

#[test]
fn text_less_follows_str_order() {
    let words = ["", "a", "ab", "b", "Z", "é", "elevator", "mirror", "radio"];
    for a in words {
        for b in words {
            assert_eq!(text_less(a, b), a < b, "{a:?} < {b:?}");
        }
    }
}
