use fuskyom::text::{chars_of, chars_precede, contains_chars, push_decimal, push_decimal2};

fn cs(s: &str) -> Vec<char> {
    s.chars().collect()
}

#[test]
fn chars_of_keeps_every_character() {
    assert_eq!(chars_of("añ✓b"), vec!['a', 'ñ', '✓', 'b']);
    assert!(chars_of("").is_empty());
}

#[test]
fn substring_search() {
    assert!(contains_chars(&cs("hello world"), &cs("lo w")));
    assert!(contains_chars(&cs("hello"), &cs("")));
    assert!(contains_chars(&cs(""), &cs("")));
    assert!(contains_chars(&cs("abc"), &cs("abc")));
    assert!(!contains_chars(&cs("abc"), &cs("abcd")));
    assert!(!contains_chars(&cs("abcabd"), &cs("abe")));
    assert!(contains_chars(&cs("aaab"), &cs("aab")));
}

#[test]
fn code_point_order() {
    assert!(chars_precede(&cs("a"), &cs("b")));
    assert!(chars_precede(&cs("ab"), &cs("abc")));
    assert!(!chars_precede(&cs("abc"), &cs("ab")));
    assert!(!chars_precede(&cs("abc"), &cs("abc")));
    assert!(chars_precede(&cs(""), &cs("a")));
    assert!(chars_precede(&cs("Z"), &cs("a")));
    assert!(chars_precede(&cs("z"), &cs("é")));
}

#[test]
fn decimal_digits() {
    let mut s = String::from("n=");
    push_decimal(&mut s, 0);
    s.push(' ');
    push_decimal(&mut s, 1907);
    s.push(' ');
    push_decimal2(&mut s, 7);
    s.push(' ');
    push_decimal2(&mut s, 123);
    s.push(' ');
    push_decimal(&mut s, u64::MAX);
    assert_eq!(s, "n=0 1907 07 123 18446744073709551615");
}
