use cert_storage::text::chars_of;
use cert_storage::text::clone_strings;
use cert_storage::text::field_bounds;
use cert_storage::text::join4;
use cert_storage::text::prefix_of;
use cert_storage::text::reads;
use cert_storage::text::slice_of;
use cert_storage::text::stands_at;

fn fields(s: &str, sep: char) -> Vec<String> {
    let chars = chars_of(s);
    field_bounds(&chars, sep)
        .iter()
        .map(|&(from, to)| chars[from..to].iter().collect::<String>())
        .collect()
}

#[test]
fn characters_are_read_in_order() {
    assert_eq!(chars_of("a\u{e9}z"), vec!['a', '\u{e9}', 'z']);
    assert_eq!(chars_of(""), Vec::<char>::new());
}

#[test]
fn fields_are_what_the_separator_delimits() {
    assert_eq!(fields("a:b:c", ':'), vec!["a", "b", "c"]);
    assert_eq!(fields("abc", ':'), vec!["abc"]);
    assert_eq!(fields("", ':'), vec![""]);
    assert_eq!(fields(":", ':'), vec!["", ""]);
    assert_eq!(fields("a::b:", ':'), vec!["a", "", "b", ""]);
    assert_eq!(fields(":a", ':'), vec!["", "a"]);
}

#[test]
fn fields_agree_with_the_standard_split() {
    for s in ["arn:aws:acm:us-east-1:123456789012:certificate/abc", "::", "x", "a:\u{e9}:b"] {
        let expected: Vec<String> = s.split(':').map(|f| f.to_string()).collect();
        assert_eq!(fields(s, ':'), expected);
    }
}

#[test]
fn field_bounds_are_positions_of_characters() {
    assert_eq!(field_bounds(&chars_of("\u{e9}\u{e9}:b"), ':'), vec![(0, 2), (3, 4)]);
}

#[test]
fn pattern_stands_where_it_is_found() {
    let s = chars_of("certificate/abc");
    assert!(stands_at(&s, 0, &chars_of("certificate/")));
    assert!(stands_at(&s, 12, &chars_of("abc")));
    assert!(stands_at(&s, 15, &chars_of("")));
    assert!(!stands_at(&s, 1, &chars_of("certificate/")));
    assert!(!stands_at(&s, 13, &chars_of("abc")));
    assert!(!stands_at(&s, 16, &chars_of("")));
    assert!(!stands_at(&s, usize::MAX, &chars_of("a")));
}

#[test]
fn slices_count_characters() {
    assert_eq!(prefix_of("h\u{e9}llo", 2), "h\u{e9}");
    assert_eq!(prefix_of("abc", 0), "");
    assert_eq!(prefix_of("abc", 3), "abc");
    assert_eq!(slice_of("h\u{e9}llo", 1, 3), "\u{e9}l");
    assert_eq!(slice_of("abc", 3, 3), "");
}

#[test]
fn texts_are_joined_in_order() {
    assert_eq!(join4("a", "bc", "", "d"), "abcd");
}

#[test]
fn string_is_compared_with_a_literal() {
    assert!(reads(&"IMPORTED".to_string(), "IMPORTED"));
    assert!(!reads(&"imported".to_string(), "IMPORTED"));
    assert!(!reads(&"IMPORTED ".to_string(), "IMPORTED"));
}

#[test]
fn strings_are_copied() {
    let original = vec!["a".to_string(), String::new(), "c".to_string()];
    assert_eq!(clone_strings(&original), original);
}
