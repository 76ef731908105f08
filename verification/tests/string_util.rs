use databend_base::string_util::prefix_right_bound;
use databend_base::string_util::prefix_to_range;

fn s(v: &str) -> Option<String> {
    Some(v.to_string())
}

#[test]
fn test_empty_string() {
    assert_eq!(prefix_right_bound(""), None);
}

#[test]
fn test_single_char() {
    assert_eq!(prefix_right_bound("a"), s("b"));
    assert_eq!(prefix_right_bound("z"), s("{"));
    assert_eq!(prefix_right_bound("A"), s("B"));
}

#[test]
fn test_ascii_strings() {
    assert_eq!(prefix_right_bound("foo"), s("fop"));
    assert_eq!(prefix_right_bound("bar"), s("bas"));
    assert_eq!(prefix_right_bound("hello"), s("hellp"));
    assert_eq!(prefix_right_bound("abc"), s("abd"));
    assert_eq!(prefix_right_bound("foo/"), s("foo0"));
    assert_eq!(prefix_right_bound("hello!"), s("hello\""));
}

#[test]
fn test_unicode_strings() {
    // U+672C is followed by U+672D.
    assert_eq!(prefix_right_bound("\u{65e5}\u{672c}"), s("\u{65e5}\u{672d}"));

    // U+6587 is followed by U+6588.
    assert_eq!(prefix_right_bound("\u{4e2d}\u{6587}"), s("\u{4e2d}\u{6588}"));

    // Characters outside the basic plane.
    assert_eq!(prefix_right_bound("\u{1f389}"), s("\u{1f38a}"));
    assert_eq!(prefix_right_bound("\u{1f600}"), s("\u{1f601}"));
    assert_eq!(prefix_right_bound("foo\u{1f4af}"), s("foo\u{1f4b0}"));

    // Latin beyond ASCII.
    assert_eq!(prefix_right_bound("\u{00f1}"), s("\u{00f2}"));
}

#[test]
fn test_mixed_content() {
    assert_eq!(prefix_right_bound("foo/bar"), s("foo/bas"));
    assert_eq!(prefix_right_bound("path/to/file"), s("path/to/filf"));
}

#[test]
fn test_trailing_max_chars() {
    // When the last char is the largest one, the char before it is raised.
    let single_trailing = format!("a{}", char::MAX);
    assert_eq!(prefix_right_bound(&single_trailing), s("b"));

    let with_max = format!("ab{}", char::MAX);
    assert_eq!(prefix_right_bound(&with_max), s("ac"));

    let with_two_max = format!("ab{}{}", char::MAX, char::MAX);
    assert_eq!(prefix_right_bound(&with_two_max), s("ac"));

    let with_three_max = format!("aa{}{}{}", char::MAX, char::MAX, char::MAX);
    assert_eq!(prefix_right_bound(&with_three_max), s("ab"));
}

#[test]
fn test_all_max_chars() {
    let all_max = format!("{}{}", char::MAX, char::MAX);
    assert_eq!(prefix_right_bound(&all_max), None);

    let single_max = char::MAX.to_string();
    assert_eq!(prefix_right_bound(&single_max), None);
}

#[test]
fn test_range_query_semantics() {
    let prefix = "foo";
    let bound = prefix_right_bound(prefix).unwrap();
    let bound = bound.as_str();

    // These are in the range from the prefix to the bound.
    assert!("foo" >= prefix && "foo" < bound);
    assert!("foobar" >= prefix && "foobar" < bound);
    assert!("foo/something" >= prefix && "foo/something" < bound);

    // These are outside of it.
    assert!("fop" >= bound);
    assert!("goo" >= bound);
    assert!("fo" < prefix);
}

#[test]
fn test_prefix_to_range_basic() {
    assert_eq!(
        prefix_to_range("foo"),
        ("foo".to_string(), Some("fop".to_string()))
    );
    assert_eq!(
        prefix_to_range("a"),
        ("a".to_string(), Some("b".to_string()))
    );
}

#[test]
fn test_prefix_to_range_empty() {
    assert_eq!(prefix_to_range(""), ("".to_string(), None));
}

#[test]
fn test_prefix_to_range_unbounded() {
    let max_str = char::MAX.to_string();
    assert_eq!(prefix_to_range(&max_str), (max_str, None));
}

#[test]
fn test_last_char_below_surrogates_is_skipped() {
    // U+D7FF is followed by a surrogate, which is no character.
    assert_eq!(prefix_right_bound("a\u{d7ff}"), s("b"));
    assert_eq!(prefix_right_bound("\u{d7ff}"), None);
    assert_eq!(prefix_right_bound("\u{d7fe}"), s("\u{d7ff}"));
    assert_eq!(prefix_right_bound("\u{e000}"), s("\u{e001}"));
}

#[test]
fn test_bound_drops_what_follows_the_raised_char() {
    let p = format!("x{}y{}", char::MAX, char::MAX);
    assert_eq!(prefix_right_bound(&p), s(&format!("x{}z", char::MAX)));
}
