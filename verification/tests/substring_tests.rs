use string_utility::CharBound;
use string_utility::CharRange;
use string_utility::SubstringExt;

#[test]
fn try_substring() {
    let some_text = "hello, world!";
    let result = some_text.substring(CharRange::span(7, 12));
    assert_eq!(result, "world");

    let some_text = "42Hello, world!".to_string();
    let result = some_text.try_substring(CharRange::span(2, 7)).unwrap();
    let expected = "Hello";
    assert_eq!(result, expected);
}

#[test]
fn substring() {
    let some_text = "42Hello, world!".to_string();

    let result = some_text.substring(CharRange::span(2, 7));
    let expected = "Hello";
    assert_eq!(result, expected);

    let result = some_text.substring(CharRange::span(2, 424242));
    let expected = "Hello, world!";
    assert_eq!(result, expected);
}

#[test]
fn test_substring() {
    assert_eq!("foobar".substring(CharRange::up_to(3)), "foo");
}

#[test]
fn test_out_of_bounds() {
    assert_eq!("foobar".substring(CharRange::up_to(10)), "foobar");
    assert_eq!("foobar".substring(CharRange::span(6, 10)), "");
}

#[test]
fn test_start_and_end_equal() {
    assert_eq!("foobar".substring(CharRange::span(3, 3)), "");
}

#[test]
fn test_multiple_byte_characters() {
    assert_eq!("a\u{0303}".substring(CharRange::up_to(1)), "a"); // As opposed to "a\u{0303}".
    assert_eq!("a\u{0303}".substring(CharRange::span(1, 2)), "\u{0303}");
    assert_eq!("fõøbα®".substring(CharRange::span(2, 5)), "øbα");
}

#[test]
fn mozilla_substring_cases() {
    let any_string = "Mozilla";
    assert_eq!(any_string.substring(CharRange::up_to(1)), "M");
    assert_eq!(any_string.substring(CharRange::starting_at(1)), "ozilla");
    assert_eq!(any_string.substring(CharRange::up_to(6)), "Mozill");
    assert_eq!(any_string.substring(CharRange::starting_at(4)), "lla");
    assert_eq!(any_string.substring(CharRange::span(4, 7)), "lla");
    assert_eq!(any_string.substring(CharRange::up_to(7)), "Mozilla");
    assert_eq!(any_string.substring(CharRange::up_to(10)), "Mozilla");
    assert_eq!(any_string.substring(CharRange::starting_at(any_string.len() - 4)), "illa");
    assert_eq!(any_string.substring(CharRange::starting_at(any_string.len() - 5)), "zilla");
    assert_eq!(any_string.substring_len(4), "illa");
    assert_eq!(any_string.substring_len(5), "zilla");
    assert_eq!(any_string.substring(CharRange::span(2, 5)), "zil");
    assert_eq!(any_string.substring(CharRange::up_to(2)), "Mo");
    assert_eq!(any_string.substring(CharRange::everything()), "Mozilla");
}

#[test]
fn try_substring_empty_range_is_none() {
    assert_eq!("foobar".try_substring(CharRange::span(3, 3)), None);
    assert_eq!("foobar".try_substring(CharRange::span(5, 2)), None);
    assert_eq!("".try_substring(CharRange::span(0, 1)), Some("".to_string()));
}

#[test]
fn substring_inverted_range_is_empty() {
    assert_eq!("foobar".substring(CharRange::span(5, 2)), "");
    assert_eq!("foobar".substring(CharRange::new(CharBound::Excluded(5), CharBound::Included(5))), "");
}

#[test]
fn substring_inclusive_and_exclusive_bounds() {
    let text = "Mozilla";
    assert_eq!(text.substring(CharRange::up_to_inclusive(2)), "Moz");
    assert_eq!(
        text.substring(CharRange::new(CharBound::Excluded(0), CharBound::Included(4))),
        "ozil"
    );
    assert_eq!(
        text.substring(CharRange::new(CharBound::Included(0), CharBound::Unbounded)),
        "Mozilla"
    );
}

#[test]
fn substring_len_longer_than_text() {
    assert_eq!("abc".substring_len(10), "abc");
    assert_eq!("abc".substring_len(0), "");
}

#[test]
fn substring_on_empty_text() {
    assert_eq!("".substring(CharRange::everything()), "");
    assert_eq!("".substring(CharRange::span(0, 5)), "");
}

#[test]
fn substring_len_counts_characters_not_bytes() {
    assert_eq!("fõøbα®".substring_len(3), "bα®");
    assert_eq!("fõøbα®".substring_len(6), "fõøbα®");
}
