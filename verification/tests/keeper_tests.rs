use string_utility::KeeperCommonExt;
use string_utility::StringKeeperCommonExt;
use string_utility::SubstringExt;

#[test]
fn test_keep_after_include_string() {
    assert_eq!(
        "this is karøbα it was"
            .to_string()
            .keep("karøbα".to_string())
            .beginning_of_string() // default
            .after_pattern() // default
            .including_pattern() // default
            .render(),
        "karøbα it was"
    );
    assert_eq!(
        "this is karøbα it was"
            .to_string()
            .keep("karøbα".to_string())
            .render(),
        "karøbα it was"
    );
    assert_eq!(
        "karøbα"
            .to_string()
            .keep("kar".to_string())
            .after_pattern()
            .including_pattern()
            .render(),
        "karøbα"
    );
}

#[test]
fn test_keep_after_exclude_string() {
    assert_eq!(
        "this is karøbα it was"
            .to_string()
            .keep("karøbα".to_string())
            .beginning_of_string()
            .after_pattern()
            .excluding_pattern()
            .render(),
        " it was"
    );
    assert_eq!(
        "karøbα"
            .to_string()
            .keep("kar".to_string())
            .after_pattern()
            .excluding_pattern()
            .render(),
        "øbα"
    );
}

#[test]
fn test_keep_after_include_char() {
    assert_eq!(
        "this is karøbα it was"
            .to_string()
            .keep('k')
            .after_pattern()
            .including_pattern()
            .render(),
        "karøbα it was"
    );
    assert_eq!(
        "karøbα"
            .to_string()
            .keep('k')
            .after_pattern()
            .including_pattern()
            .render(),
        "karøbα"
    );
}

#[test]
fn test_keep_after_exclude_char() {
    assert_eq!(
        "this is karøbα it was"
            .to_string()
            .keep('k')
            .after_pattern()
            .excluding_pattern()
            .render(),
        "arøbα it was"
    );
    assert_eq!(
        "karøbα"
            .to_string()
            .keep('k')
            .after_pattern()
            .excluding_pattern()
            .render(),
        "arøbα"
    );
}

#[test]
fn test_keep_before_include_string() {
    assert_eq!(
        "this is karøbα it was"
            .to_string()
            .keep("øbα".to_string())
            .before_pattern()
            .including_pattern()
            .render(),
        "this is karøbα"
    );
    assert_eq!(
        "karøbα"
            .to_string()
            .keep("øbα".to_string())
            .before_pattern()
            .including_pattern()
            .render(),
        "karøbα"
    );
}

#[test]
fn test_keep_before_include_char() {
    assert_eq!(
        "this is karøbα it was"
            .to_string()
            .keep('ø')
            .before_pattern()
            .including_pattern()
            .render(),
        "this is karø"
    );
    assert_eq!(
        "karøbα"
            .to_string()
            .keep('ø')
            .before_pattern()
            .including_pattern()
            .render(),
        "karø"
    );
}

#[test]
fn test_keep_before_exclude_string() {
    assert_eq!(
        "this is karøbα it was"
            .to_string()
            .keep("øbα".to_string())
            .before_pattern()
            .excluding_pattern()
            .render(),
        "this is kar"
    );
    assert_eq!(
        "karøbα"
            .to_string()
            .keep("øbα".to_string())
            .before_pattern()
            .excluding_pattern()
            .render(),
        "kar"
    );
}

#[test]
fn test_keep_before_exclude_char() {
    assert_eq!(
        "this is karøbα it was"
            .to_string()
            .keep('ø')
            .before_pattern()
            .excluding_pattern()
            .render(),
        "this is kar"
    );
    assert_eq!(
        "karøbα"
            .to_string()
            .keep('ø')
            .before_pattern()
            .excluding_pattern()
            .render(),
        "kar"
    );

    assert_eq!(
        "3.141592650991234200000000000000000000"
            .to_string()
            .keep('0')
            .until_no_matched_pattern('0')
            .beginning_of_string()
            .before_pattern()
            .excluding_pattern()
            .render(),
        "3.14159265"
    );
}

#[test]
fn to_keep_until_pattern() {
    assert_eq!(
        "42.141592650991234200000000000000000000"
            .to_string()
            .cut('0')
            .end_of_string()
            .until_no_matched_pattern('0')
            .before_pattern()
            .excluding_pattern()
            .render(),
        "42.1415926509912342"
    );

    assert_eq!(
        "42.141592650991234200000000000000000000".trim_trailing_zeros(),
        "42.1415926509912342"
    );
}

#[test]
fn keep_of_missing_pattern_is_empty() {
    assert_eq!("abc".to_string().keep("zz".to_string()).render(), "");
    assert_eq!("abc".to_string().keep('z').render(), "");
    assert_eq!("abc".to_string().cut('z').render(), "");
}

#[test]
fn keep_string_end_of_string_anchors_last_occurrence() {
    assert_eq!(
        "one two one".to_string().keep("one".to_string()).end_of_string().render(),
        "one"
    );
    assert_eq!(
        "one two one"
            .to_string()
            .keep("one".to_string())
            .end_of_string()
            .before_pattern()
            .excluding_pattern()
            .render(),
        "one two "
    );
}

#[test]
fn keep_round_trip_reassembles_text() {
    let text = "hello world";
    let before = text
        .to_string()
        .keep("o w".to_string())
        .before_pattern()
        .excluding_pattern()
        .render();
    let after = text
        .to_string()
        .keep("o w".to_string())
        .after_pattern()
        .including_pattern()
        .render();
    assert_eq!(before + &after, text);
}

#[test]
fn keep_until_first_match_starts_at_next_occurrence() {
    assert_eq!(
        "xaxya".to_string().keep('a').until_first_matched_pattern('a').render(),
        "a"
    );
    assert_eq!(
        "xay".to_string()
            .keep('a')
            .before_pattern()
            .including_pattern()
            .until_first_matched_pattern('a')
            .render(),
        ""
    );
}

#[test]
fn keep_until_no_match_after_is_empty_and_cut_is_noop() {
    assert_eq!(
        "b0001x".to_string().keep('0').until_no_matched_pattern('0').render(),
        ""
    );
    assert_eq!(
        "b0001x".to_string().cut('0').until_no_matched_pattern('0').render(),
        "0001x"
    );
}

#[test]
fn trim_trailing_zeros_without_zero_is_empty() {
    assert_eq!("abc".trim_trailing_zeros(), "");
    assert_eq!("".trim_trailing_zeros(), "");
    assert_eq!("abc".trim_trailing_zeros().trim_trailing_zeros(), "abc".trim_trailing_zeros());
}

#[test]
fn trim_trailing_zeros_keeps_inner_zero_run_boundary() {
    assert_eq!("1.500".trim_trailing_zeros(), "1.5");
    assert_eq!("10".trim_trailing_zeros(), "1");
}
