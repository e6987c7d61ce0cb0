use regex::Regex;
use string_utility::KeeperCommonExt;
use string_utility::KeeperEncoding;
use string_utility::StringKeeperCommonExt;

#[test]
fn lib_test_keep_after_include_string() {
    assert_eq!(
        "this is karøbα it was"
            .to_string()
            .keep(Regex::new("karøbα").unwrap())
            .beginning_of_string() // default
            .after_pattern() // default
            .including_pattern() // default
            .render(),
        "karøbα it was"
    );
    assert_eq!(
        "this is karøbα it was"
            .to_string()
            .keep(Regex::new("karøbα").unwrap())
            .render(),
        "karøbα it was"
    );
    assert_eq!(
        "karøbα"
            .to_string()
            .keep(Regex::new("kar").unwrap())
            .after_pattern()
            .including_pattern()
            .render(),
        "karøbα"
    );
}

#[test]
fn lib_test_keep_after_exclude_string() {
    assert_eq!(
        "this is karøbα it was"
            .to_string()
            .keep(Regex::new("karøbα").unwrap())
            .beginning_of_string()
            .after_pattern()
            .excluding_pattern()
            .render(),
        " it was"
    );
    assert_eq!(
        "karøbα"
            .to_string()
            .keep(Regex::new("kar").unwrap())
            .after_pattern()
            .excluding_pattern()
            .render(),
        "øbα"
    );
}

#[test]
fn lib_test_keep_before_include_string() {
    assert_eq!(
        "this is karøbα it was"
            .to_string()
            .keep(Regex::new("øbα").unwrap())
            .utf8_encoding()
            .before_pattern()
            .including_pattern()
            .render(),
        "this is karøbα"
    );
    assert_eq!(
        "karøbα"
            .to_string()
            .keep(Regex::new("øbα").unwrap())
            .before_pattern()
            .including_pattern()
            .render(),
        "karøbα"
    );

    assert_eq!(
        "My numbør is 555-0100 and this is some other useless information"
            .to_string()
            .keep(Regex::new(r"\d{3}-\d{4}").unwrap())
            .utf8_encoding()
            .before_pattern()
            .including_pattern()
            .render(),
        "My numbør is 555-0100"
    );

    assert_eq!(
        "My number is 555-0100 and this is some other useless information"
            .to_string()
            .keep(Regex::new(r"\d{3}-\d{4}").unwrap())
            .before_pattern()
            .including_pattern()
            .render(),
        "My number is 555-0100"
    );
}

#[test]
fn lib_test_keep_before_exclude_string() {
    assert_eq!(
        "this is karøbα it was"
            .to_string()
            .keep(Regex::new("øbα").unwrap())
            .before_pattern()
            .excluding_pattern()
            .render(),
        "this is kar"
    );
    assert_eq!(
        "karøbα"
            .to_string()
            .keep(Regex::new("øbα").unwrap())
            .before_pattern()
            .excluding_pattern()
            .render(),
        "kar"
    );
}

#[test]
fn regex_keep_of_missing_pattern_is_empty() {
    assert_eq!(
        "abc".to_string().keep(Regex::new("z+").unwrap()).render(),
        ""
    );
}

#[test]
fn regex_end_of_string_anchors_last_match() {
    assert_eq!(
        "a1b22c333"
            .to_string()
            .keep(Regex::new(r"\d+").unwrap())
            .end_of_string()
            .render(),
        "333"
    );
}

#[test]
fn regex_after_exclude_counts_match_in_characters() {
    assert_eq!(
        "øabc"
            .to_string()
            .keep(Regex::new("ø").unwrap())
            .after_pattern()
            .excluding_pattern()
            .render(),
        "abc"
    );
}

#[test]
fn regex_empty_match_walks_back_default_width() {
    assert_eq!(
        "yyy"
            .to_string()
            .keep(Regex::new("x*").unwrap())
            .utf8_encoding()
            .before_pattern()
            .including_pattern()
            .render(),
        ""
    );
}

#[test]
fn regex_encoding_decides_walk_back_width() {
    // the match ends in a two-byte character: one UTF-16 code unit,
    // two UTF-8 bytes, so the boundary walks back by different amounts
    let text = "αβγδε x";
    assert_eq!(
        text.to_string()
            .keep(Regex::new("αβγ").unwrap())
            .utf8_encoding()
            .before_pattern()
            .including_pattern()
            .render(),
        "αβγδ"
    );
    assert_eq!(
        text.to_string()
            .keep(Regex::new("αβγ").unwrap())
            .utf16_encoding()
            .before_pattern()
            .including_pattern()
            .render(),
        "αβγδε"
    );
}

#[test]
fn regex_set_encoding_matches_dedicated_builders() {
    let text = "αβγδε x";
    assert_eq!(
        text.to_string()
            .keep(Regex::new("αβγ").unwrap())
            .set_encoding(KeeperEncoding::Utf8)
            .before_pattern()
            .including_pattern()
            .render(),
        "αβγδ"
    );
}
