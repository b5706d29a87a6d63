use promptforge::braces::{
    count_left_braces, count_right_braces, has_multiple_words_between_braces, has_no_braces,
    has_only_double_braces, has_only_single_braces,
};
use promptforge::text::{is_whitespace, str_equal};

#[test]
fn counts_each_brace_separately() {
    assert_eq!(count_left_braces(""), 0);
    assert_eq!(count_right_braces(""), 0);
    assert_eq!(count_left_braces("{a} {{b}} {"), 4);
    assert_eq!(count_right_braces("{a} {{b}} {"), 3);
    assert_eq!(count_left_braces("no braces"), 0);
    assert_eq!(count_right_braces("}}}"), 3);
}

#[test]
fn no_braces_means_neither_kind() {
    assert!(has_no_braces(""));
    assert!(has_no_braces("plain"));
    assert!(!has_no_braces("{"));
    assert!(!has_no_braces("}"));
    assert!(!has_no_braces("a {b} c"));
}

#[test]
fn single_style_needs_complete_single_spans() {
    assert!(has_only_single_braces("{a}"));
    assert!(has_only_single_braces("{}"));
    assert!(has_only_single_braces("x {a}{b} y"));
    assert!(has_only_single_braces("{ two words }"));

    assert!(!has_only_single_braces(""));
    assert!(!has_only_single_braces("text"));
    assert!(!has_only_single_braces("{a"));
    assert!(!has_only_single_braces("a}"));
    assert!(!has_only_single_braces("}{"));
    assert!(!has_only_single_braces("{{a}}"));
    assert!(!has_only_single_braces("{a} {{b}}"));
    assert!(!has_only_single_braces("{ {a} }"));
}

#[test]
fn double_style_needs_complete_double_spans() {
    assert!(has_only_double_braces("{{a}}"));
    assert!(has_only_double_braces("{{}}"));
    assert!(has_only_double_braces("x {{a}}{{b}} y"));

    assert!(!has_only_double_braces(""));
    assert!(!has_only_double_braces("text"));
    assert!(!has_only_double_braces("{a}"));
    assert!(!has_only_double_braces("{{a}"));
    assert!(!has_only_double_braces("{a}}"));
    assert!(!has_only_double_braces("{{a} }"));
    assert!(!has_only_double_braces("{ {a}}"));
    assert!(!has_only_double_braces("{{{a}}}"));
    assert!(!has_only_double_braces("{{a}} {b}"));
    assert!(!has_only_double_braces("{{a}} {{"));
}

#[test]
fn no_string_follows_both_styles() {
    let samples = [
        "", "a", "{a}", "{{a}}", "{a} {{b}}", "{{a}} {b}", "{", "}", "{}", "{{}}", "{{{a}}}",
        "}{", "{a}{b}", "{{a}}{{b}}",
    ];
    for s in samples {
        assert!(!(has_only_single_braces(s) && has_only_double_braces(s)));
    }
}

#[test]
fn several_words_are_found_in_either_style() {
    assert!(has_multiple_words_between_braces("{a b}"));
    assert!(has_multiple_words_between_braces("{{ hello world }}"));
    assert!(has_multiple_words_between_braces("{ok} and {not ok}"));
    assert!(has_multiple_words_between_braces("{a\tb}"));
    assert!(has_multiple_words_between_braces("{a\u{3000}b}"));
    assert!(has_multiple_words_between_braces("{var words another}}"));

    assert!(!has_multiple_words_between_braces(""));
    assert!(!has_multiple_words_between_braces("two words"));
    assert!(!has_multiple_words_between_braces("{a}"));
    assert!(!has_multiple_words_between_braces("{ a }"));
    assert!(!has_multiple_words_between_braces("{{ a }}"));
    assert!(!has_multiple_words_between_braces("{}"));
    assert!(!has_multiple_words_between_braces("{   }"));
    assert!(!has_multiple_words_between_braces("{a} b {c}"));
    assert!(!has_multiple_words_between_braces("a b}"));
    assert!(!has_multiple_words_between_braces("{a b"));
    assert!(!has_multiple_words_between_braces("} a b {"));
}

#[test]
fn whitespace_is_the_unicode_property() {
    for c in [' ', '\t', '\n', '\r', '\u{0B}', '\u{0C}', '\u{85}', '\u{A0}', '\u{1680}',
        '\u{2000}', '\u{200A}', '\u{2028}', '\u{2029}', '\u{202F}', '\u{205F}', '\u{3000}']
    {
        assert!(is_whitespace(c));
        assert!(c.is_whitespace());
    }
    for c in ['a', '{', '}', '_', '0', '\u{200B}', '\u{FEFF}', '\u{1F}', '\u{0E}'] {
        assert!(!is_whitespace(c));
        assert!(!c.is_whitespace());
    }
}

#[test]
fn strings_compare_by_their_text() {
    assert!(str_equal("", ""));
    assert!(str_equal("héllo", "héllo"));
    assert!(!str_equal("a", "b"));
    assert!(!str_equal("a", "ab"));
    assert!(!str_equal("ab", "a"));
}
