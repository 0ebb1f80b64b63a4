use qt_cargo_base::scanner::token_spans;
use qt_cargo_base::text::{
    ascii_lowercase, chars_of, contains_chars, occurs_at_position, starts_with_chars, string_of,
};

fn chars(s: &str) -> Vec<char> {
    s.chars().collect()
}

#[test]
fn characters_are_collected_in_order() {
    assert_eq!(chars_of(""), Vec::<char>::new());
    assert_eq!(chars_of("aé\u{1F600}z"), vec!['a', 'é', '\u{1F600}', 'z']);
}

#[test]
fn strings_are_built_from_a_range_of_characters() {
    let text = chars("héllo wörld");
    assert_eq!(string_of(&text, 0, 5), "héllo");
    assert_eq!(string_of(&text, 6, 11), "wörld");
    assert_eq!(string_of(&text, 3, 3), "");
    assert_eq!(string_of(&text, 0, text.len()), "héllo wörld");
}

#[test]
fn occurrences_are_found_where_they_are() {
    let hay = chars("qobject_p.h");
    let needle = chars("_p.h");
    assert!(occurs_at_position(&hay, &needle, 7));
    assert!(!occurs_at_position(&hay, &needle, 6));
    assert!(!occurs_at_position(&hay, &needle, 8));
    assert!(!occurs_at_position(&hay, &needle, 100));
    assert!(occurs_at_position(&hay, &chars(""), 11));
    assert!(!occurs_at_position(&hay, &chars(""), 12));
    assert!(contains_chars(&hay, &needle));
    assert!(contains_chars(&hay, &chars("")));
    assert!(contains_chars(&hay, &hay));
    assert!(contains_chars(&chars(""), &chars("")));
    assert!(!contains_chars(&hay, &chars("_p.hh")));
    assert!(!contains_chars(&chars("_p."), &needle));
    assert!(!contains_chars(&chars(""), &needle));
    for hay in ["", "a", "_p.h", "x_p.h", "_p.hx", "_p_p.h", "_p._p.h", "_p.", "p.h", "__pp..hh"] {
        assert_eq!(contains_chars(&chars(hay), &needle), hay.contains("_p.h"), "{:?}", hay);
    }
}

#[test]
fn prefixes_are_told_within_a_range() {
    let text = chars("class QFoo");
    assert!(starts_with_chars(&text, 6, 10, &chars("Q")));
    assert!(starts_with_chars(&text, 6, 10, &chars("QFoo")));
    assert!(starts_with_chars(&text, 6, 10, &chars("")));
    assert!(!starts_with_chars(&text, 6, 10, &chars("QFooo")));
    assert!(!starts_with_chars(&text, 6, 9, &chars("QFoo")));
    assert!(!starts_with_chars(&text, 6, 10, &chars("F")));
    assert!(starts_with_chars(&text, 0, 5, &chars("class")));
    assert!(starts_with_chars(&text, 3, 3, &chars("")));
    assert!(!starts_with_chars(&text, 3, 3, &chars("s")));
}

#[test]
fn only_ascii_capitals_are_lowered() {
    assert_eq!(ascii_lowercase("QtCore"), "qtcore");
    assert_eq!(ascii_lowercase("CoreMod"), "coremod");
    assert_eq!(ascii_lowercase("AZaz09@[`{"), "azaz09@[`{");
    assert_eq!(ascii_lowercase("ÄÖÜ-Ünïcödé"), "ÄÖÜ-Ünïcödé");
    assert_eq!(ascii_lowercase(""), "");
    for sample in ["QtCore", "ABC_def", "Ünï", "MiXeD 123", "İstanbul"] {
        assert_eq!(ascii_lowercase(sample), sample.to_ascii_lowercase());
    }
}

#[test]
fn words_are_those_of_split_whitespace() {
    let samples = [
        "",
        " ",
        "a",
        " a",
        "a ",
        "  a  b  ",
        "class QFoo {\n\tint x;\r\n};\n",
        "\u{00A0}x\u{2003}y\u{3000}z\u{0085}",
        "tab\tsep\u{000B}vt\u{000C}ff",
        "zero\u{200B}width joined\u{FEFF}bom",
        "one\u{2028}two\u{2029}three\u{202F}four\u{205F}five\u{1680}six",
        "ünïcödé wörds ärë fine",
    ];
    for sample in samples {
        let text = chars(sample);
        let words: Vec<String> = token_spans(&text)
            .into_iter()
            .map(|(from, to)| text[from..to].iter().collect())
            .collect();
        let expected: Vec<String> = sample.split_whitespace().map(|w| w.to_string()).collect();
        assert_eq!(words, expected, "{:?}", sample);
    }
}
