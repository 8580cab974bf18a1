use mdmg::replace::replace_all;
use mdmg::text::{chars_of, lex_le_chars, string_of, trim};

fn replace_via_chars(s: &str, from: &str, to: &str) -> String {
    string_of(&replace_all(&chars_of(s), &chars_of(from), &chars_of(to)))
}

#[test]
fn chars_round_trip_through_a_string() {
    let text = "héllo wörld";
    assert_eq!(string_of(&chars_of(text)), text.to_string());
}

#[test]
fn trim_removes_surrounding_whitespace() {
    assert_eq!(trim("  testing\n"), "testing".to_string());
    assert_eq!(trim("\t x y \u{a0}"), "x y".to_string());
    assert_eq!(trim("solid"), "solid".to_string());
    assert_eq!(trim("   \n\t "), "".to_string());
    assert_eq!(trim(""), "".to_string());
}

#[test]
fn replace_all_matches_the_standard_replace() {
    let cases = vec![
        ("ExampleService", "Example", "Himanoa"),
        ("aaa", "aa", "b"),
        ("abcabc", "bc", "x"),
        ("no match here", "zzz", "y"),
        ("", "a", "b"),
        ("ab", "", "x"),
        ("", "", "x"),
        ("overlap overlap", "overlap", "overlap overlap"),
    ];
    for (s, from, to) in cases {
        assert_eq!(
            replace_via_chars(s, from, to),
            s.replace(from, to),
            "replace mismatch on {:?}",
            s
        );
    }
}

#[test]
fn lex_le_chars_orders_texts() {
    assert!(lex_le_chars(&chars_of("abc"), &chars_of("abd")));
    assert!(!lex_le_chars(&chars_of("abd"), &chars_of("abc")));
    assert!(lex_le_chars(&chars_of("ab"), &chars_of("abc")));
    assert!(!lex_le_chars(&chars_of("abc"), &chars_of("ab")));
    assert!(lex_le_chars(&chars_of(""), &chars_of("a")));
    assert!(lex_le_chars(&chars_of("same"), &chars_of("same")));
}
