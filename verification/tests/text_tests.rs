use ghost_amd::search_path::{add_all_if_missing, add_if_missing, prepend_entry};
use ghost_amd::text::{
    chars_of, contains_str, ends_with_str, lines_of, push_decimal, push_padded, replace_str,
    string_of, trim_str, words_of,
};

fn s(v: &Vec<char>) -> String {
    v.iter().collect()
}

#[test]
fn trim_matches_std() {
    for t in ["", "  a b  ", "\t\nx\r\n", "\u{2003}y\u{3000}", "none"] {
        assert_eq!(trim_str(t), t.trim());
        assert_eq!(trim_str(&trim_str(t)), trim_str(t));
    }
}

#[test]
fn words_match_split_whitespace() {
    for t in ["", "   ", "a", " a  b\tc\n", "\u{85}x\u{a0}y"] {
        let w: Vec<String> = words_of(&chars_of(t)).iter().map(s).collect();
        let expect: Vec<String> = t.split_whitespace().map(|x| x.to_string()).collect();
        assert_eq!(w, expect);
    }
}

#[test]
fn lines_match_std() {
    for t in ["", "a", "a\n", "a\r\nb", "\n\n", "x\r", "l1\nl2\r\n\r\nl4"] {
        let got: Vec<String> = lines_of(&chars_of(t)).iter().map(s).collect();
        let expect: Vec<String> = t.lines().map(|x| x.to_string()).collect();
        assert_eq!(got, expect, "text {:?}", t);
    }
}

#[test]
fn search_functions() {
    let v = chars_of("hello world");
    assert!(contains_str(&v, "lo w"));
    assert!(contains_str(&v, ""));
    assert!(!contains_str(&v, "worlds"));
    assert!(ends_with_str(&v, "world"));
    assert!(!ends_with_str(&v, "hello"));
}

#[test]
fn replace_matches_std() {
    for (t, p, r) in [("aaa", "aa", "b"), ("xyxyx", "xy", ""), ("none", "q", "z"), ("warpSize*warpSize", "warpSize", "W")] {
        assert_eq!(s(&replace_str(&chars_of(t), p, r)), t.replace(p, r));
    }
}

#[test]
fn decimal_digits() {
    for n in [0u64, 7, 10, 12040, u64::MAX] {
        let mut v = Vec::new();
        push_decimal(&mut v, n);
        assert_eq!(s(&v), n.to_string());
    }
}

#[test]
fn padding_matches_format() {
    for (t, w) in [("ab", 5usize), ("abcdef", 3), ("", 2), ("é", 3)] {
        let mut v = Vec::new();
        push_padded(&mut v, &chars_of(t), w);
        assert_eq!(s(&v), format!("{:<w$}", t, w = w));
    }
}

#[test]
fn string_round_trip() {
    assert_eq!(string_of(&chars_of("ünï")), "ünï");
}

#[test]
fn search_path_prepending() {
    assert_eq!(prepend_entry("C:\\a", "C:\\b"), "C:\\a;C:\\b");
    assert_eq!(add_if_missing("C:\\b", "C:\\a"), "C:\\a;C:\\b");
    assert_eq!(add_if_missing("C:\\a;C:\\b", "C:\\a"), "C:\\a;C:\\b");
    let once = add_if_missing("X", "Y");
    assert_eq!(add_if_missing(&once, "Y"), once);
}

#[test]
fn search_path_many_entries() {
    let entries = vec!["A".to_string(), "B".to_string(), "A".to_string()];
    assert_eq!(add_all_if_missing("P", &entries), "B;A;P");
    assert_eq!(add_all_if_missing("P", &vec![]), "P");
    // An entry that is text of the list already is not added again.
    assert_eq!(add_all_if_missing("ABC", &vec!["B".to_string()]), "ABC");
}
