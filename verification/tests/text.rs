use sumrzr::text::{ends_with_text, push_decimal, replace_text, trim_end_matches_text};

fn dec(n: u64) -> String {
    let mut s = String::new();
    push_decimal(&mut s, n);
    s
}

#[test]
fn decimal_notation_matches_to_string() {
    for n in [0u64, 7, 10, 99, 100, 8192, 65535, 1_000_000, u64::MAX] {
        assert_eq!(dec(n), n.to_string());
    }
    let mut s = "port ".to_string();
    push_decimal(&mut s, 8080);
    assert_eq!(s, "port 8080");
}

#[test]
fn replace_text_matches_str_replace() {
    for (s, p, r) in [
        ("aaaa", "aa", "b"),
        ("-E2B-E2B", "-E2B", "_E2B"),
        ("xyz", "q", "Q"),
        ("åäö-åäö", "ä", "a"),
        ("", "a", "b"),
    ] {
        assert_eq!(replace_text(s, p, r), s.replace(p, r));
    }
}

#[test]
fn trim_end_matches_text_matches_str() {
    for (s, p) in [("a.gguf.gguf", ".gguf"), ("abab", "ab"), ("xyz", "q"), ("", "a"), ("aaa", "a")] {
        assert_eq!(trim_end_matches_text(s, p), s.trim_end_matches(p));
    }
}

#[test]
fn ends_with_text_matches_str() {
    for (s, p) in [("abc", "bc"), ("abc", "abcd"), ("abc", ""), ("", ""), ("äb", "b"), ("ab", "a")] {
        assert_eq!(ends_with_text(s, p), s.ends_with(p));
    }
}
