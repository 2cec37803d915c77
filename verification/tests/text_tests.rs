use spark_debugger::text::{
    contains, decimal_string, join_strings, padded, repeated, split_lines, starts_with, trim_chars,
};

fn cs(s: &str) -> Vec<char> {
    s.chars().collect()
}

#[test]
fn lines_match_str_lines() {
    for s in ["", "\n", "a", "a\n", "a\nb", "a\r\nb\r\n", "a\r", "\n\nx\n\n", "x\ry\n", "é\n€"] {
        let mine = split_lines(&cs(s));
        let std: Vec<String> = s.lines().map(|l| l.to_string()).collect();
        assert_eq!(mine, std, "on {:?}", s);
    }
}

#[test]
fn lines_rejoin_to_the_text() {
    let s = "one\ntwo\n\nthree\n";
    let ls = split_lines(&cs(s));
    assert_eq!(join_strings(&ls, "\n"), "one\ntwo\n\nthree");
}

#[test]
fn trim_matches_str_trim() {
    for s in ["", "  ", " a ", "\u{3000}x\u{2029}", "\ta b\n", "\u{85}y", "\u{200b}z"] {
        let t: String = trim_chars(&cs(s)).into_iter().collect();
        assert_eq!(t, s.trim(), "on {:?}", s);
    }
}

#[test]
fn decimal_matches_display() {
    for n in [0u64, 7, 10, 99, 100, 65535, 1234567890, u64::MAX] {
        assert_eq!(decimal_string(n), n.to_string());
    }
}

#[test]
fn padding_matches_format_width() {
    assert_eq!(padded("abc", 6), format!("{:<6}", "abc"));
    assert_eq!(padded("abcdefgh", 6), "abcdefgh");
    assert_eq!(padded("é", 3), format!("{:<3}", "é"));
    assert_eq!(repeated('-', 82), "-".repeat(82));
}

#[test]
fn prefix_and_substring_tests() {
    assert!(starts_with(&cs("error[E1]"), &cs("error")));
    assert!(!starts_with(&cs("err"), &cs("error")));
    assert!(contains(&cs("a profiles for the non root b"), &cs("profiles for the non root")));
    assert!(!contains(&cs("profiles for the root"), &cs("non root")));
    assert!(contains(&cs("abc"), &cs("")));
}
