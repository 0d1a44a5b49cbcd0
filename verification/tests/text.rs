use dinghy_lib::text::{contains, join, lines, replace, split, split_whitespace, trim};

#[test]
fn split_keeps_empty_pieces() {
    assert_eq!(split("a,,b,", ','), vec!["a", "", "b", ""]);
    assert_eq!(split("", ','), vec![""]);
}

#[test]
fn join_inverts_split() {
    let parts = split("x y  z", ' ');
    assert_eq!(join(&parts, " "), "x y  z");
}

#[test]
fn words_are_runs_without_white_space() {
    assert_eq!(split_whitespace("  a\tb \u{a0} c\n"), vec!["a", "b", "c"]);
    assert!(split_whitespace(" \t ").is_empty());
}

#[test]
fn lines_follow_line_feeds() {
    assert_eq!(lines("a\r\nb\n\nc"), vec!["a", "b", "", "c"]);
    assert_eq!(lines("a\n"), "a\n".lines().collect::<Vec<_>>());
    assert_eq!(lines("a\r"), "a\r".lines().collect::<Vec<_>>());
    assert!(lines("").is_empty());
}

#[test]
fn trim_and_contains_and_replace() {
    assert_eq!(trim("  a b \n"), "a b");
    assert_eq!(trim(" \t"), "");
    assert!(contains("hello", "ell"));
    assert!(contains("hello", ""));
    assert!(!contains("hello", "elo"));
    assert_eq!(replace("aXYbXYXYc", "XY", "-"), "a-b--c");
    assert_eq!(replace("aaa", "aa", "b"), "aaa".replace("aa", "b"));
}

fn samples() -> Vec<String> {
    let alphabet = ['a', 'b', 'X', 'Y', ' ', '\t', '\n', '\r', ',', '/', '\u{a0}', '\u{2003}', '\u{85}', 'é', '\u{200b}'];
    let mut out = vec![String::new()];
    let mut state: u32 = 12345;
    for len in 0..7 {
        for _ in 0..60 {
            let mut s = String::new();
            for _ in 0..len {
                state = state.wrapping_mul(1664525).wrapping_add(1013904223);
                s.push(alphabet[(state >> 16) as usize % alphabet.len()]);
            }
            out.push(s);
        }
    }
    out
}

#[test]
fn text_functions_agree_with_the_standard_library() {
    use_samples(&samples());
}

fn use_samples(all: &[String]) {
    for s in all {
        assert_eq!(split(s, ','), s.split(',').collect::<Vec<_>>(), "{:?}", s);
        assert_eq!(split_whitespace(s), s.split_whitespace().collect::<Vec<_>>(), "{:?}", s);
        assert_eq!(lines(s), s.lines().collect::<Vec<_>>(), "{:?}", s);
        assert_eq!(trim(s), s.trim(), "{:?}", s);
        assert_eq!(join(&split(s, '/'), "/"), *s);
        for t in ["a", "ab", " ", "XY", "", "\n\r"] {
            assert_eq!(contains(s, t), s.contains(t), "{:?} {:?}", s, t);
            if !t.is_empty() {
                assert_eq!(replace(s, t, "<>"), s.replace(t, "<>"), "{:?} {:?}", s, t);
            }
        }
    }
}
