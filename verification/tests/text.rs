use loom_server_local::path::{is_same_path, join_path, names_of, starts_at_root};
use loom_server_local::shell::{command_line, env_assignments, quote_value};
use loom_server_local::text::{
    chars_of, decimal_text, holds, is_space_char, join2, lines_of, parse_u32, part_of, same_text,
    split_once_text, split_text, strip_prefix_text, trim_text,
};
use loom_server_local::LocalConfig;
use std::path::Path;

#[test]
fn spaces_are_those_of_unicode() {
    for code in 0..=0x10FFFFu32 {
        if let Some(c) = char::from_u32(code) {
            assert_eq!(is_space_char(c), c.is_whitespace());
        }
    }
}

#[test]
fn trimming_takes_both_ends() {
    for s in ["", "  ", " a b ", "\t\n1\r\n", "x", "\u{2003}é\u{a0}"] {
        assert_eq!(trim_text(s), s.trim());
    }
}

#[test]
fn splitting_agrees_with_str() {
    for s in ["", ",", "a", "a,b", ",a,,é,"] {
        let parts: Vec<String> = s.split(',').map(str::to_string).collect();
        assert_eq!(split_text(s, ','), parts);
        let halves = s.split_once(',').map(|(a, b)| (a.to_string(), b.to_string()));
        assert_eq!(split_once_text(s, ','), halves);
    }
    let mut both = split_text("a,b", ',');
    both.extend(split_text("c", ','));
    assert_eq!(split_text("a,b,c", ','), both);
}

#[test]
fn prefixes_and_needles() {
    assert_eq!(strip_prefix_text("weaver-x", "weaver-"), Some("x".to_string()));
    assert_eq!(strip_prefix_text("weave", "weaver-"), None);
    assert_eq!(strip_prefix_text("x", ""), Some("x".to_string()));
    assert!(holds("can't find session: a", "can't find session"));
    assert!(holds("abc", ""));
    assert!(holds("aab", "ab"));
    assert!(!holds("ab", "abc"));
    assert!(!holds("", "a"));
}

#[test]
fn lines_agree_with_str() {
    for s in ["", "\n", "a", "a\n", "a\nb", "a\r\nb\r\n", "\n\n", "a\r", "a\r\n\r\n", "a\r\r\n"] {
        let lines: Vec<String> = s.lines().map(str::to_string).collect();
        assert_eq!(lines_of(s), lines);
    }
}

#[test]
fn numbers_read_back() {
    for n in [0u32, 1, 9, 10, 42, 99, 100, 12345, u32::MAX] {
        assert_eq!(decimal_text(n), n.to_string());
        assert_eq!(parse_u32(&decimal_text(n)), Some(n));
    }
    for s in ["", "+", "-1", "4294967296", "+7", "007", "1 ", "0x1", "99999999999999999999", "++1"] {
        assert_eq!(parse_u32(s), s.parse::<u32>().ok());
    }
}

#[test]
fn text_pieces() {
    assert_eq!(chars_of("aé"), vec!['a', 'é']);
    assert_eq!(part_of("héllo", 1, 3), "él");
    assert_eq!(join2("a", "b"), "ab");
    assert!(same_text("é", "é"));
    assert!(!same_text("a", "b"));
}

#[test]
fn joining_paths_agrees_with_std() {
    for base in ["", "/", "/a", "/a/", "a", "a/b/", "."] {
        for part in ["", "b", "/c", "b/c", ".loom", "weaver-x"] {
            let joined = Path::new(base).join(part);
            assert_eq!(join_path(base, part), joined.to_str().unwrap());
        }
    }
}

#[test]
fn path_equality_agrees_with_std() {
    let paths = ["", "/", "/a", "/a/", "a", "./a", "a/.", "/a/./b", "/a//b", "/a/b", "a/../b", ".", "./"];
    for a in paths {
        for b in paths {
            assert_eq!(is_same_path(a, b), Path::new(a) == Path::new(b), "{a} {b}");
        }
    }
    assert!(starts_at_root("/a"));
    assert!(!starts_at_root("a/"));
    assert_eq!(names_of("/a//b/"), vec!["a".to_string(), "b".to_string()]);
}

#[test]
fn quotes_are_closed_escaped_and_opened_again() {
    assert_eq!(quote_value("it's"), "it'\\''s");
    assert_eq!(quote_value("''"), "'\\'''\\''");
    assert_eq!(quote_value(""), "");
    for s in ["a'b'c", "'", "plain", "é'"] {
        assert_eq!(quote_value(s), s.replace('\'', "'\\''"));
    }
}

#[test]
fn command_line_sets_the_environment_and_starts_loom() {
    let config = LocalConfig::new("http://localhost:8080".to_string(), None, None);
    let env = vec![
        ("A".to_string(), "1".to_string()),
        ("B".to_string(), "x'y z".to_string()),
    ];
    assert_eq!(env_assignments(&env), "A='1' B='x'\\''y z' ");
    assert_eq!(
        command_line(&config, &env),
        "exec env A='1' B='x'\\''y z' LOOM_SERVER_URL='http://localhost:8080' loom"
    );
    assert_eq!(
        command_line(&config, &[]),
        "exec env LOOM_SERVER_URL='http://localhost:8080' loom"
    );
}
