use asl::glob::{glob_match, match_tokens, tokenize, GlobToken};
use asl::text::{chars_of, join, str_equal, str_less};

#[test]
fn star_covers_any_run() {
    assert_eq!(glob_match("foo*.log", "foo23.log"), Some(true));
    assert_eq!(glob_match("*.log", "zebra.log"), Some(true));
    assert_eq!(glob_match("foo*.*", "foobar.zebra"), Some(true));
    assert_eq!(glob_match("foo*.log", "foo23.txt"), Some(false));
    assert_eq!(glob_match("*", ""), Some(true));
    assert_eq!(glob_match("a*b*c", "aXXbYYc"), Some(true));
    assert_eq!(glob_match("a*b*c", "aXXbYY"), Some(false));
    assert_eq!(glob_match("", ""), Some(true));
    assert_eq!(glob_match("", "a"), Some(false));
}

#[test]
fn plain_patterns_cover_themselves_only() {
    assert_eq!(glob_match("hello", "hello"), Some(true));
    assert_eq!(glob_match("hello", "hello!"), Some(false));
    assert_eq!(glob_match("hello", "hell"), Some(false));
    assert_eq!(glob_match("héllo", "héllo"), Some(true));
}

#[test]
fn backslash_escapes() {
    assert_eq!(glob_match(r"a\*b", "a*b"), Some(true));
    assert_eq!(glob_match(r"a\*b", "aXb"), Some(false));
    assert_eq!(glob_match(r"a\\b", r"a\b"), Some(true));
    assert_eq!(glob_match(r"a\\*", r"a\anything"), Some(true));
}

#[test]
fn trailing_backslash_is_malformed() {
    assert_eq!(glob_match("abc\\", "abc"), None);
    assert_eq!(glob_match("\\", ""), None);
    assert_eq!(tokenize(&vec!['a', '\\']), None);
}

#[test]
fn tokens_of_a_pattern() {
    assert_eq!(
        tokenize(&vec!['a', '*', '\\', '*']),
        Some(vec![GlobToken::Literal('a'), GlobToken::Star, GlobToken::Literal('*')])
    );
    assert!(match_tokens(&vec![GlobToken::Star, GlobToken::Literal('z')], &vec!['x', 'y', 'z']));
    assert!(!match_tokens(&vec![GlobToken::Literal('z'), GlobToken::Star], &vec!['x', 'y', 'z']));
}

#[test]
fn strings_compare_by_characters() {
    assert!(str_equal("abc", "abc"));
    assert!(!str_equal("abc", "abd"));
    assert!(!str_equal("abc", "ab"));
    assert!(str_less("abc", "abd"));
    assert!(str_less("ab", "abc"));
    assert!(!str_less("abc", "abc"));
    assert!(!str_less("b", "abc"));
    assert!(str_less("", "a"));
    assert!(str_less("z", "é"));
    assert_eq!(chars_of("héllo"), vec!['h', 'é', 'l', 'l', 'o']);
    assert_eq!(join("foo", "bar"), "foobar");
}
