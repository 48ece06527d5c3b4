use supervictor::cli::env::{lookup_var, make_env, parse_env, parse_env_vars, strip_inline_comment, strip_quotes, with_var};

#[test]
fn test_parse_basic() {
    let input = "FOO=bar\nBAZ=qux\n";
    let map = parse_env(input);
    assert_eq!(map.get("FOO").unwrap(), "bar");
    assert_eq!(map.get("BAZ").unwrap(), "qux");
}

#[test]
fn test_parse_comments_and_blanks() {
    let input = "# comment\n\nFOO=bar\n  # another comment\n";
    let map = parse_env(input);
    assert_eq!(map.len(), 1);
    assert_eq!(map.get("FOO").unwrap(), "bar");
}

#[test]
fn test_parse_quoted_values() {
    let input = "A=\"hello world\"\nB='single quoted'\n";
    let map = parse_env(input);
    assert_eq!(map.get("A").unwrap(), "hello world");
    assert_eq!(map.get("B").unwrap(), "single quoted");
}

#[test]
fn test_parse_equals_in_value() {
    let input = "URL=https://example.com?a=1&b=2\n";
    let map = parse_env(input);
    assert_eq!(map.get("URL").unwrap(), "https://example.com?a=1&b=2");
}

#[test]
fn test_parse_empty_value() {
    let input = "EMPTY=\n";
    let map = parse_env(input);
    assert_eq!(map.get("EMPTY").unwrap(), "");
}

#[test]
fn test_inline_comment() {
    let input = "FOO=bar # this is a comment\n";
    let map = parse_env(input);
    assert_eq!(map.get("FOO").unwrap(), "bar");
}

#[test]
fn parse_env_later_definition_wins() {
    let map = parse_env("K=1\nK=2\n");
    assert_eq!(map.len(), 1);
    assert_eq!(map.get("K").unwrap(), "2");
}

#[test]
fn parse_env_skips_empty_key_and_lines_without_equals() {
    let map = parse_env("=v\nnot an entry\n  X = y  \r\n");
    assert_eq!(map.len(), 1);
    assert_eq!(map.get("X").unwrap(), "y");
}

#[test]
fn strip_quotes_cases() {
    assert_eq!(strip_quotes("\"a b\""), "a b");
    assert_eq!(strip_quotes("'x'"), "x");
    assert_eq!(strip_quotes("\"x'"), "\"x'");
    assert_eq!(strip_quotes("\""), "\"");
    assert_eq!(strip_quotes("\"\""), "");
}

#[test]
fn strip_inline_comment_cases() {
    assert_eq!(strip_inline_comment("a  # c"), "a");
    assert_eq!(strip_inline_comment("a#b"), "a#b");
    assert_eq!(strip_inline_comment(" # c"), "");
}

#[test]
fn test_make_env_merges() {
    // The process's variables, as the driver reads them.
    let process = vec![("PATH".to_string(), "/usr/bin:/bin".to_string()), ("HOME".to_string(), "/root".to_string())];
    let overrides = vec![("TEST_KEY".to_string(), "test_value".to_string())];
    let env = make_env(&process, &overrides);
    assert_eq!(lookup_var(&env, "TEST_KEY").unwrap(), "test_value");
    // PATH should exist from the process environment
    assert!(lookup_var(&env, "PATH").is_some());
}

#[test]
fn overrides_win_over_process_vars() {
    let process = vec![("A".to_string(), "1".to_string()), ("B".to_string(), "2".to_string())];
    let vars = parse_env_vars("B=3\n# c\nC='x y'\n");
    let env = make_env(&process, &vars);
    assert_eq!(lookup_var(&env, "A").as_deref(), Some("1"));
    assert_eq!(lookup_var(&env, "B").as_deref(), Some("3"));
    assert_eq!(lookup_var(&env, "C").as_deref(), Some("x y"));
    assert!(lookup_var(&env, "D").is_none());
    let env2 = with_var(&env, "A", "9");
    assert_eq!(lookup_var(&env2, "A").as_deref(), Some("9"));
}
