use scarb_process::shlex_join;

#[test]
fn renders_plain_tokens_with_single_spaces() {
    let args = vec!["a".to_string(), "b c".to_string()];
    assert_eq!(shlex_join("echo", &args), "echo a b c");
}

#[test]
fn escapes_token_with_double_quote() {
    let args = vec!["has\"quote".to_string()];
    let line = shlex_join("echo", &args);
    assert_eq!(line, "echo \"has\\\"quote\"");
    assert!(!line.contains("has\"quote"));
}

#[test]
fn renders_program_alone() {
    assert_eq!(shlex_join("ls", &Vec::new()), "ls");
}

#[test]
fn escapes_quoted_program() {
    let args = vec!["x".to_string()];
    assert_eq!(shlex_join("a\"b", &args), "\"a\\\"b\" x");
}

#[test]
fn keeps_empty_and_unicode_tokens() {
    let args = vec!["".to_string(), "héllo".to_string()];
    assert_eq!(shlex_join("prog", &args), "prog  héllo");
}

#[test]
fn escapes_other_characters_in_quoted_token() {
    let args = vec!["a\"\nb".to_string()];
    assert_eq!(shlex_join("p", &args), "p \"a\\\"\\nb\"");
}
