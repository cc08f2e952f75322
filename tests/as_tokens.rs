use token_read::AsTokens;

#[test]
fn splits_string_at_whitespace() {
    let tokens: Vec<String> = "0 1".as_tokens();
    assert_eq!(tokens, vec!["0", "1"]);
}

#[test]
fn parse_tokens_parses_tokens() {
    let numbers: Vec<u8> = "1 2".parse_tokens().unwrap();
    assert_eq!(numbers, vec![1, 2]);
}
