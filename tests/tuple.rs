use token_read::{ParseTokenPatternError, ReadTokensError, TokenReader};

#[test]
fn tuple_reads_single_value() {
    let mut input = TokenReader::new("true".as_bytes());
    let (value,): (bool,) = input.line().unwrap();

    assert!(value);
}

#[test]
fn tuple_reads_multiple_values() {
    let mut input = TokenReader::new("-1 2.5 test".as_bytes());
    let (a, b, c): (i32, String, String) = input.line().unwrap();

    assert_eq!(a, -1);
    assert_eq!(b.parse::<f64>().unwrap(), 2.5);
    assert_eq!(c, "test");
}

#[test]
fn reads_empty_tuple() {
    let mut input = TokenReader::new("\n".as_bytes());
    let _: () = input.line().unwrap();
}

#[test]
fn tuple_returns_error_on_too_many_elements() {
    let mut input = TokenReader::new("1 2 3".as_bytes());
    let result = input.line::<(u8, u8)>();

    assert!(matches!(
        result,
        Err(ReadTokensError::ParseError {
            source: ParseTokenPatternError::TooManyTokens { expected: 2 },
            ..
        })
    ));
}

#[test]
fn tuple_returns_error_on_too_few_elements() {
    let mut input = TokenReader::new("10".as_bytes());
    let result = input.line::<(u8, u8)>();

    assert!(matches!(
        result,
        Err(ReadTokensError::ParseError {
            source: ParseTokenPatternError::TooFewTokens {
                expected: 2,
                real: 1
            },
            ..
        })
    ));
}

#[test]
fn decodes_name_points_and_chance_after_count() {
    let mut input = TokenReader::new("3\nJames 158000 0.58\n".as_bytes());
    let (n,): (u64,) = input.line().unwrap();
    let (name, points, chance): (String, u64, String) = input.line().unwrap();

    assert_eq!(n, 3);
    assert_eq!(name, "James");
    assert_eq!(points, 158000);
    assert_eq!(chance.parse::<f64>().unwrap(), 0.58);
}
