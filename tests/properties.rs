use std::collections::{BTreeSet, HashSet, VecDeque};

use token_read::impls::{ParseTuple2Error, ParseTuple3Error};
use token_read::{
    AsTokens, LineCount, MaxHeap, ParseTokenPatternError, ReadLineError, ReadTokensError, Take,
    TokenReader,
};

#[test]
fn extra_whitespace_leaves_tokens_unchanged() {
    let spaced: Vec<String> = "  1\t2  ".as_tokens();
    let plain: Vec<String> = "1 2".as_tokens();
    assert_eq!(spaced, plain);
    assert_eq!(plain, vec!["1", "2"]);
}

#[test]
fn unicode_whitespace_separates_tokens() {
    let tokens: Vec<String> = "a\u{3000}b\u{a0}c\u{2028}d".as_tokens();
    assert_eq!(tokens, vec!["a", "b", "c", "d"]);
}

#[test]
fn blank_lines_have_no_tokens() {
    let empty: Vec<String> = "".as_tokens();
    let blank: Vec<String> = " \t \r ".as_tokens();
    assert!(empty.is_empty());
    assert!(blank.is_empty());
    let _: () = " \t ".parse_tokens().unwrap();
}

#[test]
fn empty_tuple_rejects_a_token() {
    let result = "x".parse_tokens::<()>();
    assert!(matches!(
        result,
        Err(ParseTokenPatternError::TooManyTokens { expected: 0 })
    ));
}

#[test]
fn decodes_sequence_of_integers() {
    let mut input = TokenReader::new("13 8 17\n".as_bytes());
    let numbers: Vec<i64> = input.line().unwrap();
    assert_eq!(numbers, vec![13, 8, 17]);
}

#[test]
fn failed_line_keeps_its_text() {
    let mut input = TokenReader::new("one\n".as_bytes());
    match input.line::<Vec<i64>>() {
        Err(ReadTokensError::ParseError { line, .. }) => assert_eq!(line, "one"),
        other => panic!("expected a parse error, got {other:?}"),
    }
}

#[test]
fn written_tuple_reads_back() {
    let original: (i64, u64, String, bool, char) = (-42, 18446744073709551615, "word".to_string(), true, 'z');
    let text = format!(
        "{} {} {} {} {}",
        original.0, original.1, original.2, original.3, original.4
    );
    let decoded: (i64, u64, String, bool, char) = text.parse_tokens().unwrap();
    assert_eq!(decoded, original);
}

#[test]
fn written_array_reads_back() {
    let original: [i64; 5] = [i64::MIN, -1, 0, 7, i64::MAX];
    let text = format!(
        "{} {} {} {} {}",
        original[0], original[1], original[2], original[3], original[4]
    );
    let decoded: [i64; 5] = text.parse_tokens().unwrap();
    assert_eq!(decoded, original);
}

#[test]
fn tuple_reports_failing_field() {
    let result = "1 x".parse_tokens::<(u8, u8)>();
    assert!(matches!(
        result,
        Err(ParseTokenPatternError::ParseError { source: ParseTuple2Error::Field1 { .. } })
    ));
    let first = "x 1 2 3".parse_tokens::<(u8, u8)>();
    assert!(matches!(
        first,
        Err(ParseTokenPatternError::ParseError { source: ParseTuple2Error::Field0 { .. } })
    ));
}

#[test]
fn tuple_checks_leftover_only_after_fields() {
    let result = "1 2 x".parse_tokens::<(u8, u8)>();
    assert!(matches!(
        result,
        Err(ParseTokenPatternError::TooManyTokens { expected: 2 })
    ));
    let missing = "7 8".parse_tokens::<(u8, String, char)>();
    assert!(matches!(
        missing,
        Err(ParseTokenPatternError::TooFewTokens { real: 2, expected: 3 })
    ));
    let bad = "7 8 xy".parse_tokens::<(u8, String, char)>();
    assert!(matches!(
        bad,
        Err(ParseTokenPatternError::ParseError { source: ParseTuple3Error::Field2 { .. } })
    ));
}

#[test]
fn array_reports_leftover_before_decoding_it() {
    let result = "1 2 x".parse_tokens::<[u8; 2]>();
    assert!(matches!(
        result,
        Err(ParseTokenPatternError::TooManyTokens { expected: 2 })
    ));
    let bad = "1 x".parse_tokens::<[u8; 2]>();
    assert!(matches!(bad, Err(ParseTokenPatternError::ParseError { .. })));
    let empty: [u8; 0] = "".parse_tokens().unwrap();
    assert_eq!(empty, []);
}

#[test]
fn integers_follow_decimal_syntax() {
    assert_eq!("+5".parse_tokens::<(u8,)>().unwrap(), (5,));
    assert_eq!("-128".parse_tokens::<(i8,)>().unwrap(), (-128,));
    assert_eq!("007".parse_tokens::<(u16,)>().unwrap(), (7,));
    assert!("-0".parse_tokens::<(u8,)>().is_err());
    assert!("256".parse_tokens::<(u8,)>().is_err());
    assert!("128".parse_tokens::<(i8,)>().is_err());
    assert!("+".parse_tokens::<(i32,)>().is_err());
    assert!("1_000".parse_tokens::<(u32,)>().is_err());
    assert_eq!(
        "340282366920938463463374607431768211455".parse_tokens::<(u128,)>().unwrap(),
        (u128::MAX,)
    );
    assert_eq!("-9".parse_tokens::<(isize,)>().unwrap(), (-9,));
    assert_eq!("9".parse_tokens::<(usize,)>().unwrap(), (9,));
    assert_eq!("-9".parse_tokens::<(i16,)>().unwrap(), (-9,));
    assert_eq!("-9".parse_tokens::<(i128,)>().unwrap(), (-9,));
    assert_eq!("4000000000".parse_tokens::<(u32,)>().unwrap(), (4000000000,));
}

#[test]
fn booleans_and_characters_are_exact() {
    assert_eq!("false".parse_tokens::<(bool,)>().unwrap(), (false,));
    assert!("True".parse_tokens::<(bool,)>().is_err());
    assert_eq!("é".parse_tokens::<(char,)>().unwrap(), ('é',));
    assert!("ab".parse_tokens::<(char,)>().is_err());
}

#[test]
fn reads_into_vec_deque() {
    let mut input = TokenReader::new("41 42 43".as_bytes());
    let real: VecDeque<u8> = input.line().unwrap();
    let expected: VecDeque<u8> = (41..=43).collect();
    assert_eq!(real, expected);
    assert!("41 x".parse_tokens::<VecDeque<u8>>().is_err());
}

#[test]
fn lines_end_at_line_feed_with_optional_carriage_return() {
    let mut input = TokenReader::new("a\r\nb\n\nc\r".as_bytes());
    assert_eq!(input.line_raw().unwrap(), "a");
    assert_eq!(input.line_raw().unwrap(), "b");
    assert_eq!(input.line_raw().unwrap(), "");
    assert_eq!(input.line_raw().unwrap(), "c\r");
    assert!(matches!(input.line_raw(), Err(ReadLineError::EndOfFile)));
    assert!(matches!(input.line_raw(), Err(ReadLineError::EndOfFile)));
}

#[test]
fn invalid_utf8_is_an_input_error() {
    let bytes: [u8; 6] = [0x31, 0xff, 0x0a, 0x32, 0x33, 0x0a];
    let mut input = TokenReader::new(&bytes);
    match input.line::<(u8,)>() {
        Err(ReadTokensError::IoError { source }) => {
            assert_eq!(source.kind(), std::io::ErrorKind::InvalidData)
        }
        other => panic!("expected an input error, got {other:?}"),
    }
    assert_eq!(input.line::<(u8,)>().unwrap(), (23,));
    assert!(matches!(input.line_raw(), Err(ReadLineError::EndOfFile)));
}

#[test]
fn utf8_lines_are_decoded() {
    let mut input = TokenReader::new("grüße 5\n".as_bytes());
    assert_eq!(input.line_raw().unwrap(), "grüße 5");
}

#[test]
fn take_yields_exactly_count_items_like_direct_reads() {
    let text = "1 a\n2 b\n3 c\n4 d\n";
    let mut direct = TokenReader::new(text.as_bytes());
    let mut bounded = TokenReader::new(text.as_bytes());
    let mut lines = bounded.take::<(u64, char)>(3);
    let mut count: usize = 0;
    while let Some(item) = lines.next() {
        assert_eq!(item.unwrap(), direct.line::<(u64, char)>().unwrap());
        count += 1;
    }
    assert_eq!(count, 3);
    assert!(lines.next().is_none());
    assert_eq!(bounded.line::<(u64, char)>().unwrap(), (4, 'd'));
}

#[test]
fn take_keeps_reporting_end_of_file() {
    let mut input = TokenReader::new("5\n".as_bytes());
    let mut lines = Take::<(u8,), u8>::new(&mut input, 3);
    assert_eq!(lines.next().unwrap().unwrap(), (5,));
    assert!(matches!(lines.next(), Some(Err(ReadTokensError::EndOfFile))));
    assert!(matches!(lines.next(), Some(Err(ReadTokensError::EndOfFile))));
    assert!(lines.next().is_none());
}

#[test]
fn take_goes_on_after_a_bad_line() {
    let mut input = TokenReader::new("x\n7\n".as_bytes());
    let mut lines = input.take_count::<(u8,), u16>(2);
    assert!(matches!(lines.next(), Some(Err(ReadTokensError::ParseError { .. }))));
    assert_eq!(lines.next().unwrap().unwrap(), (7,));
    assert!(lines.next().is_none());
}

#[test]
fn take_of_zero_yields_nothing() {
    let mut input = TokenReader::new("1\n".as_bytes());
    let mut lines = input.take::<(u8,)>(0);
    assert!(lines.next().is_none());
    assert_eq!(input.line::<(u8,)>().unwrap(), (1,));
}

#[test]
fn line_counts_saturate_at_zero() {
    let mut n: u32 = 1;
    assert!(!n.empty());
    n.decrement();
    assert!(n.empty());
    n.decrement();
    assert_eq!(n, 0);
    let mut wide: u128 = u128::MAX;
    wide.decrement();
    assert_eq!(wide, u128::MAX - 1);
}

#[test]
fn line_error_converts_to_token_error() {
    let end: ReadTokensError<()> = ReadLineError::EndOfFile.into();
    assert!(matches!(end, ReadTokensError::EndOfFile));
}

#[test]
fn reads_into_vec() {
    let mut input = TokenReader::new("41 42 43".as_bytes());
    let real: Vec<u8> = input.line().unwrap();
    let expected: Vec<u8> = (41..=43).collect();
    assert_eq!(real, expected);
}

#[test]
fn reads_into_btree_set() {
    let mut input = TokenReader::new("41 42 43".as_bytes());
    let real: BTreeSet<u8> = input.line().unwrap();
    let expected: BTreeSet<u8> = (41..=43).collect();
    assert_eq!(real, expected);
}

#[test]
fn reads_into_hash_set() {
    let mut input = TokenReader::new("41 42 43".as_bytes());
    let real: HashSet<u8> = input.line().unwrap();
    let expected: HashSet<u8> = (41..=43).collect();
    assert_eq!(real, expected);
}

#[test]
fn sets_keep_a_repeated_value_once() {
    let ordered: BTreeSet<String> = "b a b c a".parse_tokens().unwrap();
    assert_eq!(ordered.into_iter().collect::<Vec<_>>(), vec!["a", "b", "c"]);
    let hashed: HashSet<i32> = "5 -5 5".parse_tokens().unwrap();
    assert_eq!(hashed.len(), 2);
    assert!("5 x".parse_tokens::<HashSet<i32>>().is_err());
    assert!("x".parse_tokens::<BTreeSet<i32>>().is_err());
}

#[test]
fn decode_line_passes_read_outcomes_through() {
    let end = token_read::decode_line::<(u8,)>(Err(ReadLineError::EndOfFile));
    assert!(matches!(end, Err(ReadTokensError::EndOfFile)));
    let failure = std::io::Error::new(std::io::ErrorKind::Other, "broken pipe");
    match token_read::decode_line::<(u8,)>(Err(ReadLineError::IoError { source: failure })) {
        Err(ReadTokensError::IoError { source }) => {
            assert_eq!(source.kind(), std::io::ErrorKind::Other)
        }
        other => panic!("expected an input error, got {other:?}"),
    }
    let pair = token_read::decode_line::<(u8, u8)>(Ok(" 1\t2 ".to_string()));
    assert_eq!(pair.unwrap(), (1, 2));
    match token_read::decode_line::<Vec<i64>>(Ok("one".to_string())) {
        Err(ReadTokensError::ParseError { line, .. }) => assert_eq!(line, "one"),
        other => panic!("expected a parse error, got {other:?}"),
    }
}

#[test]
fn take_step_counts_down_to_zero() {
    let mut remaining: u64 = 2;
    assert!(token_read::take_step(&mut remaining));
    assert_eq!(remaining, 1);
    assert!(token_read::take_step(&mut remaining));
    assert!(!token_read::take_step(&mut remaining));
    assert_eq!(remaining, 0);
}

#[test]
fn joined_tokens_tokenize_back() {
    let tokens: Vec<String> = "  a\tbc \u{3000} d ".as_tokens();
    let again: Vec<String> = tokens.join(" ").as_tokens();
    assert_eq!(again, tokens);
}

#[test]
fn reads_into_binary_heap() {
    let mut input = TokenReader::new("41 42 43".as_bytes());

    let real: MaxHeap<u8> = input.line().unwrap();
    let real: Vec<u8> = real.into_vec();

    let expected: Vec<u8> = (41..=43).rev().collect();

    assert_eq!(real, expected);
}

#[test]
fn heap_keeps_repeats_and_hands_out_largest_first() {
    let mut heap: MaxHeap<i32> = "3 -1 7 3 0".parse_tokens().unwrap();
    assert_eq!(heap.len(), 5);
    heap.push(5);
    assert_eq!(heap.pop(), Some(7));
    assert_eq!(heap.pop(), Some(5));
    assert_eq!(heap.into_vec(), vec![3, 3, 0, -1]);
    let mut empty: MaxHeap<u8> = MaxHeap::new();
    assert_eq!(empty.pop(), None);
    assert!("3 x".parse_tokens::<MaxHeap<u8>>().is_err());
}
