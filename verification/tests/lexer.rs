use acsl::decimal::Decimal;
use acsl::lexer::{next_token, LexerError};
use acsl::stream::Stream;
use acsl::tokens::{Token, TokenClass};

fn tokens(source: &str) -> Vec<Token> {
    let mut stream = Stream::new(source);
    let mut read = Vec::new();
    loop {
        match next_token(&mut stream) {
            Ok(Some(token)) => read.push(token),
            Ok(None) => return read,
            Err(error) => panic!("{}", error.to_string()),
        }
    }
}

fn classes(source: &str) -> Vec<String> {
    tokens(source).iter().map(|token| token.class().to_string()).collect()
}

fn first_error(source: &str) -> LexerError {
    let mut stream = Stream::new(source);
    loop {
        match next_token(&mut stream) {
            Ok(Some(_)) => {}
            Ok(None) => panic!("no error in {:?}", source),
            Err(error) => return error,
        }
    }
}

fn float_literal(source: &str) -> (String, String) {
    let read = tokens(source);
    assert_eq!(read.len(), 1, "{:?}", source);
    match read[0].class() {
        TokenClass::FloatLiteral(value) => (value.to_string(), value.literal()),
        other => panic!("{:?} is no float literal", other),
    }
}

#[test]
fn stream_starts_before_the_first_character() {
    let mut stream = Stream::new("ab");
    assert_eq!(stream.current_char(), None);
    assert_eq!(stream.next_char(), Some('a'));
    assert_eq!(stream.column(), 1);
    assert_eq!(stream.line(), 1);
    assert_eq!(stream.next(), Some('a'));
    assert_eq!(stream.current_char(), Some('a'));
    assert_eq!(stream.next_char(), Some('b'));
    assert_eq!(stream.next(), Some('b'));
    assert_eq!(stream.next_char(), None);
    assert_eq!(stream.next(), None);
    assert_eq!(stream.current_char(), None);
    assert_eq!(stream.next(), None);
}

#[test]
fn stream_of_the_empty_text_has_no_character() {
    let mut stream = Stream::new("");
    assert_eq!(stream.next_char(), None);
    assert_eq!(stream.next(), None);
    assert_eq!(stream.column(), 1);
    assert_eq!(stream.line(), 1);
}

#[test]
fn stream_counts_lines_and_columns() {
    let mut stream = Stream::new("a\tb\nc");
    let mut positions = Vec::new();
    while let Some(c) = stream.next() {
        positions.push((c, stream.line(), stream.column()));
    }
    assert_eq!(
        positions,
        vec![('a', 1, 1), ('\t', 1, 2), ('b', 1, 5), ('\n', 1, 6), ('c', 2, 1)]
    );
}

#[test]
fn stream_tab_moves_to_the_next_tab_stop() {
    // A tab in column 1 leads to column 5, one in column 4 too, one in
    // column 5 to column 9.
    let mut stream = Stream::new("\tx");
    stream.next();
    stream.next();
    assert_eq!(stream.column(), 5);

    let mut stream = Stream::new("abc\tx");
    for _ in 0..5 {
        stream.next();
    }
    assert_eq!(stream.current_char(), Some('x'));
    assert_eq!(stream.column(), 5);

    let mut stream = Stream::new("abcd\tx");
    for _ in 0..6 {
        stream.next();
    }
    assert_eq!(stream.current_char(), Some('x'));
    assert_eq!(stream.column(), 9);
}

#[test]
fn stream_keeps_characters_beyond_ascii() {
    let mut stream = Stream::new("é√");
    assert_eq!(stream.next(), Some('é'));
    assert_eq!(stream.next(), Some('√'));
    assert_eq!(stream.column(), 2);
    assert_eq!(stream.next(), None);
}

#[test]
fn lexer_reads_keywords() {
    assert_eq!(
        classes("fn struct cbuffer type const return let mut"),
        vec!["fn", "struct", "cbuffer", "type", "const", "return", "let", "mut"]
    );
    let read = tokens("fn struct cbuffer type const return let mut");
    assert!(matches!(read[0].class(), TokenClass::Fn));
    assert!(matches!(read[1].class(), TokenClass::Struct));
    assert!(matches!(read[2].class(), TokenClass::CBuffer));
    assert!(matches!(read[3].class(), TokenClass::Type));
    assert!(matches!(read[4].class(), TokenClass::Const));
    assert!(matches!(read[5].class(), TokenClass::Return));
    assert!(matches!(read[6].class(), TokenClass::Let));
    assert!(matches!(read[7].class(), TokenClass::Mut));
}

#[test]
fn lexer_reads_identifiers() {
    let read = tokens("foo _bar9 fnx Return texture x_1");
    let names: Vec<&str> = read
        .iter()
        .map(|token| match token.class() {
            TokenClass::Identifier(name) => name.as_str(),
            other => panic!("{:?} is no identifier", other),
        })
        .collect();
    assert_eq!(names, vec!["foo", "_bar9", "fnx", "Return", "texture", "x_1"]);
}

#[test]
fn lexer_reads_punctuation() {
    let read = tokens("( ) { } - -> ; : . , < > = * +");
    assert!(matches!(read[0].class(), TokenClass::OpenParenthesis));
    assert!(matches!(read[1].class(), TokenClass::CloseParenthesis));
    assert!(matches!(read[2].class(), TokenClass::OpenCurlyBrace));
    assert!(matches!(read[3].class(), TokenClass::CloseCurlyBrace));
    assert!(matches!(read[4].class(), TokenClass::Dash));
    assert!(matches!(read[5].class(), TokenClass::RightArrow));
    assert!(matches!(read[6].class(), TokenClass::SemiColon));
    assert!(matches!(read[7].class(), TokenClass::Colon));
    assert!(matches!(read[8].class(), TokenClass::Period));
    assert!(matches!(read[9].class(), TokenClass::Comma));
    assert!(matches!(read[10].class(), TokenClass::LeftAngleBracket));
    assert!(matches!(read[11].class(), TokenClass::RightAngleBracket));
    assert!(matches!(read[12].class(), TokenClass::Equal));
    assert!(matches!(read[13].class(), TokenClass::Asterick));
    assert!(matches!(read[14].class(), TokenClass::Plus));
    assert_eq!(read.len(), 15);
    assert_eq!(
        classes("(){}-->;:.,<>=*+"),
        vec!["(", ")", "{", "}", "-", "->", ";", ":", ".", ",", "<", ">", "=", "*", "+"]
    );
}

#[test]
fn lexer_tells_arrow_from_dash() {
    assert_eq!(classes("->"), vec!["->"]);
    assert_eq!(classes("-"), vec!["-"]);
    assert_eq!(classes("- >"), vec!["-", ">"]);
    assert_eq!(classes("a-b"), vec!["\"a\"", "-", "\"b\""]);
    assert_eq!(classes("a->b"), vec!["\"a\"", "->", "\"b\""]);
}

#[test]
fn lexer_skips_whitespace() {
    assert_eq!(classes(" \t\r\n\x0Cfoo \n\n bar\n"), vec!["\"foo\"", "\"bar\""]);
    assert!(tokens("").is_empty());
    assert!(tokens("  \n\t ").is_empty());
}

#[test]
fn lexer_reads_integers() {
    let read = tokens("0 7 12 0042 18446744073709551615");
    let values: Vec<usize> = read
        .iter()
        .map(|token| match token.class() {
            TokenClass::IntegerLiteral(value) => *value,
            other => panic!("{:?} is no integer", other),
        })
        .collect();
    assert_eq!(values[..4], [0, 7, 12, 42]);
    if usize::MAX as u128 == 18446744073709551615u128 {
        assert_eq!(values[4], usize::MAX);
    }
}

#[test]
fn lexer_saturates_integers() {
    let read = tokens("340282366920938463463374607431768211456");
    assert!(matches!(read[0].class(), TokenClass::IntegerLiteral(value) if *value == usize::MAX));
    let read = tokens("99999999999999999999999999999999999999999999999999999999999999");
    assert!(matches!(read[0].class(), TokenClass::IntegerLiteral(value) if *value == usize::MAX));
}

#[test]
fn lexer_reads_fractions() {
    assert_eq!(float_literal("1.5"), ("1.5".to_string(), "1.5".to_string()));
    assert_eq!(float_literal("0.25"), ("0.25".to_string(), "0.25".to_string()));
    assert_eq!(float_literal("2."), ("2".to_string(), "2.0".to_string()));
    assert_eq!(float_literal("2.0"), ("2".to_string(), "2.0".to_string()));
    assert_eq!(float_literal(".5"), ("0.5".to_string(), "0.5".to_string()));
    assert_eq!(float_literal("0.50"), ("0.5".to_string(), "0.5".to_string()));
    assert_eq!(float_literal("007.100"), ("7.1".to_string(), "7.1".to_string()));
    assert_eq!(float_literal("0.0"), ("0".to_string(), "0.0".to_string()));
    assert_eq!(float_literal(".0"), ("0".to_string(), "0.0".to_string()));
}

#[test]
fn lexer_keeps_zeros_after_the_point() {
    // The value is read as a decimal number: 1.05 is not 1.5.
    assert_eq!(float_literal("1.05"), ("1.05".to_string(), "1.05".to_string()));
    assert_eq!(float_literal("3.001"), ("3.001".to_string(), "3.001".to_string()));
    assert_eq!(float_literal(".0625"), ("0.0625".to_string(), "0.0625".to_string()));
}

#[test]
fn lexer_reads_exponents() {
    assert_eq!(float_literal("1e3"), ("1000".to_string(), "1000.0".to_string()));
    assert_eq!(float_literal("1e0"), ("1".to_string(), "1.0".to_string()));
    assert_eq!(float_literal("1.5e2"), ("150".to_string(), "150.0".to_string()));
    assert_eq!(float_literal("1.25e1"), ("12.5".to_string(), "12.5".to_string()));
    assert_eq!(float_literal("1.25e2"), ("125".to_string(), "125.0".to_string()));
    assert_eq!(float_literal("1.e5"), ("100000".to_string(), "100000.0".to_string()));
    assert_eq!(float_literal(".5e1"), ("5".to_string(), "5.0".to_string()));
    assert_eq!(float_literal("0.001e2"), ("0.1".to_string(), "0.1".to_string()));
    assert_eq!(float_literal("0e7"), ("0".to_string(), "0.0".to_string()));
    assert_eq!(float_literal("12e01"), ("120".to_string(), "120.0".to_string()));
}

#[test]
fn lexer_reads_zero_with_any_exponent() {
    assert_eq!(
        float_literal("0e99999999999999999999999999"),
        ("0".to_string(), "0.0".to_string())
    );
    assert_eq!(
        float_literal("000.000e18446744073709551615"),
        ("0".to_string(), "0.0".to_string())
    );
    assert_eq!(float_literal(".0e4000000000"), ("0".to_string(), "0.0".to_string()));
}

#[test]
fn lexer_reads_large_numbers_exactly() {
    assert_eq!(
        float_literal("1e40"),
        ("10000000000000000000000000000000000000000".to_string(),
         "10000000000000000000000000000000000000000.0".to_string())
    );
    assert_eq!(
        float_literal("123456789012345678901234567890.123456789012345678901234567890"),
        ("123456789012345678901234567890.12345678901234567890123456789".to_string(),
         "123456789012345678901234567890.12345678901234567890123456789".to_string())
    );
    assert_eq!(
        float_literal("0.1e2000").0.len(),
        2000
    );
}

#[test]
fn lexer_wants_digits_in_an_exponent() {
    assert_eq!(first_error("1e"), LexerError::NoExponentialDigits(2, 1));
    assert_eq!(first_error("1ex"), LexerError::NoExponentialDigits(2, 1));
    assert_eq!(first_error("12e+3"), LexerError::NoExponentialDigits(3, 1));
    assert_eq!(first_error("\n  1.5e;"), LexerError::NoExponentialDigits(6, 2));
    assert_eq!(first_error(".5e"), LexerError::NoExponentialDigits(3, 1));
}

#[test]
fn lexer_rejects_unknown_characters() {
    assert_eq!(first_error("@"), LexerError::UnknownCharacter('@', 1, 1));
    assert_eq!(first_error("foo\n  #"), LexerError::UnknownCharacter('#', 3, 2));
    assert_eq!(first_error("a / b"), LexerError::UnknownCharacter('/', 3, 1));
    assert_eq!(first_error("é"), LexerError::UnknownCharacter('é', 1, 1));
    assert_eq!(first_error("\"text\""), LexerError::UnknownCharacter('"', 1, 1));
}

#[test]
fn lexer_ends_an_identifier_at_a_letter_beyond_ascii() {
    let mut stream = Stream::new("caf\u{e9}");
    let token = next_token(&mut stream).unwrap().unwrap();
    assert!(matches!(token.class(), TokenClass::Identifier(name) if name == "caf"));
    assert_eq!(next_token(&mut stream).unwrap_err(), LexerError::UnknownCharacter('é', 4, 1));
}

#[test]
fn lexer_tells_period_from_fraction() {
    assert_eq!(classes("a.b"), vec!["\"a\"", ".", "\"b\""]);
    assert_eq!(classes("a.5"), vec!["\"a\"", "0.5"]);
    assert_eq!(classes("."), vec!["."]);
    assert_eq!(classes(". 5"), vec![".", "5"]);
    assert_eq!(classes("1.x"), vec!["1", "\"x\""]);
}

#[test]
fn lexer_gives_the_position_of_the_first_character() {
    let read = tokens("  foo\n\tbar 12.5\n->");
    let positions: Vec<(usize, usize)> =
        read.iter().map(|token| (token.line(), token.column())).collect();
    assert_eq!(positions, vec![(1, 3), (2, 5), (2, 9), (3, 1)]);
}

#[test]
fn lexer_stops_at_the_end() {
    let mut stream = Stream::new("x");
    assert!(next_token(&mut stream).unwrap().is_some());
    assert!(next_token(&mut stream).unwrap().is_none());
    assert!(next_token(&mut stream).unwrap().is_none());
}

#[test]
fn token_is_written_with_its_position() {
    let read = tokens("\n  foo 1.50 42 ->");
    assert_eq!(read[0].to_string(), "\"foo\" at 2:3");
    assert_eq!(read[1].to_string(), "1.5 at 2:7");
    assert_eq!(read[2].to_string(), "42 at 2:12");
    assert_eq!(read[3].to_string(), "-> at 2:15");
    let token = Token::new(TokenClass::Asterick, 120, 3456);
    assert_eq!(token.to_string(), "* at 3456:120");
    assert_eq!(token.column(), 120);
    assert_eq!(token.line(), 3456);
}

#[test]
fn lexer_errors_are_written_with_their_position() {
    assert_eq!(
        LexerError::UnknownCharacter('@', 7, 12).to_string(),
        "Unknown character '@' at 12:7"
    );
    assert_eq!(
        LexerError::NoExponentialDigits(3, 10).to_string(),
        "Exponent has no digits at 10:3"
    );
}

fn digits(text: &str) -> Vec<char> {
    text.chars().collect()
}

#[test]
fn decimal_moves_the_point_by_the_exponent() {
    let number = Decimal::from_parts(&digits("12"), &digits("345"), 0);
    assert_eq!(number.to_string(), "12.345");
    let number = Decimal::from_parts(&digits("12"), &digits("345"), 2);
    assert_eq!(number.to_string(), "1234.5");
    let number = Decimal::from_parts(&digits("12"), &digits("345"), 3);
    assert_eq!(number.to_string(), "12345");
    assert_eq!(number.literal(), "12345.0");
    let number = Decimal::from_parts(&digits("12"), &digits("345"), 5);
    assert_eq!(number.to_string(), "1234500");
    assert_eq!(number.literal(), "1234500.0");
}

#[test]
fn decimal_is_kept_in_lowest_terms() {
    let number = Decimal::from_parts(&digits("000"), &digits("000"), 0);
    assert_eq!(number.to_string(), "0");
    assert_eq!(number.literal(), "0.0");
    let number = Decimal::from_parts(&digits(""), &digits(""), 0);
    assert_eq!(number.to_string(), "0");
    let number = Decimal::from_parts(&digits("0010"), &digits("0100"), 0);
    assert_eq!(number.to_string(), "10.01");
    let number = Decimal::from_parts(&digits("0"), &digits("0012"), 2);
    assert_eq!(number.to_string(), "0.12");
    let number = Decimal::from_parts(&digits("0"), &digits("0012"), 3);
    assert_eq!(number.to_string(), "1.2");
    let number = Decimal::from_parts(&digits("0"), &digits("0"), 4);
    assert_eq!(number.to_string(), "0");
    let copy = number.clone();
    assert_eq!(copy.literal(), "0.0");
}
