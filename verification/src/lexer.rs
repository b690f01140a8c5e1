//! The lexer: from the character cursor to tokens.

use crate::decimal::{all_digits, digits_to_usize, digits_value, Decimal, DecimalView};
use crate::model::result_model;
use crate::stream::{saturate, Stream, StreamView};
use crate::text::{
    char_is_digit, char_is_identifier_part, char_is_identifier_start, char_is_whitespace, decimal,
    is_digit, is_identifier_part, is_identifier_start, is_whitespace, push_char, push_decimal, str_eq,
};
use crate::tokens::{Token, TokenClass, TokenClassView, TokenView};
use vstd::prelude::*;
use vstd::string::*;

verus! {

/// Why the lexer stopped.
#[derive(Debug, Clone, Copy, PartialEq, Eq, Structural)]
pub enum LexerError {
    /// A character that starts no token, with its column and line.
    UnknownCharacter(char, usize, usize),
    /// An exponent mark `e` that no digit follows, with its column and line.
    NoExponentialDigits(usize, usize),
}

impl DeepView for LexerError {
    type V = LexerError;

    open spec fn deep_view(&self) -> LexerError {
        *self
    }
}

impl View for LexerError {
    type V = LexerError;

    open spec fn view(&self) -> LexerError {
        *self
    }
}

impl LexerError {
    /// The diagnostic for this error.
    pub open spec fn display(self) -> Seq<char> {
        match self {
            LexerError::UnknownCharacter(c, column, line) => "Unknown character '"@.push(c) + "' at "@
                + decimal(line as nat) + ":"@ + decimal(column as nat),
            LexerError::NoExponentialDigits(column, line) => "Exponent has no digits at "@ + decimal(
                line as nat,
            ) + ":"@ + decimal(column as nat),
        }
    }

    /// The diagnostic for this error.
    pub fn to_string(&self) -> (text: String)
        ensures
            text@ == self.display(),
    {
        match self {
            LexerError::UnknownCharacter(c, column, line) => {
                let mut text = "Unknown character '".to_owned();
                push_char(&mut text, *c);
                text.append("' at ");
                push_decimal(&mut text, *line);
                text.append(":");
                push_decimal(&mut text, *column);
                text
            },
            LexerError::NoExponentialDigits(column, line) => {
                let mut text = "Exponent has no digits at ".to_owned();
                push_decimal(&mut text, *line);
                text.append(":");
                push_decimal(&mut text, *column);
                text
            },
        }
    }
}

/// The cursor after `name` has taken every identifier character that
/// follows the current one, and the name read.
pub open spec fn read_identifier(cursor: StreamView, name: Seq<char>) -> (Seq<char>, StreamView)
    decreases cursor.rest.len(),
{
    match cursor.next_char() {
        Some(c) if is_identifier_part(c) => read_identifier(cursor.advance(), name.push(c)),
        _ => (name, cursor),
    }
}

/// The cursor after `digits` has taken every digit that follows the current
/// character, and the digits read.
pub open spec fn read_digits(cursor: StreamView, digits: Seq<char>) -> (Seq<char>, StreamView)
    decreases cursor.rest.len(),
{
    match cursor.next_char() {
        Some(c) if is_digit(c) => read_digits(cursor.advance(), digits.push(c)),
        _ => (digits, cursor),
    }
}

/// The token class of a word: a keyword where the word is one, else an
/// identifier.
pub open spec fn word_class(word: Seq<char>) -> TokenClassView {
    if word == "fn"@ {
        TokenClassView::Fn
    } else if word == "struct"@ {
        TokenClassView::Struct
    } else if word == "return"@ {
        TokenClassView::Return
    } else if word == "cbuffer"@ {
        TokenClassView::CBuffer
    } else if word == "const"@ {
        TokenClassView::Const
    } else if word == "type"@ {
        TokenClassView::Type
    } else if word == "let"@ {
        TokenClassView::Let
    } else if word == "mut"@ {
        TokenClassView::Mut
    } else {
        TokenClassView::Identifier(word)
    }
}

/// The float literal with the given digits before and after the point and
/// the given digits of the exponent.
pub open spec fn float_literal(integer: Seq<char>, fraction: Seq<char>, exponent: Seq<char>) -> TokenClassView {
    TokenClassView::FloatLiteral(
        DecimalView::from_parts(integer, fraction, saturate(digits_value(exponent) as int) as nat),
    )
}

/// Lexes the exponent of a float literal. The current character is the
/// mark `e`. A digit must follow it.
pub open spec fn lex_exponent(cursor: StreamView, integer: Seq<char>, fraction: Seq<char>) -> (
    Result<TokenClassView, LexerError>,
    StreamView,
) {
    match cursor.next_char() {
        Some(c) if is_digit(c) => {
            let (exponent, after) = read_digits(cursor, Seq::empty());
            (Ok(float_literal(integer, fraction, exponent)), after)
        },
        _ => (Err(LexerError::NoExponentialDigits(cursor.column, cursor.line)), cursor),
    }
}

/// Lexes the fraction of a float literal. The current character is the
/// decimal point.
pub open spec fn lex_fractional(cursor: StreamView, integer: Seq<char>) -> (
    Result<TokenClassView, LexerError>,
    StreamView,
) {
    let (fraction, after) = read_digits(cursor, Seq::empty());
    match after.next_char() {
        Some(c) if c == 'e' => lex_exponent(after.advance(), integer, fraction),
        _ => (Ok(float_literal(integer, fraction, Seq::empty())), after),
    }
}

/// Lexes a number. The current character is its first digit. Digits alone
/// are an integer literal; a decimal point or an exponent mark after them
/// makes a float literal.
pub open spec fn lex_number(cursor: StreamView) -> (Result<TokenClassView, LexerError>, StreamView) {
    let (integer, after) = read_digits(cursor, seq![cursor.current->0]);
    match after.next_char() {
        Some(c) if c == '.' => lex_fractional(after.advance(), integer),
        Some(c) if c == 'e' => lex_exponent(after.advance(), integer, Seq::empty()),
        _ => (Ok(TokenClassView::IntegerLiteral(saturate(digits_value(integer) as int))), after),
    }
}

/// The cursor on the first character after the current one that is no
/// whitespace, or at the end of the text.
pub open spec fn seek(cursor: StreamView) -> StreamView
    decreases cursor.rest.len(),
{
    let next = cursor.advance();
    match next.current {
        Some(c) if is_whitespace(c) => seek(next),
        _ => next,
    }
}

/// Lexes the token that starts at the current character `c`, which is no
/// whitespace.
pub open spec fn lex_class(cursor: StreamView, c: char) -> (Result<TokenClassView, LexerError>, StreamView) {
    if is_identifier_start(c) {
        let (word, after) = read_identifier(cursor, seq![c]);
        (Ok(word_class(word)), after)
    } else if is_digit(c) {
        lex_number(cursor)
    } else if c == '.' {
        match cursor.next_char() {
            Some(d) if is_digit(d) => lex_fractional(cursor, Seq::empty()),
            _ => (Ok(TokenClassView::Period), cursor),
        }
    } else if c == '(' {
        (Ok(TokenClassView::OpenParenthesis), cursor)
    } else if c == ')' {
        (Ok(TokenClassView::CloseParenthesis), cursor)
    } else if c == '{' {
        (Ok(TokenClassView::OpenCurlyBrace), cursor)
    } else if c == '}' {
        (Ok(TokenClassView::CloseCurlyBrace), cursor)
    } else if c == '-' {
        match cursor.next_char() {
            Some(d) if d == '>' => (Ok(TokenClassView::RightArrow), cursor.advance()),
            _ => (Ok(TokenClassView::Dash), cursor),
        }
    } else if c == ';' {
        (Ok(TokenClassView::SemiColon), cursor)
    } else if c == ':' {
        (Ok(TokenClassView::Colon), cursor)
    } else if c == ',' {
        (Ok(TokenClassView::Comma), cursor)
    } else if c == '<' {
        (Ok(TokenClassView::LeftAngleBracket), cursor)
    } else if c == '>' {
        (Ok(TokenClassView::RightAngleBracket), cursor)
    } else if c == '=' {
        (Ok(TokenClassView::Equal), cursor)
    } else if c == '*' {
        (Ok(TokenClassView::Asterick), cursor)
    } else if c == '+' {
        (Ok(TokenClassView::Plus), cursor)
    } else {
        (Err(LexerError::UnknownCharacter(c, cursor.column, cursor.line)), cursor)
    }
}

/// The next token after the current character and the cursor on its last
/// character; no token at the end of the text. The token carries the
/// position of its first character.
pub open spec fn lex(cursor: StreamView) -> (Result<Option<TokenView>, LexerError>, StreamView) {
    let start = seek(cursor);
    match start.current {
        Some(c) => {
            let (class, after) = lex_class(start, c);
            match class {
                Ok(class) => (
                    Ok(Some(TokenView { class, column: start.column, line: start.line })),
                    after,
                ),
                Err(error) => (Err(error), after),
            }
        },
        None => (Ok(None), start),
    }
}

/// Reading digits takes nothing back: no more characters are left after it
/// than before, and the digits read are digits.
pub proof fn read_digits_consumes(cursor: StreamView, digits: Seq<char>)
    ensures
        read_digits(cursor, digits).1.rest.len() <= cursor.rest.len(),
        all_digits(digits) ==> all_digits(read_digits(cursor, digits).0),
    decreases cursor.rest.len(),
{
    match cursor.next_char() {
        Some(c) if is_digit(c) => {
            read_digits_consumes(cursor.advance(), digits.push(c));
        },
        _ => {},
    }
}

/// Reading an identifier takes nothing back.
pub proof fn read_identifier_consumes(cursor: StreamView, name: Seq<char>)
    ensures
        read_identifier(cursor, name).1.rest.len() <= cursor.rest.len(),
    decreases cursor.rest.len(),
{
    match cursor.next_char() {
        Some(c) if is_identifier_part(c) => {
            read_identifier_consumes(cursor.advance(), name.push(c));
        },
        _ => {},
    }
}

/// Seeking the next token takes nothing back, and where it finds a
/// character it has taken one at least.
pub proof fn seek_consumes(cursor: StreamView)
    ensures
        seek(cursor).rest.len() <= cursor.rest.len(),
        seek(cursor).current is Some ==> seek(cursor).rest.len() < cursor.rest.len(),
    decreases cursor.rest.len(),
{
    let next = cursor.advance();
    match next.current {
        Some(c) if is_whitespace(c) => {
            seek_consumes(next);
        },
        _ => {},
    }
}

/// Every token takes at least one character of the text, and an error or
/// the end of the text takes nothing back.
pub proof fn lex_consumes(cursor: StreamView)
    ensures
        lex(cursor).1.rest.len() <= cursor.rest.len(),
        lex(cursor).0 matches Ok(Some(_)) ==> lex(cursor).1.rest.len() < cursor.rest.len(),
{
    seek_consumes(cursor);
    let start = seek(cursor);
    match start.current {
        Some(c) => {
            read_identifier_consumes(start, seq![c]);
            read_digits_consumes(start, seq![c]);
            read_digits_consumes(start, Seq::empty());
            let integer = read_digits(start, seq![c]);
            read_digits_consumes(integer.1.advance(), Seq::empty());
            let fraction = read_digits(integer.1.advance(), Seq::empty());
            read_digits_consumes(fraction.1.advance(), Seq::empty());
            let fraction = read_digits(start, Seq::empty());
            read_digits_consumes(fraction.1.advance(), Seq::empty());
        },
        None => {},
    }
}

/// The tokens of a text from a cursor on: the tokens in order and, where the
/// lexer stopped on an error, that error.
pub struct TokenStream {
    pub tokens: Seq<TokenView>,
    pub end: Option<LexerError>,
}

/// The tokens that follow the current character of `cursor`.
pub open spec fn token_stream(cursor: StreamView) -> TokenStream
    decreases cursor.rest.len(),
{
    let (result, after) = lex(cursor);
    match result {
        Ok(Some(token)) => {
            proof {
                lex_consumes(cursor);
            }
            let rest = token_stream(after);
            TokenStream { tokens: seq![token] + rest.tokens, end: rest.end }
        },
        Ok(None) => TokenStream { tokens: Seq::empty(), end: None },
        Err(error) => TokenStream { tokens: Seq::empty(), end: Some(error) },
    }
}

/// Reads an identifier or a keyword. The current character is its first
/// character.
pub fn parse_identifier(stream: &mut Stream) -> (word: String)
    requires
        old(stream)@.current is Some,
    ensures
        (word@, final(stream)@) == read_identifier(old(stream)@, seq![old(stream)@.current->0]),
{
    let mut string = String::new();
    push_char(&mut string, stream.current_char().unwrap());
    assert(string@ =~= seq![old(stream)@.current->0]);
    loop
        invariant
            read_identifier(stream@, string@) == read_identifier(
                old(stream)@,
                seq![old(stream)@.current->0],
            ),
        ensures
            read_identifier(stream@, string@) == (string@, stream@),
        decreases stream@.rest.len(),
    {
        match stream.next_char() {
            Some(c) => {
                if !char_is_identifier_part(c) {
                    break ;
                }
                push_char(&mut string, c);
                stream.next();
            },
            None => {
                break ;
            },
        }
    }
    string
}

/// Appends to `digits` every digit that follows the current character.
pub fn parse_digits(stream: &mut Stream, digits: &mut Vec<char>)
    ensures
        (final(digits)@, final(stream)@) == read_digits(old(stream)@, old(digits)@),
{
    loop
        invariant
            read_digits(stream@, digits@) == read_digits(old(stream)@, old(digits)@),
        ensures
            read_digits(stream@, digits@) == (digits@, stream@),
        decreases stream@.rest.len(),
    {
        match stream.next_char() {
            Some(c) => {
                if !char_is_digit(c) {
                    break ;
                }
                digits.push(c);
                stream.next();
            },
            None => {
                break ;
            },
        }
    }
}

/// Reads the exponent of a float literal, whose digits before and after the
/// point are given. The current character is the mark `e`.
pub fn parse_exponent(stream: &mut Stream, integer: &Vec<char>, fraction: &Vec<char>) -> (r: Result<
    TokenClass,
    LexerError,
>)
    requires
        all_digits(integer@),
        all_digits(fraction@),
    ensures
        (result_model(r), final(stream)@) == lex_exponent(old(stream)@, integer@, fraction@),
{
    let follows = match stream.next_char() {
        Some(c) => char_is_digit(c),
        None => false,
    };
    if !follows {
        return Err(LexerError::NoExponentialDigits(stream.column(), stream.line()));
    }
    let mut exponent: Vec<char> = Vec::new();
    parse_digits(stream, &mut exponent);
    proof {
        read_digits_consumes(old(stream)@, Seq::empty());
    }
    let value = digits_to_usize(&exponent);
    Ok(TokenClass::FloatLiteral(Decimal::from_parts(integer, fraction, value)))
}

/// Reads the fraction of a float literal, whose digits before the point are
/// given. The current character is the decimal point.
pub fn parse_fractional(stream: &mut Stream, integer: &Vec<char>) -> (r: Result<TokenClass, LexerError>)
    requires
        all_digits(integer@),
    ensures
        (result_model(r), final(stream)@) == lex_fractional(old(stream)@, integer@),
{
    let mut fraction: Vec<char> = Vec::new();
    parse_digits(stream, &mut fraction);
    proof {
        read_digits_consumes(old(stream)@, Seq::empty());
    }
    match stream.next_char() {
        Some(c) => {
            if c == 'e' {
                stream.next();
                return parse_exponent(stream, integer, &fraction);
            }
        },
        None => {},
    }
    proof {
        assert(digits_value(Seq::<char>::empty()) == 0);
    }
    Ok(TokenClass::FloatLiteral(Decimal::from_parts(integer, &fraction, 0)))
}

/// Reads a number. The current character is its first digit.
pub fn parse_number(stream: &mut Stream) -> (r: Result<TokenClass, LexerError>)
    requires
        old(stream)@.current is Some,
        is_digit(old(stream)@.current->0),
    ensures
        (result_model(r), final(stream)@) == lex_number(old(stream)@),
{
    let mut integer: Vec<char> = Vec::new();
    integer.push(stream.current_char().unwrap());
    assert(integer@ =~= seq![old(stream)@.current->0]);
    parse_digits(stream, &mut integer);
    proof {
        read_digits_consumes(old(stream)@, seq![old(stream)@.current->0]);
    }
    match stream.next_char() {
        Some(c) => {
            if c == '.' {
                stream.next();
                return parse_fractional(stream, &integer);
            } else if c == 'e' {
                stream.next();
                let fraction: Vec<char> = Vec::new();
                return parse_exponent(stream, &integer, &fraction);
            }
        },
        None => {},
    }
    Ok(TokenClass::IntegerLiteral(digits_to_usize(&integer)))
}

/// The token class of a word.
pub fn classify_word(word: String) -> (class: TokenClass)
    ensures
        class@ == word_class(word@),
{
    if str_eq(word.as_str(), "fn") {
        TokenClass::Fn
    } else if str_eq(word.as_str(), "struct") {
        TokenClass::Struct
    } else if str_eq(word.as_str(), "return") {
        TokenClass::Return
    } else if str_eq(word.as_str(), "cbuffer") {
        TokenClass::CBuffer
    } else if str_eq(word.as_str(), "const") {
        TokenClass::Const
    } else if str_eq(word.as_str(), "type") {
        TokenClass::Type
    } else if str_eq(word.as_str(), "let") {
        TokenClass::Let
    } else if str_eq(word.as_str(), "mut") {
        TokenClass::Mut
    } else {
        TokenClass::Identifier(word)
    }
}

/// Skips whitespace and reads the next token; `None` at the end of the text.
pub fn next_token(stream: &mut Stream) -> (r: Result<Option<Token>, LexerError>)
    ensures
        (result_model(r), final(stream)@) == lex(old(stream)@),
{
    loop
        invariant_except_break
            seek(stream@) == seek(old(stream)@),
        ensures
            stream@ == seek(old(stream)@),
        decreases stream@.rest.len(),
    {
        match stream.next() {
            Some(c) => {
                if !char_is_whitespace(c) {
                    break ;
                }
            },
            None => {
                break ;
            },
        }
    }
    let column = stream.column();
    let line = stream.line();
    let ghost start = stream@;
    let token_class = match stream.current_char() {
        Some(c) => {
            if char_is_identifier_start(c) {
                let identifier = parse_identifier(stream);
                classify_word(identifier)
            } else if char_is_digit(c) {
                match parse_number(stream) {
                    Ok(class) => class,
                    Err(error) => {
                        return Err(error);
                    },
                }
            } else if c == '.' {
                let follows = match stream.next_char() {
                    Some(d) => char_is_digit(d),
                    None => false,
                };
                if follows {
                    let integer: Vec<char> = Vec::new();
                    match parse_fractional(stream, &integer) {
                        Ok(class) => class,
                        Err(error) => {
                            return Err(error);
                        },
                    }
                } else {
                    TokenClass::Period
                }
            } else if c == '(' {
                TokenClass::OpenParenthesis
            } else if c == ')' {
                TokenClass::CloseParenthesis
            } else if c == '{' {
                TokenClass::OpenCurlyBrace
            } else if c == '}' {
                TokenClass::CloseCurlyBrace
            } else if c == '-' {
                let arrow = match stream.next_char() {
                    Some(d) => d == '>',
                    None => false,
                };
                if arrow {
                    stream.next();
                    TokenClass::RightArrow
                } else {
                    TokenClass::Dash
                }
            } else if c == ';' {
                TokenClass::SemiColon
            } else if c == ':' {
                TokenClass::Colon
            } else if c == ',' {
                TokenClass::Comma
            } else if c == '<' {
                TokenClass::LeftAngleBracket
            } else if c == '>' {
                TokenClass::RightAngleBracket
            } else if c == '=' {
                TokenClass::Equal
            } else if c == '*' {
                TokenClass::Asterick
            } else if c == '+' {
                TokenClass::Plus
            } else {
                return Err(LexerError::UnknownCharacter(c, column, line));
            }
        },
        None => {
            return Ok(None);
        },
    };
    let token = Token::new(token_class, column, line);
    Ok(Some(token))
}

} // verus!
