//! The parser: from source text to the untyped syntax tree.

use crate::ast::{AbstractSyntaxTree, AbstractSyntaxTreeView};
use crate::ast::declaration::{self, DeclarationView};
use crate::ast::declaration::constant::parse_constant;
use crate::ast::declaration::constant_buffer::parse_constant_buffer;
use crate::ast::declaration::function::parse_function;
use crate::ast::declaration::structure::parse_struct;
use crate::ast::declaration::texture::parse_texture;
use crate::ast::declaration::type_alias::parse_type_alias;
use crate::lexer::{self, token_stream, LexerError, TokenStream};
use crate::model::result_model;
use crate::stream::{Stream, StreamView};
use crate::text::str_eq;
use crate::tokens::{Token, TokenClass, TokenClassView, TokenView};
use vstd::prelude::*;
use vstd::string::*;

verus! {

/// Why the parser stopped.
#[derive(Debug)]
pub enum ParserError {
    /// The lexer stopped on an error.
    LexerError(LexerError),
    /// A token that the grammar does not allow at its place.
    UnexpectedToken(Token),
    /// The text ended inside a declaration.
    UnexpectedEOF,
}

/// The model of a [`ParserError`].
pub enum ParserErrorView {
    LexerError(LexerError),
    UnexpectedToken(TokenView),
    UnexpectedEOF,
}

impl DeepView for ParserError {
    type V = ParserErrorView;

    open spec fn deep_view(&self) -> ParserErrorView {
        match self {
            ParserError::LexerError(error) => ParserErrorView::LexerError(*error),
            ParserError::UnexpectedToken(token) => ParserErrorView::UnexpectedToken(token@),
            ParserError::UnexpectedEOF => ParserErrorView::UnexpectedEOF,
        }
    }
}

impl View for ParserError {
    type V = ParserErrorView;

    open spec fn view(&self) -> ParserErrorView {
        self.deep_view()
    }
}

impl ParserErrorView {
    /// The diagnostic for this error.
    pub open spec fn display(self) -> Seq<char> {
        match self {
            ParserErrorView::LexerError(error) => error.display(),
            ParserErrorView::UnexpectedToken(token) => "Unexpected token "@ + token.display(),
            ParserErrorView::UnexpectedEOF => "Unexpected end of file"@,
        }
    }
}

impl ParserError {
    /// The diagnostic for this error.
    pub fn to_string(&self) -> (text: String)
        ensures
            text@ == self@.display(),
    {
        match self {
            ParserError::LexerError(error) => error.to_string(),
            ParserError::UnexpectedToken(token) => {
                let mut text = "Unexpected token ".to_owned();
                text.append(token.to_string().as_str());
                text
            },
            ParserError::UnexpectedEOF => "Unexpected end of file".to_owned(),
        }
    }
}

/// What a parser gives for the tokens it was handed: a value and the tokens
/// that it left, or an error.
pub type Parsed<T> = Result<(T, TokenStream), ParserErrorView>;

impl TokenStream {
    /// The error for a token that is wanted where none is left: the error
    /// on which the lexer stopped, or the end of the text.
    pub open spec fn end_error(self) -> ParserErrorView {
        match self.end {
            Some(error) => ParserErrorView::LexerError(error),
            None => ParserErrorView::UnexpectedEOF,
        }
    }

    /// The first token and the tokens after it.
    pub open spec fn next(self) -> Parsed<TokenView> {
        if self.tokens.len() > 0 {
            Ok((self.tokens[0], TokenStream { tokens: self.tokens.drop_first(), end: self.end }))
        } else {
            Err(self.end_error())
        }
    }

    /// The name of the first token, which must be an identifier.
    pub open spec fn expect_identifier(self) -> Parsed<Seq<char>> {
        match self.next() {
            Err(error) => Err(error),
            Ok((token, rest)) => match token.class {
                TokenClassView::Identifier(identifier) => Ok((identifier, rest)),
                _ => Err(ParserErrorView::UnexpectedToken(token)),
            },
        }
    }

    /// The value of the first token, which must be an integer literal.
    pub open spec fn expect_integer(self) -> Parsed<usize> {
        match self.next() {
            Err(error) => Err(error),
            Ok((token, rest)) => match token.class {
                TokenClassView::IntegerLiteral(value) => Ok((value, rest)),
                _ => Err(ParserErrorView::UnexpectedToken(token)),
            },
        }
    }

    /// The tokens after the first, which must be of the class `class`.
    pub open spec fn expect(self, class: TokenClassView) -> Parsed<()> {
        match self.next() {
            Err(error) => Err(error),
            Ok((token, rest)) => if token.class == class {
                Ok(((), rest))
            } else {
                Err(ParserErrorView::UnexpectedToken(token))
            },
        }
    }
}

/// Whether a parser that started at `before`, stopped at `after` and
/// returned `result` did what `expected` says: it returned the value and
/// left the tokens that are expected, fewer than it was handed, or it
/// returned the error that is expected.
pub open spec fn parsed<T: DeepView>(
    result: Result<T, ParserError>,
    before: StreamView,
    after: StreamView,
    expected: Parsed<T::V>,
) -> bool {
    match expected {
        Ok((value, rest)) => result matches Ok(found) && found.deep_view() == value && token_stream(
            after,
        ) == rest && rest.tokens.len() < token_stream(before).tokens.len(),
        Err(error) => result matches Err(found) && found@ == error,
    }
}

/// Whether the class is that of a keyword or a punctuation mark: a class
/// without a value.
pub open spec fn is_mark(class: TokenClassView) -> bool {
    !(class is Identifier) && !(class is FloatLiteral) && !(class is IntegerLiteral)
}

/// Whether `class` is the mark `mark`.
pub fn is_class(class: &TokenClass, mark: &TokenClass) -> (r: bool)
    requires
        is_mark(mark@),
    ensures
        r == (class@ == mark@),
{
    match (class, mark) {
        (TokenClass::Fn, TokenClass::Fn) => true,
        (TokenClass::Struct, TokenClass::Struct) => true,
        (TokenClass::CBuffer, TokenClass::CBuffer) => true,
        (TokenClass::Type, TokenClass::Type) => true,
        (TokenClass::Const, TokenClass::Const) => true,
        (TokenClass::Return, TokenClass::Return) => true,
        (TokenClass::Let, TokenClass::Let) => true,
        (TokenClass::Mut, TokenClass::Mut) => true,
        (TokenClass::OpenParenthesis, TokenClass::OpenParenthesis) => true,
        (TokenClass::CloseParenthesis, TokenClass::CloseParenthesis) => true,
        (TokenClass::OpenCurlyBrace, TokenClass::OpenCurlyBrace) => true,
        (TokenClass::CloseCurlyBrace, TokenClass::CloseCurlyBrace) => true,
        (TokenClass::Dash, TokenClass::Dash) => true,
        (TokenClass::RightArrow, TokenClass::RightArrow) => true,
        (TokenClass::SemiColon, TokenClass::SemiColon) => true,
        (TokenClass::Colon, TokenClass::Colon) => true,
        (TokenClass::Period, TokenClass::Period) => true,
        (TokenClass::Comma, TokenClass::Comma) => true,
        (TokenClass::LeftAngleBracket, TokenClass::LeftAngleBracket) => true,
        (TokenClass::RightAngleBracket, TokenClass::RightAngleBracket) => true,
        (TokenClass::Equal, TokenClass::Equal) => true,
        (TokenClass::Asterick, TokenClass::Asterick) => true,
        (TokenClass::Plus, TokenClass::Plus) => true,
        _ => false,
    }
}

/// Reads the next token, which must be there.
pub fn required_token(stream: &mut Stream) -> (r: Result<Token, ParserError>)
    ensures
        parsed(r, old(stream)@, final(stream)@, token_stream(old(stream)@).next()),
{
    match lexer::next_token(stream) {
        Ok(Some(token)) => {
            proof {
                let rest = token_stream(stream@);
                assert((seq![token@] + rest.tokens).drop_first() =~= rest.tokens);
            }
            Ok(token)
        },
        Ok(None) => Err(ParserError::UnexpectedEOF),
        Err(error) => Err(ParserError::LexerError(error)),
    }
}

/// Reads the next token, which must be an identifier, and returns its name.
pub fn expect_identifier(stream: &mut Stream) -> (r: Result<String, ParserError>)
    ensures
        parsed(r, old(stream)@, final(stream)@, token_stream(old(stream)@).expect_identifier()),
{
    let token = match required_token(stream) {
        Ok(token) => token,
        Err(error) => {
            return Err(error);
        },
    };
    match token.class() {
        TokenClass::Identifier(identifier) => Ok(identifier.clone()),
        _ => Err(ParserError::UnexpectedToken(token)),
    }
}

/// Reads the next token, which must be an integer literal, and returns its
/// value.
pub fn expect_integer(stream: &mut Stream) -> (r: Result<usize, ParserError>)
    ensures
        parsed(r, old(stream)@, final(stream)@, token_stream(old(stream)@).expect_integer()),
{
    let token = match required_token(stream) {
        Ok(token) => token,
        Err(error) => {
            return Err(error);
        },
    };
    match token.class() {
        TokenClass::IntegerLiteral(value) => Ok(*value),
        _ => Err(ParserError::UnexpectedToken(token)),
    }
}

/// Reads the next token, which must be the mark `mark`.
pub fn expect(stream: &mut Stream, mark: TokenClass) -> (r: Result<(), ParserError>)
    requires
        is_mark(mark@),
    ensures
        parsed(r, old(stream)@, final(stream)@, token_stream(old(stream)@).expect(mark@)),
{
    let token = match required_token(stream) {
        Ok(token) => token,
        Err(error) => {
            return Err(error);
        },
    };
    if is_class(token.class(), &mark) {
        Ok(())
    } else {
        Err(ParserError::UnexpectedToken(token))
    }
}

/// The declaration that starts with the token `token`: `fn` starts a
/// function, `struct` a struct, `cbuffer` a constant buffer, `type` a type
/// alias, `const` a constant and the identifier `texture` a texture.
pub open spec fn declaration(tokens: TokenStream, token: TokenView) -> Parsed<DeclarationView> {
    match token.class {
        TokenClassView::Fn => declaration::function::parse_tokens(tokens),
        TokenClassView::Struct => declaration::structure::parse_tokens(tokens),
        TokenClassView::CBuffer => declaration::constant_buffer::parse_tokens(tokens),
        TokenClassView::Type => declaration::type_alias::parse_tokens(tokens),
        TokenClassView::Const => declaration::constant::parse_tokens(tokens),
        TokenClassView::Identifier(identifier) => if identifier == "texture"@ {
            declaration::texture::parse_tokens(tokens)
        } else {
            Err(ParserErrorView::UnexpectedToken(token))
        },
        _ => Err(ParserErrorView::UnexpectedToken(token)),
    }
}

/// A declaration takes a token at least.
pub proof fn declaration_consumes(tokens: TokenStream, token: TokenView)
    ensures
        declaration(tokens, token) matches Ok((_, rest)) ==> rest.tokens.len() < tokens.tokens.len(),
{
    match tokens.expect_identifier() {
        Ok((name, rest)) => {
            match rest.expect(TokenClassView::OpenCurlyBrace) {
                Ok((_, rest)) => {
                    declaration::structure::members_consume(rest, Seq::empty());
                },
                Err(_) => {},
            }
            match rest.expect(TokenClassView::Equal) {
                Ok((_, rest)) => {
                    crate::ast::expression::expression_consumes(rest);
                },
                Err(_) => {},
            }
            match rest.expect(TokenClassView::OpenParenthesis) {
                Ok((_, rest)) => {
                    match rest.next() {
                        Ok((token, rest)) => {
                            declaration::function::parameters_consume(rest, token, Seq::empty());
                        },
                        Err(_) => {},
                    }
                    match declaration::function::parameter_list(rest) {
                        Ok((_, rest)) => match declaration::function::return_type(rest) {
                            Ok((_, rest)) => {
                                crate::ast::code_block::statements_consume(rest, Seq::empty());
                            },
                            Err(_) => {},
                        },
                        Err(_) => {},
                    }
                },
                Err(_) => {},
            }
        },
        Err(_) => {},
    }
}

/// The declarations of a text after the declarations `done`, up to the end
/// of the text. Where the tokens end on an error of the lexer, that is the
/// error.
pub open spec fn declarations(tokens: TokenStream, done: Seq<DeclarationView>) -> Result<
    Seq<DeclarationView>,
    ParserErrorView,
>
    decreases tokens.tokens.len(),
{
    match tokens.next() {
        Err(_) => match tokens.end {
            Some(error) => Err(ParserErrorView::LexerError(error)),
            None => Ok(done),
        },
        Ok((token, rest)) => match declaration(rest, token) {
            Err(error) => Err(error),
            Ok((read, after)) => {
                proof {
                    declaration_consumes(rest, token);
                }
                declarations(after, done.push(read))
            },
        },
    }
}

/// The syntax tree of a source text, or the first error of the lexer or
/// the parser.
pub open spec fn parse_source(source: Seq<char>) -> Result<AbstractSyntaxTreeView, ParserErrorView> {
    match declarations(token_stream(StreamView::start(source)), Seq::empty()) {
        Ok(read) => Ok(AbstractSyntaxTreeView { declarations: read }),
        Err(error) => Err(error),
    }
}

/// Parses a source text.
pub fn parse(code: &str) -> (r: Result<AbstractSyntaxTree, ParserError>)
    ensures
        result_model(r) == parse_source(code@),
{
    let mut ast = AbstractSyntaxTree::new();
    let mut stream = Stream::new(code);
    loop
        invariant_except_break
            declarations(token_stream(stream@), ast@.declarations) == declarations(
                token_stream(StreamView::start(code@)),
                Seq::empty(),
            ),
        ensures
            declarations(token_stream(StreamView::start(code@)), Seq::empty()) == Ok::<
                Seq<DeclarationView>,
                ParserErrorView,
            >(ast@.declarations),
        decreases token_stream(stream@).tokens.len(),
    {
        let ghost before = token_stream(stream@);
        let token = match lexer::next_token(&mut stream) {
            Ok(Some(token)) => token,
            Ok(None) => {
                break ;
            },
            Err(error) => {
                return Err(ParserError::LexerError(error));
            },
        };
        proof {
            let rest = token_stream(stream@);
            assert((seq![token@] + rest.tokens).drop_first() =~= rest.tokens);
        }
        let read = match token.class() {
            TokenClass::Fn => parse_function(&mut stream),
            TokenClass::Struct => parse_struct(&mut stream),
            TokenClass::CBuffer => parse_constant_buffer(&mut stream),
            TokenClass::Type => parse_type_alias(&mut stream),
            TokenClass::Const => parse_constant(&mut stream),
            TokenClass::Identifier(identifier) => if str_eq(identifier.as_str(), "texture") {
                parse_texture(&mut stream)
            } else {
                return Err(ParserError::UnexpectedToken(token));
            },
            _ => {
                return Err(ParserError::UnexpectedToken(token));
            },
        };
        match read {
            Ok(read) => {
                ast.push(read);
            },
            Err(error) => {
                return Err(error);
            },
        }
    }
    Ok(ast)
}

} // verus!
