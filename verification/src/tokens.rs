//! Tokens: what the lexer hands to the parser.

use crate::decimal::{Decimal, DecimalView};
use crate::text::{decimal, push_decimal};
use vstd::prelude::*;
use vstd::string::*;

verus! {

/// The class of a token, with the value of an identifier or a literal.
#[derive(Debug)]
pub enum TokenClass {
    Fn,
    Struct,
    CBuffer,
    Type,
    Const,
    Return,
    Let,
    Mut,
    Identifier(String),
    FloatLiteral(Decimal),
    IntegerLiteral(usize),
    OpenParenthesis,
    CloseParenthesis,
    OpenCurlyBrace,
    CloseCurlyBrace,
    Dash,
    RightArrow,
    SemiColon,
    Colon,
    Period,
    Comma,
    LeftAngleBracket,
    RightAngleBracket,
    Equal,
    Asterick,
    Plus,
}

/// The model of a [`TokenClass`].
pub enum TokenClassView {
    Fn,
    Struct,
    CBuffer,
    Type,
    Const,
    Return,
    Let,
    Mut,
    Identifier(Seq<char>),
    FloatLiteral(DecimalView),
    IntegerLiteral(usize),
    OpenParenthesis,
    CloseParenthesis,
    OpenCurlyBrace,
    CloseCurlyBrace,
    Dash,
    RightArrow,
    SemiColon,
    Colon,
    Period,
    Comma,
    LeftAngleBracket,
    RightAngleBracket,
    Equal,
    Asterick,
    Plus,
}

/// A token and the position of its first character.
#[derive(Debug)]
pub struct Token {
    class: TokenClass,
    column: usize,
    line: usize,
}

/// The model of a [`Token`].
pub struct TokenView {
    pub class: TokenClassView,
    pub column: usize,
    pub line: usize,
}

impl TokenClassView {
    /// How the class is written in a diagnostic: a keyword or a punctuation
    /// mark as in the source, an identifier between double quotes, a number
    /// in its shortest notation.
    pub open spec fn display(self) -> Seq<char> {
        match self {
            TokenClassView::Fn => "fn"@,
            TokenClassView::Struct => "struct"@,
            TokenClassView::CBuffer => "cbuffer"@,
            TokenClassView::Type => "type"@,
            TokenClassView::Const => "const"@,
            TokenClassView::Return => "return"@,
            TokenClassView::Let => "let"@,
            TokenClassView::Mut => "mut"@,
            TokenClassView::Identifier(identifier) => "\""@ + identifier + "\""@,
            TokenClassView::FloatLiteral(value) => value.plain(),
            TokenClassView::IntegerLiteral(value) => decimal(value as nat),
            TokenClassView::OpenParenthesis => "("@,
            TokenClassView::CloseParenthesis => ")"@,
            TokenClassView::OpenCurlyBrace => "{"@,
            TokenClassView::CloseCurlyBrace => "}"@,
            TokenClassView::Dash => "-"@,
            TokenClassView::RightArrow => "->"@,
            TokenClassView::SemiColon => ";"@,
            TokenClassView::Colon => ":"@,
            TokenClassView::Period => "."@,
            TokenClassView::Comma => ","@,
            TokenClassView::LeftAngleBracket => "<"@,
            TokenClassView::RightAngleBracket => ">"@,
            TokenClassView::Equal => "="@,
            TokenClassView::Asterick => "*"@,
            TokenClassView::Plus => "+"@,
        }
    }
}

impl TokenView {
    /// The class, then ` at `, the line, a colon and the column.
    pub open spec fn display(self) -> Seq<char> {
        self.class.display() + " at "@ + decimal(self.line as nat) + ":"@ + decimal(self.column as nat)
    }
}

impl DeepView for TokenClass {
    type V = TokenClassView;

    open spec fn deep_view(&self) -> TokenClassView {
        match self {
            TokenClass::Fn => TokenClassView::Fn,
            TokenClass::Struct => TokenClassView::Struct,
            TokenClass::CBuffer => TokenClassView::CBuffer,
            TokenClass::Type => TokenClassView::Type,
            TokenClass::Const => TokenClassView::Const,
            TokenClass::Return => TokenClassView::Return,
            TokenClass::Let => TokenClassView::Let,
            TokenClass::Mut => TokenClassView::Mut,
            TokenClass::Identifier(identifier) => TokenClassView::Identifier(identifier@),
            TokenClass::FloatLiteral(value) => TokenClassView::FloatLiteral(value@),
            TokenClass::IntegerLiteral(value) => TokenClassView::IntegerLiteral(*value),
            TokenClass::OpenParenthesis => TokenClassView::OpenParenthesis,
            TokenClass::CloseParenthesis => TokenClassView::CloseParenthesis,
            TokenClass::OpenCurlyBrace => TokenClassView::OpenCurlyBrace,
            TokenClass::CloseCurlyBrace => TokenClassView::CloseCurlyBrace,
            TokenClass::Dash => TokenClassView::Dash,
            TokenClass::RightArrow => TokenClassView::RightArrow,
            TokenClass::SemiColon => TokenClassView::SemiColon,
            TokenClass::Colon => TokenClassView::Colon,
            TokenClass::Period => TokenClassView::Period,
            TokenClass::Comma => TokenClassView::Comma,
            TokenClass::LeftAngleBracket => TokenClassView::LeftAngleBracket,
            TokenClass::RightAngleBracket => TokenClassView::RightAngleBracket,
            TokenClass::Equal => TokenClassView::Equal,
            TokenClass::Asterick => TokenClassView::Asterick,
            TokenClass::Plus => TokenClassView::Plus,
        }
    }
}

impl View for TokenClass {
    type V = TokenClassView;

    open spec fn view(&self) -> TokenClassView {
        self.deep_view()
    }
}

impl TokenClass {
    /// How the class is written in a diagnostic.
    pub fn to_string(&self) -> (text: String)
        ensures
            text@ == self@.display(),
    {
        match self {
            TokenClass::Fn => "fn".to_owned(),
            TokenClass::Struct => "struct".to_owned(),
            TokenClass::CBuffer => "cbuffer".to_owned(),
            TokenClass::Type => "type".to_owned(),
            TokenClass::Const => "const".to_owned(),
            TokenClass::Return => "return".to_owned(),
            TokenClass::Let => "let".to_owned(),
            TokenClass::Mut => "mut".to_owned(),
            TokenClass::Identifier(identifier) => {
                let mut text = "\"".to_owned();
                text.append(identifier.as_str());
                text.append("\"");
                text
            },
            TokenClass::FloatLiteral(value) => value.to_string(),
            TokenClass::IntegerLiteral(value) => crate::text::decimal_string(*value),
            TokenClass::OpenParenthesis => "(".to_owned(),
            TokenClass::CloseParenthesis => ")".to_owned(),
            TokenClass::OpenCurlyBrace => "{".to_owned(),
            TokenClass::CloseCurlyBrace => "}".to_owned(),
            TokenClass::Dash => "-".to_owned(),
            TokenClass::RightArrow => "->".to_owned(),
            TokenClass::SemiColon => ";".to_owned(),
            TokenClass::Colon => ":".to_owned(),
            TokenClass::Period => ".".to_owned(),
            TokenClass::Comma => ",".to_owned(),
            TokenClass::LeftAngleBracket => "<".to_owned(),
            TokenClass::RightAngleBracket => ">".to_owned(),
            TokenClass::Equal => "=".to_owned(),
            TokenClass::Asterick => "*".to_owned(),
            TokenClass::Plus => "+".to_owned(),
        }
    }
}

impl Token {
    /// The model of this token.
    pub closed spec fn model(&self) -> TokenView {
        TokenView { class: self.class@, column: self.column, line: self.line }
    }

    pub fn new(class: TokenClass, column: usize, line: usize) -> (token: Self)
        ensures
            token@ == (TokenView { class: class@, column, line }),
    {
        Token { class, column, line }
    }

    pub fn class(&self) -> (class: &TokenClass)
        ensures
            class@ == self@.class,
    {
        &self.class
    }

    pub fn column(&self) -> (column: usize)
        ensures
            column == self@.column,
    {
        self.column
    }

    pub fn line(&self) -> (line: usize)
        ensures
            line == self@.line,
    {
        self.line
    }

    /// The token as a diagnostic names it.
    pub fn to_string(&self) -> (text: String)
        ensures
            text@ == self@.display(),
    {
        let mut text = self.class.to_string();
        text.append(" at ");
        push_decimal(&mut text, self.line);
        text.append(":");
        push_decimal(&mut text, self.column);
        text
    }
}

impl DeepView for Token {
    type V = TokenView;

    open spec fn deep_view(&self) -> TokenView {
        self.model()
    }
}

impl View for Token {
    type V = TokenView;

    open spec fn view(&self) -> TokenView {
        self.model()
    }
}

} // verus!
