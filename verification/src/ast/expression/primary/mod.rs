//! Primary expressions: variables, literals, calls, struct creations and
//! member accesses.

use crate::lexer::{token_stream, TokenStream};
use crate::parser::{expect_identifier, parsed, required_token, Parsed, ParserError, ParserErrorView};
use crate::stream::Stream;
use crate::tokens::{Token, TokenClass, TokenClassView, TokenView};
use super::{additive, Expression, ExpressionView};
use vstd::prelude::*;
use vstd::string::*;

pub mod empty;
pub mod float_literal;
pub mod function_call;
pub mod member_access;
pub mod struct_creation;
pub mod variable;

verus! {

/// The member accesses that follow `expression`: as long as the next token
/// is a period, the identifier after it names a member of what stands
/// before it.
pub open spec fn member_chain(expression: ExpressionView, next_token: TokenView, tokens: TokenStream) -> Parsed<
    (ExpressionView, TokenView),
>
    decreases tokens.tokens.len(),
{
    if next_token.class is Period {
        match tokens.expect_identifier() {
            Err(error) => Err(error),
            Ok((member, rest)) => match rest.next() {
                Err(error) => Err(error),
                Ok((token, rest)) => member_chain(
                    ExpressionView::MemberAccess(Box::new(expression), member),
                    token,
                    rest,
                ),
            },
        }
    } else {
        Ok(((expression, next_token), tokens))
    }
}

/// The expression that starts with the token `token`, before its member
/// accesses, and the token after it: an expression between parentheses, a
/// float literal, or an identifier, which is a call before `(`, a struct
/// creation before `{` and a variable before anything else. Any other token
/// stands for the empty expression and is itself the token after it.
pub open spec fn head(token: TokenView, tokens: TokenStream) -> Parsed<(ExpressionView, TokenView)>
    decreases tokens.tokens.len(), 8nat,
{
    match token.class {
        TokenClassView::OpenParenthesis => match additive::parse_tokens(tokens) {
            Err(error) => Err(error),
            Ok(((expression, next_token), rest)) => if next_token.class is CloseParenthesis {
                match rest.next() {
                    Err(error) => Err(error),
                    Ok((token, rest)) => Ok(((expression, token), rest)),
                }
            } else {
                Err(ParserErrorView::UnexpectedToken(next_token))
            },
        },
        TokenClassView::FloatLiteral(value) => float_literal::parse_tokens(tokens, value),
        TokenClassView::Identifier(identifier) => match tokens.next() {
            Err(error) => Err(error),
            Ok((next_token, rest)) => match next_token.class {
                TokenClassView::OpenParenthesis => function_call::parse_tokens(rest, identifier),
                TokenClassView::OpenCurlyBrace => struct_creation::parse_tokens(rest, identifier),
                TokenClassView::Period => member_access::parse_tokens(
                    rest,
                    ExpressionView::Variable(identifier),
                ),
                _ => Ok(((ExpressionView::Variable(identifier), next_token), rest)),
            },
        },
        _ => Ok(((ExpressionView::Empty, token), tokens)),
    }
}

/// A primary expression with its member accesses, and the token after it.
pub open spec fn parse_tokens(tokens: TokenStream) -> Parsed<(ExpressionView, TokenView)>
    decreases tokens.tokens.len(), 0nat,
{
    match tokens.next() {
        Err(error) => Err(error),
        Ok((token, rest)) => match head(token, rest) {
            Err(error) => Err(error),
            Ok(((expression, next_token), rest)) => member_chain(expression, next_token, rest),
        },
    }
}

/// Parses a primary expression and the token after it.
pub fn parse(stream: &mut Stream) -> (r: Result<(Expression, Token), ParserError>)
    ensures
        parsed(r, old(stream)@, final(stream)@, parse_tokens(token_stream(old(stream)@))),
    decreases token_stream(old(stream)@).tokens.len(), 0nat,
{
    let token = match required_token(stream) {
        Ok(token) => token,
        Err(error) => {
            return Err(error);
        },
    };
    let ghost after_first = token_stream(stream@);
    let started = match token.class() {
        TokenClass::OpenParenthesis => {
            let (expression, next_token) = match Expression::parse(stream) {
                Ok(parsed) => parsed,
                Err(error) => {
                    return Err(error);
                },
            };
            match next_token.class() {
                TokenClass::CloseParenthesis => {},
                _ => {
                    return Err(ParserError::UnexpectedToken(next_token));
                },
            }
            match required_token(stream) {
                Ok(token) => Ok((expression, token)),
                Err(error) => Err(error),
            }
        },
        TokenClass::FloatLiteral(value) => float_literal::parse(stream, value),
        TokenClass::Identifier(identifier) => match required_token(stream) {
            Ok(next_token) => match next_token.class() {
                TokenClass::OpenParenthesis => function_call::parse(stream, identifier.as_str()),
                TokenClass::OpenCurlyBrace => struct_creation::parse(stream, identifier.as_str()),
                TokenClass::Period => member_access::parse(
                    stream,
                    Expression::Variable(identifier.clone()),
                ),
                _ => variable::parse(identifier.as_str(), next_token),
            },
            Err(error) => Err(error),
        },
        _ => empty::parse(token),
    };
    let (mut expression, mut next_token) = match started {
        Ok(parsed) => parsed,
        Err(error) => {
            return Err(error);
        },
    };
    loop
        invariant
            member_chain(expression@, next_token@, token_stream(stream@)) == parse_tokens(
                token_stream(old(stream)@),
            ),
            token_stream(stream@).tokens.len() < token_stream(old(stream)@).tokens.len(),
        ensures
            !(next_token@.class is Period),
        decreases token_stream(stream@).tokens.len(),
    {
        match next_token.class() {
            TokenClass::Period => {},
            _ => {
                break ;
            },
        }
        let member = match expect_identifier(stream) {
            Ok(member) => member,
            Err(error) => {
                return Err(error);
            },
        };
        expression = Expression::MemberAccess(Box::new(expression), member);
        next_token =
        match required_token(stream) {
            Ok(token) => token,
            Err(error) => {
                return Err(error);
            },
        };
    }
    Ok((expression, next_token))
}

} // verus!
