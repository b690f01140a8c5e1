//! Variable definitions.

use crate::annotated::{self, AnnotatedSyntaxTree};
use crate::ast::SemanticAnalysisError;
use crate::ast::expression::{additive, Expression};
use crate::ast::scope::Scope;
use crate::lexer::{token_stream, TokenStream};
use crate::parser::{
    expect, expect_identifier, parsed, required_token, Parsed, ParserError, ParserErrorView,
};
use crate::stream::Stream;
use crate::tokens::{TokenClass, TokenClassView};
use super::{analyse_definition, Statement, StatementView};
use vstd::prelude::*;
use vstd::string::*;

verus! {

/// The name of a new variable and whether it is declared `mut`: an
/// identifier, or `mut` and an identifier.
pub open spec fn declared_name(tokens: TokenStream) -> Parsed<(Seq<char>, bool)> {
    match tokens.next() {
        Err(error) => Err(error),
        Ok((token, rest)) => match token.class {
            TokenClassView::Identifier(identifier) => Ok(((identifier, false), rest)),
            TokenClassView::Mut => match rest.expect_identifier() {
                Err(error) => Err(error),
                Ok((identifier, rest)) => Ok(((identifier, true), rest)),
            },
            _ => Err(ParserErrorView::UnexpectedToken(token)),
        },
    }
}

/// A variable definition after `let`: the name, with `mut` before it or
/// not, `=`, an expression and a semicolon.
pub open spec fn parse_tokens(tokens: TokenStream) -> Parsed<StatementView> {
    match declared_name(tokens) {
        Err(error) => Err(error),
        Ok(((name, mutable), rest)) => match rest.expect(TokenClassView::Equal) {
            Err(error) => Err(error),
            Ok((_, rest)) => match additive::parse_tokens(rest) {
                Err(error) => Err(error),
                Ok(((expression, next_token), rest)) => if next_token.class is SemiColon {
                    Ok((StatementView::VariableDefinition(name, expression, mutable), rest))
                } else {
                    Err(ParserErrorView::UnexpectedToken(next_token))
                },
            },
        },
    }
}

/// Parses the name of a new variable and whether it is declared `mut`.
pub fn parse_declared_name(stream: &mut Stream) -> (r: Result<(String, bool), ParserError>)
    ensures
        parsed(r, old(stream)@, final(stream)@, declared_name(token_stream(old(stream)@))),
{
    let token = match required_token(stream) {
        Ok(token) => token,
        Err(error) => {
            return Err(error);
        },
    };
    match token.class() {
        TokenClass::Identifier(identifier) => Ok((identifier.clone(), false)),
        TokenClass::Mut => match expect_identifier(stream) {
            Ok(identifier) => Ok((identifier, true)),
            Err(error) => Err(error),
        },
        _ => Err(ParserError::UnexpectedToken(token)),
    }
}

/// Parses a variable definition after `let`.
pub fn parse(stream: &mut Stream) -> (r: Result<Statement, ParserError>)
    ensures
        parsed(r, old(stream)@, final(stream)@, parse_tokens(token_stream(old(stream)@))),
{
    let (name, mutable) = match parse_declared_name(stream) {
        Ok(parsed) => parsed,
        Err(error) => {
            return Err(error);
        },
    };
    match expect(stream, TokenClass::Equal) {
        Ok(()) => {},
        Err(error) => {
            return Err(error);
        },
    }
    let (expression, next_token) = match Expression::parse(stream) {
        Ok(parsed) => parsed,
        Err(error) => {
            return Err(error);
        },
    };
    match next_token.class() {
        TokenClass::SemiColon => Ok(Statement::VariableDefinition(name, expression, mutable)),
        _ => Err(ParserError::UnexpectedToken(next_token)),
    }
}

/// The typed definition of the variable `name` with the value `expression`.
/// The variable is added to `scope`.
pub fn semantic_analysis(
    output_tree: &AnnotatedSyntaxTree,
    scope: &mut Scope,
    name: &String,
    expression: &Expression,
    mutable: bool,
) -> (r: Result<annotated::statement::Statement, SemanticAnalysisError>)
    ensures
        match analyse_definition(name@, expression@, mutable, output_tree@, old(scope)@) {
            Ok((statement, after)) => r matches Ok(typed) && typed@ == statement && final(scope)@
                == after,
            Err(error) => r matches Err(e) && e@ == error,
        },
{
    let expression_type = match expression.get_type(output_tree, scope) {
        Ok(expression_type) => expression_type,
        Err(error) => {
            return Err(error);
        },
    };
    match scope.define_variable(name.clone(), expression_type.clone(), mutable) {
        Ok(()) => {},
        Err(error) => {
            return Err(error);
        },
    }
    match expression.semantic_analysis(output_tree, scope) {
        Ok(typed) => Ok(
            annotated::statement::Statement::VariableDefinition(name.clone(), typed, expression_type),
        ),
        Err(error) => Err(error),
    }
}

} // verus!
