//! Assignments.

use crate::annotated::{self, AnnotatedSyntaxTree};
use crate::ast::SemanticAnalysisError;
use crate::ast::expression::{additive, Expression};
use crate::ast::scope::Scope;
use crate::lexer::{token_stream, TokenStream};
use crate::model::result_model;
use crate::parser::{expect, parsed, Parsed, ParserError, ParserErrorView};
use crate::stream::Stream;
use crate::tokens::{TokenClass, TokenClassView};
use super::{analyse_assignment, Statement, StatementView};
use vstd::prelude::*;
use vstd::string::*;

verus! {

/// An assignment to the variable `name` after its name: `=`, an expression
/// and a semicolon.
pub open spec fn parse_tokens(tokens: TokenStream, name: Seq<char>) -> Parsed<StatementView> {
    match tokens.expect(TokenClassView::Equal) {
        Err(error) => Err(error),
        Ok((_, rest)) => match additive::parse_tokens(rest) {
            Err(error) => Err(error),
            Ok(((expression, next_token), rest)) => if next_token.class is SemiColon {
                Ok((StatementView::Assignment(name, expression), rest))
            } else {
                Err(ParserErrorView::UnexpectedToken(next_token))
            },
        },
    }
}

/// Parses an assignment to the variable `name` after its name.
pub fn parse(stream: &mut Stream, name: &str) -> (r: Result<Statement, ParserError>)
    ensures
        parsed(r, old(stream)@, final(stream)@, parse_tokens(token_stream(old(stream)@), name@)),
{
    match expect(stream, TokenClass::Equal) {
        Ok(()) => {},
        Err(error) => {
            return Err(error);
        },
    }
    let (expression, next_token) = match Expression::parse(stream) {
        Ok(parsed) => parsed,
        Err(error) => {
            return Err(error);
        },
    };
    match next_token.class() {
        TokenClass::SemiColon => Ok(Statement::Assignment(name.to_owned(), expression)),
        _ => Err(ParserError::UnexpectedToken(next_token)),
    }
}

/// The typed assignment of `expression` to the variable `name`.
pub fn semantic_analysis(
    output_tree: &AnnotatedSyntaxTree,
    scope: &Scope,
    name: &String,
    expression: &Expression,
) -> (r: Result<annotated::statement::Statement, SemanticAnalysisError>)
    ensures
        result_model(r) == analyse_assignment(name@, expression@, output_tree@, scope@),
{
    let variable = match scope.get_variable(name.as_str()) {
        Ok(variable) => variable,
        Err(error) => {
            return Err(error);
        },
    };
    if !variable.1 {
        return Err(SemanticAnalysisError::ImmutableVariable(name.clone()));
    }
    let expression_type = match expression.get_type(output_tree, scope) {
        Ok(expression_type) => expression_type,
        Err(error) => {
            return Err(error);
        },
    };
    if !(expression_type == variable.0) {
        Err(
            SemanticAnalysisError::VariableTypeMismatch(
                name.clone(),
                expression_type.to_string(),
                variable.0.to_string(),
            ),
        )
    } else {
        match expression.semantic_analysis(output_tree, scope) {
            Ok(typed) => Ok(annotated::statement::Statement::Assignment(name.clone(), typed)),
            Err(error) => Err(error),
        }
    }
}

} // verus!
