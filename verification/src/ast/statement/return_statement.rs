//! The `return` statement.

use crate::annotated::{self, AnnotatedSyntaxTree};
use crate::ast::SemanticAnalysisError;
use crate::ast::expression::{additive, Expression};
use crate::ast::scope::Scope;
use crate::lexer::{token_stream, TokenStream};
use crate::model::result_model;
use crate::parser::{parsed, Parsed, ParserError, ParserErrorView};
use crate::stream::Stream;
use crate::tokens::TokenClass;
use crate::types::Type;
use super::{analyse_return, Statement, StatementView};
use vstd::prelude::*;

verus! {

/// A `return` statement after its keyword: an expression and a semicolon.
pub open spec fn parse_tokens(tokens: TokenStream) -> Parsed<StatementView> {
    match additive::parse_tokens(tokens) {
        Err(error) => Err(error),
        Ok(((expression, next_token), rest)) => if next_token.class is SemiColon {
            Ok((StatementView::Return(expression), rest))
        } else {
            Err(ParserErrorView::UnexpectedToken(next_token))
        },
    }
}

/// Parses a `return` statement after its keyword.
pub fn parse(stream: &mut Stream) -> (r: Result<Statement, ParserError>)
    ensures
        parsed(r, old(stream)@, final(stream)@, parse_tokens(token_stream(old(stream)@))),
{
    let (expression, next_token) = match Expression::parse(stream) {
        Ok(parsed) => parsed,
        Err(error) => {
            return Err(error);
        },
    };
    match next_token.class() {
        TokenClass::SemiColon => Ok(Statement::Return(expression)),
        _ => Err(ParserError::UnexpectedToken(next_token)),
    }
}

/// The typed `return` of `expression` from a function that returns
/// `function_return_type`.
pub fn semantic_analysis(
    output_tree: &AnnotatedSyntaxTree,
    scope: &Scope,
    function_return_type: &Type,
    expression: &Expression,
) -> (r: Result<annotated::statement::Statement, SemanticAnalysisError>)
    ensures
        result_model(r) == analyse_return(expression@, output_tree@, scope@, function_return_type@),
{
    let expression_type = match expression.get_type(output_tree, scope) {
        Ok(expression_type) => expression_type,
        Err(error) => {
            return Err(error);
        },
    };
    if expression_type == *function_return_type {
        match expression.semantic_analysis(output_tree, scope) {
            Ok(typed) => Ok(annotated::statement::Statement::Return(typed, expression_type)),
            Err(error) => Err(error),
        }
    } else {
        Err(
            SemanticAnalysisError::InvalidReturnType(
                expression_type.to_string(),
                function_return_type.to_string(),
            ),
        )
    }
}

} // verus!
