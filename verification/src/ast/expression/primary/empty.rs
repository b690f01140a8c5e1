//! The empty expression.

use crate::annotated;
use crate::ast::SemanticAnalysisError;
use crate::ast::expression::{Expression, ExpressionView};
use crate::parser::ParserError;
use crate::tokens::Token;
use vstd::prelude::*;

verus! {

/// The empty expression before the token `token`.
pub fn parse(token: Token) -> (r: Result<(Expression, Token), ParserError>)
    ensures
        r matches Ok(parsed) && parsed.0@ == ExpressionView::Empty && parsed.1 == token,
{
    Ok((Expression::Empty, token))
}

/// The typed empty expression.
pub fn semantic_analysis() -> (r: Result<annotated::expression::Expression, SemanticAnalysisError>)
    ensures
        r matches Ok(expression) && expression@ == annotated::expression::ExpressionView::Empty,
{
    Ok(annotated::expression::Expression::Empty)
}

} // verus!
