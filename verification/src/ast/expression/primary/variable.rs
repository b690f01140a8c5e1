//! Variables.

use crate::annotated;
use crate::ast::SemanticAnalysisError;
use crate::ast::expression::{Expression, ExpressionView};
use crate::ast::scope::Scope;

use crate::parser::ParserError;
use crate::tokens::Token;
use vstd::prelude::*;
use vstd::string::*;

verus! {

/// The variable `identifier` before the token `next_token`.
pub fn parse(identifier: &str, next_token: Token) -> (r: Result<(Expression, Token), ParserError>)
    ensures
        r matches Ok(parsed) && parsed.0@ == ExpressionView::Variable(identifier@) && parsed.1
            == next_token,
{
    Ok((Expression::Variable(identifier.to_owned()), next_token))
}

/// The variable `variable` with its type, which the scope must know.
pub fn semantic_analysis(scope: &Scope, variable: &String) -> (r: Result<
    annotated::expression::Expression,
    SemanticAnalysisError,
>)
    ensures
        match scope@.get_variable(variable@) {
            Ok(found) => r matches Ok(expression) && expression@
                == annotated::expression::ExpressionView::Variable(variable@, found.0),
            Err(error) => r matches Err(e) && e@ == error,
        },
{
    match scope.get_variable(variable.as_str()) {
        Ok(found) => Ok(annotated::expression::Expression::Variable(variable.clone(), found.0)),
        Err(error) => Err(error),
    }
}

} // verus!
