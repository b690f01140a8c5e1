//! Float literals.

use crate::annotated;
use crate::ast::SemanticAnalysisError;
use crate::ast::expression::{Expression, ExpressionView};
use crate::decimal::{Decimal, DecimalView};
use crate::lexer::{token_stream, TokenStream};
use crate::parser::{parsed, required_token, Parsed, ParserError};
use crate::stream::Stream;
use crate::tokens::{Token, TokenView};
use vstd::prelude::*;

verus! {

/// The literal of the value `value` and the token after it.
pub open spec fn parse_tokens(tokens: TokenStream, value: DecimalView) -> Parsed<
    (ExpressionView, TokenView),
> {
    match tokens.next() {
        Err(error) => Err(error),
        Ok((next_token, rest)) => Ok(((ExpressionView::FloatLiteral(value), next_token), rest)),
    }
}

/// Parses what follows a float literal of the value `value`: the next
/// token.
pub fn parse(stream: &mut Stream, value: &Decimal) -> (r: Result<(Expression, Token), ParserError>)
    ensures
        parsed(r, old(stream)@, final(stream)@, parse_tokens(token_stream(old(stream)@), value@)),
{
    match required_token(stream) {
        Ok(next_token) => Ok((Expression::FloatLiteral(value.clone()), next_token)),
        Err(error) => Err(error),
    }
}

/// The typed literal of the value `value`.
pub fn semantic_analysis(value: &Decimal) -> (r: Result<
    annotated::expression::Expression,
    SemanticAnalysisError,
>)
    ensures
        r matches Ok(expression) && expression@
            == annotated::expression::ExpressionView::FloatLiteral(value@),
{
    Ok(annotated::expression::Expression::FloatLiteral(value.clone()))
}

} // verus!
