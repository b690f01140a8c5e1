//! Products.

use crate::annotated::{self, AnnotatedSyntaxTree};
use crate::ast::SemanticAnalysisError;
use crate::ast::scope::Scope;
use crate::lexer::{token_stream, TokenStream};
use crate::model::result_model;
use crate::parser::{parsed, Parsed, ParserError, ParserErrorView};
use crate::stream::Stream;
use crate::tokens::{Token, TokenClass, TokenView};
use super::{primary, Expression, ExpressionView};
use vstd::prelude::*;

verus! {

/// A chain of primary expressions joined by `*`, and the token after it. The
/// chain groups to the left; `left` is the chain read so far. The test on
/// the lengths shows that the definition is well founded: a primary
/// expression always takes a token.
pub open spec fn products(tokens: TokenStream, left: Option<ExpressionView>) -> Parsed<
    (ExpressionView, TokenView),
>
    decreases tokens.tokens.len(), 1nat,
{
    match primary::parse_tokens(tokens) {
        Err(error) => Err(error),
        Ok(((right, next_token), rest)) => {
            let expression = match left {
                Some(left) => ExpressionView::Multiply(Box::new(left), Box::new(right)),
                None => right,
            };
            if next_token.class is Asterick {
                if rest.tokens.len() < tokens.tokens.len() {
                    products(rest, Some(expression))
                } else {
                    Err(ParserErrorView::UnexpectedEOF)
                }
            } else {
                Ok(((expression, next_token), rest))
            }
        },
    }
}

/// A multiplicative expression and the token after it.
pub open spec fn parse_tokens(tokens: TokenStream) -> Parsed<(ExpressionView, TokenView)>
    decreases tokens.tokens.len(), 2nat,
{
    products(tokens, None)
}

/// What is left to read of a chain of products after `expression` and the
/// token `next_token`.
pub open spec fn products_after(expression: ExpressionView, next_token: TokenView, rest: TokenStream) -> Parsed<
    (ExpressionView, TokenView),
> {
    if next_token.class is Asterick {
        products(rest, Some(expression))
    } else {
        Ok(((expression, next_token), rest))
    }
}

/// Parses a multiplicative expression and the token after it.
pub fn parse(stream: &mut Stream) -> (r: Result<(Expression, Token), ParserError>)
    ensures
        parsed(r, old(stream)@, final(stream)@, parse_tokens(token_stream(old(stream)@))),
    decreases token_stream(old(stream)@).tokens.len(), 2nat,
{
    let (mut left_expression, mut next_token) = match primary::parse(stream) {
        Ok(parsed) => parsed,
        Err(error) => {
            return Err(error);
        },
    };
    loop
        invariant
            products_after(left_expression@, next_token@, token_stream(stream@)) == parse_tokens(
                token_stream(old(stream)@),
            ),
            token_stream(stream@).tokens.len() < token_stream(old(stream)@).tokens.len(),
        ensures
            !(next_token@.class is Asterick),
        decreases token_stream(stream@).tokens.len(),
    {
        match next_token.class() {
            TokenClass::Asterick => {},
            _ => {
                break ;
            },
        }
        let (right_expression, nt) = match primary::parse(stream) {
            Ok(parsed) => parsed,
            Err(error) => {
                return Err(error);
            },
        };
        left_expression =
        Expression::Multiply(Box::new(left_expression), Box::new(right_expression));
        next_token = nt;
    }
    Ok((left_expression, next_token))
}

/// The typed product of two expressions.
pub fn multiply_semantic_analysis(
    output_tree: &AnnotatedSyntaxTree,
    scope: &Scope,
    left_expression: &Expression,
    right_expression: &Expression,
) -> (r: Result<annotated::expression::Expression, SemanticAnalysisError>)
    ensures
        result_model(r) == ExpressionView::Multiply(
            Box::new(left_expression@),
            Box::new(right_expression@),
        ).analyse(output_tree@, scope@),
    decreases Expression::Multiply(Box::new(*left_expression), Box::new(*right_expression)), 0nat,
{
    let left_type = match left_expression.get_type(output_tree, scope) {
        Ok(left_type) => left_type,
        Err(error) => {
            return Err(error);
        },
    };
    let right_type = match right_expression.get_type(output_tree, scope) {
        Ok(right_type) => right_type,
        Err(error) => {
            return Err(error);
        },
    };
    let product_type = match left_type.product_type(&right_type) {
        Ok(product_type) => product_type,
        Err(error) => {
            return Err(error);
        },
    };
    proof {
        let parent = Expression::Multiply(Box::new(*left_expression), Box::new(*right_expression));
        assert(decreases_to!(parent => *parent->Multiply_0));
        assert(decreases_to!(parent => *parent->Multiply_1));
    }
    let left_expression = match left_expression.semantic_analysis(output_tree, scope) {
        Ok(left_expression) => left_expression,
        Err(error) => {
            return Err(error);
        },
    };
    let right_expression = match right_expression.semantic_analysis(output_tree, scope) {
        Ok(right_expression) => right_expression,
        Err(error) => {
            return Err(error);
        },
    };
    Ok(
        annotated::expression::Expression::Multiply(
            Box::new(left_expression),
            Box::new(right_expression),
            product_type,
        ),
    )
}

} // verus!
