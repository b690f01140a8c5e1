//! Sums and differences.

use crate::annotated::{self, AnnotatedSyntaxTree};
use crate::ast::SemanticAnalysisError;
use crate::ast::scope::Scope;
use crate::lexer::{token_stream, TokenStream};
use crate::model::result_model;
use crate::parser::{parsed, Parsed, ParserError, ParserErrorView};
use crate::stream::Stream;
use crate::tokens::{Token, TokenClass, TokenView};
use super::{multiplicative, Expression, ExpressionView};
use vstd::prelude::*;

verus! {

/// A chain of products joined by `+` and `-`, and the token after it. The
/// chain groups to the left; `left` is the chain read so far with the
/// operator after it, `true` for `+`. The test on the lengths shows that
/// the definition is well founded: a product always takes a token.
pub open spec fn sums(tokens: TokenStream, left: Option<(ExpressionView, bool)>) -> Parsed<
    (ExpressionView, TokenView),
>
    decreases tokens.tokens.len(), 3nat,
{
    match multiplicative::parse_tokens(tokens) {
        Err(error) => Err(error),
        Ok(((right, next_token), rest)) => {
            let expression = match left {
                Some((left, plus)) => if plus {
                    ExpressionView::Add(Box::new(left), Box::new(right))
                } else {
                    ExpressionView::Subtract(Box::new(left), Box::new(right))
                },
                None => right,
            };
            if next_token.class is Plus || next_token.class is Dash {
                if rest.tokens.len() < tokens.tokens.len() {
                    sums(rest, Some((expression, next_token.class is Plus)))
                } else {
                    Err(ParserErrorView::UnexpectedEOF)
                }
            } else {
                Ok(((expression, next_token), rest))
            }
        },
    }
}

/// An additive expression and the token after it.
pub open spec fn parse_tokens(tokens: TokenStream) -> Parsed<(ExpressionView, TokenView)>
    decreases tokens.tokens.len(), 4nat,
{
    sums(tokens, None)
}

/// What is left to read of a chain of sums after `expression` and the token
/// `next_token`.
pub open spec fn sums_after(expression: ExpressionView, next_token: TokenView, rest: TokenStream) -> Parsed<
    (ExpressionView, TokenView),
> {
    if next_token.class is Plus || next_token.class is Dash {
        sums(rest, Some((expression, next_token.class is Plus)))
    } else {
        Ok(((expression, next_token), rest))
    }
}

/// Parses an additive expression and the token after it.
pub fn parse(stream: &mut Stream) -> (r: Result<(Expression, Token), ParserError>)
    ensures
        parsed(r, old(stream)@, final(stream)@, parse_tokens(token_stream(old(stream)@))),
    decreases token_stream(old(stream)@).tokens.len(), 4nat,
{
    let (mut left_expression, mut next_token) = match multiplicative::parse(stream) {
        Ok(parsed) => parsed,
        Err(error) => {
            return Err(error);
        },
    };
    loop
        invariant
            sums_after(left_expression@, next_token@, token_stream(stream@)) == parse_tokens(
                token_stream(old(stream)@),
            ),
            token_stream(stream@).tokens.len() < token_stream(old(stream)@).tokens.len(),
        ensures
            !(next_token@.class is Plus || next_token@.class is Dash),
        decreases token_stream(stream@).tokens.len(),
    {
        let plus = match next_token.class() {
            TokenClass::Plus => true,
            TokenClass::Dash => false,
            _ => {
                break ;
            },
        };
        let (right_expression, nt) = match multiplicative::parse(stream) {
            Ok(parsed) => parsed,
            Err(error) => {
                return Err(error);
            },
        };
        left_expression =
        if plus {
            Expression::Add(Box::new(left_expression), Box::new(right_expression))
        } else {
            Expression::Subtract(Box::new(left_expression), Box::new(right_expression))
        };
        next_token = nt;
    }
    Ok((left_expression, next_token))
}

/// The typed sum of two expressions where `add` holds, else their typed
/// difference.
pub fn semantic_analysis(
    output_tree: &AnnotatedSyntaxTree,
    scope: &Scope,
    left_expression: &Expression,
    right_expression: &Expression,
    add: bool,
) -> (r: Result<annotated::expression::Expression, SemanticAnalysisError>)
    ensures
        result_model(r) == (if add {
            ExpressionView::Add(Box::new(left_expression@), Box::new(right_expression@))
        } else {
            ExpressionView::Subtract(Box::new(left_expression@), Box::new(right_expression@))
        }).analyse(output_tree@, scope@),
    decreases
            (if add {
                Expression::Add(Box::new(*left_expression), Box::new(*right_expression))
            } else {
                Expression::Subtract(Box::new(*left_expression), Box::new(*right_expression))
            }),
            0nat,
{
    let left_type = match left_expression.get_type(output_tree, scope) {
        Ok(left_type) => left_type,
        Err(error) => {
            return Err(error);
        },
    };
    let right_type = match right_expression.get_type(output_tree, scope) {
        Ok(right_type) => right_type,
        Err(error) => {
            return Err(error);
        },
    };
    let sum_type = match left_type.sum_type(&right_type) {
        Ok(sum_type) => sum_type,
        Err(error) => {
            return Err(error);
        },
    };
    proof {
        let sum = Expression::Add(Box::new(*left_expression), Box::new(*right_expression));
        assert(decreases_to!(sum => *sum->Add_0));
        assert(decreases_to!(sum => *sum->Add_1));
        let difference = Expression::Subtract(Box::new(*left_expression), Box::new(*right_expression));
        assert(decreases_to!(difference => *difference->Subtract_0));
        assert(decreases_to!(difference => *difference->Subtract_1));
    }
    let left_expression = match left_expression.semantic_analysis(output_tree, scope) {
        Ok(left_expression) => left_expression,
        Err(error) => {
            return Err(error);
        },
    };
    let right_expression = match right_expression.semantic_analysis(output_tree, scope) {
        Ok(right_expression) => right_expression,
        Err(error) => {
            return Err(error);
        },
    };
    Ok(
        if add {
            annotated::expression::Expression::Add(
                Box::new(left_expression),
                Box::new(right_expression),
                sum_type,
            )
        } else {
            annotated::expression::Expression::Subtract(
                Box::new(left_expression),
                Box::new(right_expression),
                sum_type,
            )
        },
    )
}

} // verus!
