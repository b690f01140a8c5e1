//! Member accesses.

use crate::annotated::{self, AnnotatedSyntaxTree};
use crate::ast::SemanticAnalysisError;
use crate::ast::expression::{Expression, ExpressionView};
use crate::ast::scope::Scope;
use crate::lexer::{token_stream, TokenStream};
use crate::model::result_model;
use crate::parser::{expect_identifier, parsed, required_token, Parsed, ParserError};
use crate::stream::Stream;
use crate::tokens::{Token, TokenView};
use vstd::prelude::*;
use vstd::string::*;

verus! {

/// The access to a member of `expression`, whose name is the next token,
/// and the token after it.
pub open spec fn parse_tokens(tokens: TokenStream, expression: ExpressionView) -> Parsed<
    (ExpressionView, TokenView),
> {
    match tokens.expect_identifier() {
        Err(error) => Err(error),
        Ok((member, rest)) => match rest.next() {
            Err(error) => Err(error),
            Ok((next_token, rest)) => Ok(
                ((ExpressionView::MemberAccess(Box::new(expression), member), next_token), rest),
            ),
        },
    }
}

/// Parses what follows the period after `expression`: the name of a member
/// and the next token.
pub fn parse(stream: &mut Stream, expression: Expression) -> (r: Result<
    (Expression, Token),
    ParserError,
>)
    ensures
        parsed(
            r,
            old(stream)@,
            final(stream)@,
            parse_tokens(token_stream(old(stream)@), expression@),
        ),
{
    let member = match expect_identifier(stream) {
        Ok(member) => member,
        Err(error) => {
            return Err(error);
        },
    };
    let next_token = match required_token(stream) {
        Ok(token) => token,
        Err(error) => {
            return Err(error);
        },
    };
    Ok((Expression::MemberAccess(Box::new(expression), member), next_token))
}

/// The typed access to the member `member_name` of `expression`.
pub fn semantic_analysis(
    output_tree: &AnnotatedSyntaxTree,
    scope: &Scope,
    expression: &Expression,
    member_name: &String,
) -> (r: Result<annotated::expression::Expression, SemanticAnalysisError>)
    ensures
        result_model(r) == ExpressionView::MemberAccess(Box::new(expression@), member_name@).analyse(
            output_tree@,
            scope@,
        ),
    decreases expression, 2nat,
{
    let structure = match expression.get_type(output_tree, scope) {
        Ok(structure) => structure,
        Err(error) => {
            return Err(error);
        },
    };
    let member_type = match structure.member_type(member_name.as_str()) {
        Ok(member_type) => member_type,
        Err(error) => {
            return Err(error);
        },
    };
    match expression.semantic_analysis(output_tree, scope) {
        Ok(typed) => Ok(
            annotated::expression::Expression::MemberAccess(
                Box::new(typed),
                member_name.clone(),
                member_type,
            ),
        ),
        Err(error) => Err(error),
    }
}

} // verus!
