//! Constant declarations.

use crate::annotated::{self, AnnotatedSyntaxTree, TreeView};
use crate::annotated::constant::ConstantView;
use crate::ast::{SemanticAnalysisError, SemanticAnalysisErrorView};
use crate::ast::declaration::{Declaration, DeclarationView};
use crate::ast::expression::{Expression, ExpressionView};
use crate::lexer::{token_stream, TokenStream};
use crate::model::result_model;
use crate::parser::{expect, expect_identifier, parsed, Parsed, ParserError, ParserErrorView};
use crate::stream::Stream;
use crate::tokens::{TokenClass, TokenClassView};
use vstd::prelude::*;
use vstd::string::*;

verus! {

/// A constant declaration after `const`: a name, `=`, an expression and a
/// semicolon.
pub open spec fn parse_tokens(tokens: TokenStream) -> Parsed<DeclarationView> {
    match tokens.expect_identifier() {
        Err(error) => Err(error),
        Ok((name, rest)) => match rest.expect(TokenClassView::Equal) {
            Err(error) => Err(error),
            Ok((_, rest)) => match crate::ast::expression::additive::parse_tokens(rest) {
                Err(error) => Err(error),
                Ok(((expression, next_token), rest)) => if next_token.class is SemiColon {
                    Ok((DeclarationView::Constant(name, expression), rest))
                } else {
                    Err(ParserErrorView::UnexpectedToken(next_token))
                },
            },
        },
    }
}

/// Parses a constant declaration after `const`.
pub fn parse_constant(stream: &mut Stream) -> (r: Result<Declaration, ParserError>)
    ensures
        parsed(r, old(stream)@, final(stream)@, parse_tokens(token_stream(old(stream)@))),
{
    let name = match expect_identifier(stream) {
        Ok(name) => name,
        Err(error) => {
            return Err(error);
        },
    };
    match expect(stream, TokenClass::Equal) {
        Ok(()) => {},
        Err(error) => {
            return Err(error);
        },
    }
    let (expression, next_token) = match Expression::parse(stream) {
        Ok(parsed) => parsed,
        Err(error) => {
            return Err(error);
        },
    };
    match next_token.class() {
        TokenClass::SemiColon => Ok(Declaration::Constant(name, expression)),
        _ => Err(ParserError::UnexpectedToken(next_token)),
    }
}

/// The constant `name` with the value `expression`, typed in the global
/// scope.
pub open spec fn analyse(tree: TreeView, name: Seq<char>, expression: ExpressionView) -> Result<
    ConstantView,
    SemanticAnalysisErrorView,
> {
    match expression.get_type(tree, tree.global_scope) {
        Err(error) => Err(error),
        Ok(constant_type) => match expression.analyse(tree, tree.global_scope) {
            Err(error) => Err(error),
            Ok(typed) => Ok(ConstantView { name, expression: typed, constant_type }),
        },
    }
}

/// The typed constant `name`.
pub fn semantic_analysis(output_tree: &AnnotatedSyntaxTree, name: String, expression: &Expression) -> (r:
    Result<annotated::constant::Constant, SemanticAnalysisError>)
    ensures
        result_model(r) == analyse(output_tree@, name@, expression@),
{
    let constant_type = match expression.get_type(output_tree, output_tree.global_scope()) {
        Ok(constant_type) => constant_type,
        Err(error) => {
            return Err(error);
        },
    };
    match expression.semantic_analysis(output_tree, output_tree.global_scope()) {
        Ok(typed) => Ok(annotated::constant::Constant::new(name, typed, constant_type)),
        Err(error) => Err(error),
    }
}

} // verus!
