//! Type alias declarations.

use crate::annotated::{AnnotatedSyntaxTree, TreeView};
use crate::ast::{SemanticAnalysisError, SemanticAnalysisErrorView};
use crate::ast::declaration::{Declaration, DeclarationView};
use crate::lexer::{token_stream, TokenStream};
use crate::model::result_model;
use crate::parser::{expect, expect_identifier, parsed, Parsed, ParserError};
use crate::stream::Stream;
use crate::tokens::{TokenClass, TokenClassView};
use crate::types::{Type, TypeView};
use vstd::prelude::*;
use vstd::string::*;

verus! {

/// A type alias declaration after `type`: a name, `=`, the name of a type
/// and a semicolon.
pub open spec fn parse_tokens(tokens: TokenStream) -> Parsed<DeclarationView> {
    match tokens.expect_identifier() {
        Err(error) => Err(error),
        Ok((name, rest)) => match rest.expect(TokenClassView::Equal) {
            Err(error) => Err(error),
            Ok((_, rest)) => match rest.expect_identifier() {
                Err(error) => Err(error),
                Ok((named_type, rest)) => match rest.expect(TokenClassView::SemiColon) {
                    Err(error) => Err(error),
                    Ok((_, rest)) => Ok((DeclarationView::TypeAlias(name, named_type), rest)),
                },
            },
        },
    }
}

/// Parses a type alias declaration after `type`.
pub fn parse_type_alias(stream: &mut Stream) -> (r: Result<Declaration, ParserError>)
    ensures
        parsed(r, old(stream)@, final(stream)@, parse_tokens(token_stream(old(stream)@))),
{
    let name = match expect_identifier(stream) {
        Ok(name) => name,
        Err(error) => {
            return Err(error);
        },
    };
    match expect(stream, TokenClass::Equal) {
        Ok(()) => {},
        Err(error) => {
            return Err(error);
        },
    }
    let named_type = match expect_identifier(stream) {
        Ok(named_type) => named_type,
        Err(error) => {
            return Err(error);
        },
    };
    match expect(stream, TokenClass::SemiColon) {
        Ok(()) => {},
        Err(error) => {
            return Err(error);
        },
    }
    Ok(Declaration::TypeAlias(name, named_type))
}

/// The tree with the alias `name` for the type called `named_type`.
pub open spec fn analyse(tree: TreeView, name: Seq<char>, named_type: Seq<char>) -> Result<
    TreeView,
    SemanticAnalysisErrorView,
> {
    match tree.type_from_name(named_type) {
        Err(error) => Err(error),
        Ok(aliased) => tree.push_type_alias(name, TypeView::Alias(Box::new(aliased))),
    }
}

/// Adds the alias `name` for the type called `named_type` to `output_tree`.
pub fn semantic_analysis(output_tree: &mut AnnotatedSyntaxTree, name: String, named_type: String) -> (r:
    Result<(), SemanticAnalysisError>)
    requires
        old(output_tree)@.well_formed(),
    ensures
        match analyse(old(output_tree)@, name@, named_type@) {
            Ok(tree) => r is Ok && final(output_tree)@ == tree,
            Err(error) => result_model(r) == Err::<(), SemanticAnalysisErrorView>(error)
                && final(output_tree)@ == old(output_tree)@,
        },
        final(output_tree)@.well_formed(),
{
    match Type::from_name(named_type.as_str(), output_tree) {
        Ok(aliased) => output_tree.push_type_alias(name, Type::alias(aliased)),
        Err(error) => Err(error),
    }
}

} // verus!
