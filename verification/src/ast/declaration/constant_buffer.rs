//! Constant buffer declarations.

use crate::annotated::{self, AnnotatedSyntaxTree, TreeView};
use crate::annotated::constant_buffer::ConstantBufferView;
use crate::ast::{SemanticAnalysisError, SemanticAnalysisErrorView};
use crate::ast::declaration::{Declaration, DeclarationView};
use crate::lexer::{token_stream, TokenStream};
use crate::model::result_model;
use crate::parser::{expect, expect_identifier, expect_integer, parsed, Parsed, ParserError};
use crate::stream::Stream;
use crate::tokens::{TokenClass, TokenClassView};
use crate::types::Type;
use vstd::prelude::*;
use vstd::string::*;

verus! {

/// A constant buffer declaration after `cbuffer`: a name, a colon, the name
/// of a type, a colon, a slot and a semicolon.
pub open spec fn parse_tokens(tokens: TokenStream) -> Parsed<DeclarationView> {
    match tokens.expect_identifier() {
        Err(error) => Err(error),
        Ok((name, rest)) => match rest.expect(TokenClassView::Colon) {
            Err(error) => Err(error),
            Ok((_, rest)) => match rest.expect_identifier() {
                Err(error) => Err(error),
                Ok((named_type, rest)) => match rest.expect(TokenClassView::Colon) {
                    Err(error) => Err(error),
                    Ok((_, rest)) => match rest.expect_integer() {
                        Err(error) => Err(error),
                        Ok((slot, rest)) => match rest.expect(TokenClassView::SemiColon) {
                            Err(error) => Err(error),
                            Ok((_, rest)) => Ok(
                                (DeclarationView::ConstantBuffer(name, slot, named_type), rest),
                            ),
                        },
                    },
                },
            },
        },
    }
}

/// Parses a constant buffer declaration after `cbuffer`.
pub fn parse_constant_buffer(stream: &mut Stream) -> (r: Result<Declaration, ParserError>)
    ensures
        parsed(r, old(stream)@, final(stream)@, parse_tokens(token_stream(old(stream)@))),
{
    let name = match expect_identifier(stream) {
        Ok(name) => name,
        Err(error) => {
            return Err(error);
        },
    };
    match expect(stream, TokenClass::Colon) {
        Ok(()) => {},
        Err(error) => {
            return Err(error);
        },
    }
    let named_type = match expect_identifier(stream) {
        Ok(named_type) => named_type,
        Err(error) => {
            return Err(error);
        },
    };
    match expect(stream, TokenClass::Colon) {
        Ok(()) => {},
        Err(error) => {
            return Err(error);
        },
    }
    let slot = match expect_integer(stream) {
        Ok(slot) => slot,
        Err(error) => {
            return Err(error);
        },
    };
    match expect(stream, TokenClass::SemiColon) {
        Ok(()) => {},
        Err(error) => {
            return Err(error);
        },
    }
    Ok(Declaration::ConstantBuffer(name, slot, named_type))
}

/// The constant buffer `name` in slot `slot`, of the type called
/// `named_type`.
pub open spec fn analyse(tree: TreeView, name: Seq<char>, slot: usize, named_type: Seq<char>) -> Result<
    ConstantBufferView,
    SemanticAnalysisErrorView,
> {
    match tree.type_from_name(named_type) {
        Err(error) => Err(error),
        Ok(cb_type) => ConstantBufferView::new(name, slot, cb_type),
    }
}

/// The typed constant buffer `name`.
pub fn semantic_analysis(
    output_tree: &AnnotatedSyntaxTree,
    name: String,
    slot: usize,
    named_type: String,
) -> (r: Result<annotated::constant_buffer::ConstantBuffer, SemanticAnalysisError>)
    ensures
        result_model(r) == analyse(output_tree@, name@, slot, named_type@),
{
    match Type::from_name(named_type.as_str(), output_tree) {
        Ok(cb_type) => annotated::constant_buffer::ConstantBuffer::new(name, slot, cb_type),
        Err(error) => Err(error),
    }
}

} // verus!
