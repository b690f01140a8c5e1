//! Texture declarations.

use crate::annotated::{self, AnnotatedSyntaxTree, TreeView};
use crate::annotated::texture::TextureView;
use crate::ast::{SemanticAnalysisError, SemanticAnalysisErrorView};
use crate::ast::declaration::{Declaration, DeclarationView};
use crate::lexer::{token_stream, TokenStream};
use crate::model::result_model;
use crate::parser::{
    expect, expect_identifier, expect_integer, parsed, required_token, Parsed, ParserError,
    ParserErrorView,
};
use crate::stream::Stream;
use crate::tokens::{TokenClass, TokenClassView};
use crate::types::Type;
use vstd::prelude::*;
use vstd::string::*;

verus! {

/// The name of a texture and the name of the type of its elements: a name
/// alone, for a texture of `float4`, or the type between angle brackets and
/// the name.
pub open spec fn named_texture(tokens: TokenStream) -> Parsed<(Seq<char>, Seq<char>)> {
    match tokens.next() {
        Err(error) => Err(error),
        Ok((token, rest)) => match token.class {
            TokenClassView::Identifier(name) => Ok(((name, "float4"@), rest)),
            TokenClassView::LeftAngleBracket => match rest.expect_identifier() {
                Err(error) => Err(error),
                Ok((texture_type, rest)) => match rest.expect(TokenClassView::RightAngleBracket) {
                    Err(error) => Err(error),
                    Ok((_, rest)) => match rest.expect_identifier() {
                        Err(error) => Err(error),
                        Ok((name, rest)) => Ok(((name, texture_type), rest)),
                    },
                },
            },
            _ => Err(ParserErrorView::UnexpectedToken(token)),
        },
    }
}

/// A texture declaration after `texture`: the name, with the type of the
/// elements before it or not, a colon, a slot and a semicolon.
pub open spec fn parse_tokens(tokens: TokenStream) -> Parsed<DeclarationView> {
    match named_texture(tokens) {
        Err(error) => Err(error),
        Ok(((name, texture_type), rest)) => match rest.expect(TokenClassView::Colon) {
            Err(error) => Err(error),
            Ok((_, rest)) => match rest.expect_integer() {
                Err(error) => Err(error),
                Ok((slot, rest)) => match rest.expect(TokenClassView::SemiColon) {
                    Err(error) => Err(error),
                    Ok((_, rest)) => Ok((DeclarationView::Texture(name, slot, texture_type), rest)),
                },
            },
        },
    }
}

/// Parses the name of a texture and the name of the type of its elements.
pub fn parse_named_texture(stream: &mut Stream) -> (r: Result<(String, String), ParserError>)
    ensures
        parsed(r, old(stream)@, final(stream)@, named_texture(token_stream(old(stream)@))),
{
    let token = match required_token(stream) {
        Ok(token) => token,
        Err(error) => {
            return Err(error);
        },
    };
    match token.class() {
        TokenClass::Identifier(identifier) => Ok((identifier.clone(), "float4".to_owned())),
        TokenClass::LeftAngleBracket => {
            let texture_type = match expect_identifier(stream) {
                Ok(texture_type) => texture_type,
                Err(error) => {
                    return Err(error);
                },
            };
            match expect(stream, TokenClass::RightAngleBracket) {
                Ok(()) => {},
                Err(error) => {
                    return Err(error);
                },
            }
            match expect_identifier(stream) {
                Ok(name) => Ok((name, texture_type)),
                Err(error) => Err(error),
            }
        },
        _ => Err(ParserError::UnexpectedToken(token)),
    }
}

/// Parses a texture declaration after `texture`.
pub fn parse_texture(stream: &mut Stream) -> (r: Result<Declaration, ParserError>)
    ensures
        parsed(r, old(stream)@, final(stream)@, parse_tokens(token_stream(old(stream)@))),
{
    let (name, texture_type) = match parse_named_texture(stream) {
        Ok(parsed) => parsed,
        Err(error) => {
            return Err(error);
        },
    };
    match expect(stream, TokenClass::Colon) {
        Ok(()) => {},
        Err(error) => {
            return Err(error);
        },
    }
    let slot = match expect_integer(stream) {
        Ok(slot) => slot,
        Err(error) => {
            return Err(error);
        },
    };
    match expect(stream, TokenClass::SemiColon) {
        Ok(()) => {},
        Err(error) => {
            return Err(error);
        },
    }
    Ok(Declaration::Texture(name, slot, texture_type))
}

/// The texture `name` in slot `slot` with elements of the type called
/// `texture_type`, which must be a float, a float vector or an unsigned
/// integer.
pub open spec fn analyse(name: Seq<char>, slot: usize, texture_type: Seq<char>, tree: TreeView) -> Result<
    TextureView,
    SemanticAnalysisErrorView,
> {
    match tree.type_from_name(texture_type) {
        Err(error) => Err(error),
        Ok(element_type) => if !element_type.is_float_vector() && !element_type.is_uint()
            && !element_type.is_float() {
            Err(SemanticAnalysisErrorView::InvalidTextureType(element_type.display()))
        } else {
            TextureView::new(name, slot, element_type)
        },
    }
}

/// A texture that is analysed without error has a slot below 8 and holds
/// floats, float vectors or unsigned integers.
pub proof fn analysed_texture_is_in_order(
    name: Seq<char>,
    slot: usize,
    texture_type: Seq<char>,
    tree: TreeView,
)
    requires
        analyse(name, slot, texture_type, tree) is Ok,
    ensures
        analyse(name, slot, texture_type, tree)->Ok_0.name == name,
        analyse(name, slot, texture_type, tree)->Ok_0.slot == slot,
        analyse(name, slot, texture_type, tree)->Ok_0.in_order(),
{
}

/// The typed texture `name`.
pub fn semantic_analysis(
    name: String,
    slot: usize,
    texture_type: String,
    output_tree: &AnnotatedSyntaxTree,
) -> (r: Result<annotated::texture::Texture, SemanticAnalysisError>)
    ensures
        result_model(r) == analyse(name@, slot, texture_type@, output_tree@),
{
    let texture_type = match Type::from_name(texture_type.as_str(), output_tree) {
        Ok(texture_type) => texture_type,
        Err(error) => {
            return Err(error);
        },
    };
    if !texture_type.is_float_vector() && !texture_type.is_uint() && !texture_type.is_float() {
        return Err(SemanticAnalysisError::InvalidTextureType(texture_type.to_string()));
    }
    annotated::texture::Texture::new(name, slot, texture_type)
}

} // verus!
