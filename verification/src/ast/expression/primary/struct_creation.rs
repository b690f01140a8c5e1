//! Struct creations.

use crate::annotated::{self, AnnotatedSyntaxTree};
use crate::ast::SemanticAnalysisError;
use crate::ast::expression::{
    additive, analyse_initializers, initializer_models, initializer_named, is_extra_initializer,
    positions, Expression, ExpressionView,
};
use crate::ast::scope::Scope;
use crate::lexer::{token_stream, TokenStream};
use crate::model::{first, first_from, result_model};
use crate::parser::{expect, parsed, required_token, Parsed, ParserError, ParserErrorView};
use crate::stream::Stream;
use crate::text::str_eq;
use crate::tokens::{Token, TokenClass, TokenClassView, TokenView};
use crate::types::{member_named, Type};
use vstd::prelude::*;
use vstd::string::*;

verus! {

/// The initializers of a struct creation after the initializers `done`, up
/// to the closing brace: each the name of a member, a colon and a value,
/// separated by commas; a comma may stand before the closing brace. The
/// test on the lengths shows that the definition is well founded: an
/// expression always takes a token.
pub open spec fn initializers(tokens: TokenStream, done: Seq<(Seq<char>, ExpressionView)>) -> Parsed<
    Seq<(Seq<char>, ExpressionView)>,
>
    decreases tokens.tokens.len(), 5nat,
{
    match tokens.next() {
        Err(error) => Err(error),
        Ok((token, rest)) => match token.class {
            TokenClassView::CloseCurlyBrace => Ok((done, rest)),
            TokenClassView::Identifier(name) => match rest.expect(TokenClassView::Colon) {
                Err(error) => Err(error),
                Ok((_, rest)) => match additive::parse_tokens(rest) {
                    Err(error) => Err(error),
                    Ok(((expression, next_token), rest)) => if next_token.class is CloseCurlyBrace {
                        Ok((done.push((name, expression)), rest))
                    } else if next_token.class is Comma {
                        if rest.tokens.len() < tokens.tokens.len() {
                            initializers(rest, done.push((name, expression)))
                        } else {
                            Err(ParserErrorView::UnexpectedEOF)
                        }
                    } else {
                        Err(ParserErrorView::UnexpectedToken(next_token))
                    },
                },
            },
            _ => Err(ParserErrorView::UnexpectedToken(token)),
        },
    }
}

/// The creation of the struct `identifier`, whose opening brace has been
/// read, and the token after its closing brace.
pub open spec fn parse_tokens(tokens: TokenStream, identifier: Seq<char>) -> Parsed<
    (ExpressionView, TokenView),
>
    decreases tokens.tokens.len(), 6nat,
{
    match initializers(tokens, Seq::empty()) {
        Err(error) => Err(error),
        Ok((read, rest)) => match rest.next() {
            Err(error) => Err(error),
            Ok((token, rest)) => Ok(((ExpressionView::StructCreation(identifier, read), token), rest)),
        },
    }
}

/// Parses the initializers of a creation of the struct `identifier` and
/// the token after the creation.
pub fn parse(stream: &mut Stream, identifier: &str) -> (r: Result<(Expression, Token), ParserError>)
    ensures
        parsed(
            r,
            old(stream)@,
            final(stream)@,
            parse_tokens(token_stream(old(stream)@), identifier@),
        ),
    decreases token_stream(old(stream)@).tokens.len(), 6nat,
{
    let mut members: Vec<(String, Expression)> = Vec::new();
    assert(initializer_models(&members) =~= Seq::empty());
    loop
        invariant_except_break
            initializers(token_stream(stream@), initializer_models(&members)) == initializers(
                token_stream(old(stream)@),
                Seq::empty(),
            ),
            token_stream(stream@).tokens.len() <= token_stream(old(stream)@).tokens.len(),
        ensures
            initializers(token_stream(old(stream)@), Seq::empty()) == Ok::<
                (Seq<(Seq<char>, ExpressionView)>, TokenStream),
                ParserErrorView,
            >((initializer_models(&members), token_stream(stream@))),
            token_stream(stream@).tokens.len() < token_stream(old(stream)@).tokens.len(),
        decreases token_stream(stream@).tokens.len(),
    {
        let ghost before = initializer_models(&members);
        let token = match required_token(stream) {
            Ok(token) => token,
            Err(error) => {
                return Err(error);
            },
        };
        let name = match token.class() {
            TokenClass::Identifier(identifier) => identifier.clone(),
            TokenClass::CloseCurlyBrace => {
                break ;
            },
            _ => {
                return Err(ParserError::UnexpectedToken(token));
            },
        };
        match expect(stream, TokenClass::Colon) {
            Ok(()) => {},
            Err(error) => {
                return Err(error);
            },
        }
        let (expression, next_token) = match Expression::parse(stream) {
            Ok(parsed) => parsed,
            Err(error) => {
                return Err(error);
            },
        };
        let ghost read = (name@, expression@);
        members.push((name, expression));
        assert(initializer_models(&members) =~= before.push(read));
        match next_token.class() {
            TokenClass::CloseCurlyBrace => {
                break ;
            },
            TokenClass::Comma => {},
            _ => {
                return Err(ParserError::UnexpectedToken(next_token));
            },
        }
    }
    match required_token(stream) {
        Ok(token) => Ok((Expression::StructCreation(identifier.to_owned(), members), token)),
        Err(error) => Err(error),
    }
}

/// The position of the first initializer that names the member `name`.
fn find_initializer(members: &Vec<(String, Expression)>, name: &str) -> (at: Option<usize>)
    ensures
        match at {
            Some(at) => first(initializer_models(members), initializer_named(name@)) == Some(
                at as int,
            ) && at < members.len(),
            None => first(initializer_models(members), initializer_named(name@)) is None,
        },
{
    let ghost wanted = initializer_named(name@);
    let ghost initializers = initializer_models(members);
    let mut i: usize = 0;
    while i < members.len()
        invariant
            i <= members.len(),
            wanted == initializer_named(name@),
            initializers == initializer_models(members),
            first_from(initializers, wanted, i as int) == first(initializers, wanted),
        decreases members.len() - i,
    {
        if str_eq(members[i].0.as_str(), name) {
            return Some(i);
        }
        i += 1;
    }
    None
}

/// The position of the first member called `name`.
fn find_member(declared: &[(String, Type)], name: &str) -> (at: Option<usize>)
    ensures
        match at {
            Some(at) => first(declared.deep_view(), member_named(name@)) == Some(at as int) && at
                < declared.len(),
            None => first(declared.deep_view(), member_named(name@)) is None,
        },
{
    let ghost wanted = member_named(name@);
    let mut i: usize = 0;
    while i < declared.len()
        invariant
            i <= declared.len(),
            wanted == member_named(name@),
            first_from(declared.deep_view(), wanted, i as int) == first(declared.deep_view(), wanted),
        decreases declared.len() - i,
    {
        assert(declared.deep_view()[i as int] == declared[i as int].deep_view());
        if str_eq(declared[i].0.as_str(), name) {
            return Some(i);
        }
        i += 1;
    }
    None
}

/// The position of the first initializer that initializes nothing.
fn find_extra_initializer(members: &Vec<(String, Expression)>, declared: &[(String, Type)]) -> (at:
    Option<usize>)
    ensures
        match at {
            Some(at) => first(
                positions(initializer_models(members).len()),
                is_extra_initializer(initializer_models(members), declared.deep_view()),
            ) == Some(at as int) && at < members.len(),
            None => first(
                positions(initializer_models(members).len()),
                is_extra_initializer(initializer_models(members), declared.deep_view()),
            ) is None,
        },
{
    let ghost initializers = initializer_models(members);
    let ghost extra = is_extra_initializer(initializers, declared.deep_view());
    let ghost places = positions(initializers.len());
    let mut i: usize = 0;
    while i < members.len()
        invariant
            i <= members.len(),
            initializers == initializer_models(members),
            extra == is_extra_initializer(initializers, declared.deep_view()),
            places == positions(initializers.len()),
            first_from(places, extra, i as int) == first(places, extra),
        decreases members.len() - i,
    {
        let unknown = find_member(declared, members[i].0.as_str()).is_none();
        let earlier = match find_initializer(members, members[i].0.as_str()) {
            Some(at) => at != i,
            None => true,
        };
        assert(places[i as int] == i);
        if unknown || earlier {
            return Some(i);
        }
        i += 1;
    }
    None
}

/// The typed creation of the struct `name` from the initializers `members`.
#[verifier::loop_isolation(false)]
pub fn semantic_analysis(
    output_tree: &AnnotatedSyntaxTree,
    scope: &Scope,
    name: &String,
    members: &Vec<(String, Expression)>,
) -> (r: Result<annotated::expression::Expression, SemanticAnalysisError>)
    ensures
        result_model(r) == ExpressionView::StructCreation(name@, initializer_models(members)).analyse(
            output_tree@,
            scope@,
        ),
    decreases members, 0nat,
{
    let struct_type = match output_tree.get_type(name.as_str()) {
        Ok(struct_type) => struct_type,
        Err(error) => {
            return Err(error);
        },
    };
    let structure = match output_tree.get_structure(name.as_str()) {
        Ok(structure) => structure,
        Err(error) => {
            return Err(error);
        },
    };
    let declared = structure.members();
    let ghost initializers = initializer_models(members);
    let mut s_members: Vec<annotated::expression::Expression> = Vec::new();
    let mut i: usize = 0;
    assert(s_members.deep_view() =~= Seq::empty());
    while i < declared.len()
        invariant
            i <= declared.len(),
            declared.deep_view() == structure@.members,
            initializers == initializer_models(members),
            analyse_initializers(
                initializers,
                name@,
                structure@.members,
                output_tree@,
                scope@,
                i as int,
                s_members.deep_view(),
            ) == analyse_initializers(
                initializers,
                name@,
                structure@.members,
                output_tree@,
                scope@,
                0,
                Seq::empty(),
            ),
        decreases declared.len() - i,
    {
        assert(declared.deep_view()[i as int] == declared[i as int].deep_view());
        let index = match find_initializer(members, declared[i].0.as_str()) {
            Some(index) => index,
            None => {
                return Err(
                    SemanticAnalysisError::MissingStructureMember(
                        name.clone(),
                        declared[i].0.clone(),
                    ),
                );
            },
        };
        assert(initializers[index as int] == (members[index as int].0@, members[index as int].1@));
        let e_type = match members[index].1.get_type(output_tree, scope) {
            Ok(e_type) => e_type,
            Err(error) => {
                return Err(error);
            },
        };
        if !(declared[i].1 == e_type) {
            return Err(
                SemanticAnalysisError::InvalidMemberType(
                    name.clone(),
                    declared[i].0.clone(),
                    e_type.to_string(),
                    declared[i].1.to_string(),
                ),
            );
        }
        let ghost before = s_members.deep_view();
        match members[index].1.semantic_analysis(output_tree, scope) {
            Ok(typed) => {
                s_members.push(typed);
                assert(s_members.deep_view() =~= before.push(typed@));
            },
            Err(error) => {
                return Err(error);
            },
        }
        i += 1;
    }
    match find_extra_initializer(members, declared) {
        Some(extra) => {
            return Err(
                SemanticAnalysisError::MissingStructureMember(name.clone(), members[extra].0.clone()),
            );
        },
        None => {},
    }
    let creation = annotated::expression::Expression::StructCreation(
        name.clone(),
        s_members,
        struct_type,
    );
    assert(annotated::expression::models(&s_members) =~= s_members.deep_view());
    Ok(creation)
}

} // verus!
