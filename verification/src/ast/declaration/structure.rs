//! Struct declarations.

use crate::annotated::{self, AnnotatedSyntaxTree, TreeView};
use crate::annotated::structure::StructView;
use crate::ast::{SemanticAnalysisError, SemanticAnalysisErrorView};
use crate::ast::declaration::{Declaration, DeclarationView};
use crate::lexer::{token_stream, TokenStream};
use crate::model::{first, first_from, first_from_found, result_model};
use crate::parser::{expect, expect_identifier, parsed, required_token, Parsed, ParserError, ParserErrorView};
use crate::stream::Stream;
use crate::text::{is_reserved_name, reserved_name, str_eq};
use crate::tokens::{TokenClass, TokenClassView};
use crate::types::{member_named, Type, TypeView};
use vstd::prelude::*;
use vstd::string::*;

verus! {

/// What follows the type of a member: its semantic, if it has one, and
/// whether the struct goes on after the member. A closing brace ends the
/// struct, a comma ends the member, and a colon announces the semantic,
/// after which a closing brace or a comma must stand.
pub open spec fn member_end(tokens: TokenStream) -> Parsed<(Option<Seq<char>>, bool)> {
    match tokens.next() {
        Err(error) => Err(error),
        Ok((token, rest)) => match token.class {
            TokenClassView::CloseCurlyBrace => Ok(((None, false), rest)),
            TokenClassView::Comma => Ok(((None, true), rest)),
            TokenClassView::Colon => match rest.expect_identifier() {
                Err(error) => Err(error),
                Ok((semantic, rest)) => match rest.next() {
                    Err(error) => Err(error),
                    Ok((token, rest)) => match token.class {
                        TokenClassView::CloseCurlyBrace => Ok(((Some(semantic), false), rest)),
                        TokenClassView::Comma => Ok(((Some(semantic), true), rest)),
                        _ => Err(ParserErrorView::UnexpectedToken(token)),
                    },
                },
            },
            _ => Err(ParserErrorView::UnexpectedToken(token)),
        },
    }
}

/// The members of a struct after the members `done`, up to the closing
/// brace: each a name, a colon, the name of a type and, after another
/// colon, a semantic; the members are separated by commas, and a comma may
/// stand before the closing brace.
pub open spec fn members(tokens: TokenStream, done: Seq<(Seq<char>, Seq<char>, Option<Seq<char>>)>) -> Parsed<
    Seq<(Seq<char>, Seq<char>, Option<Seq<char>>)>,
>
    decreases tokens.tokens.len(),
{
    match tokens.next() {
        Err(error) => Err(error),
        Ok((token, rest)) => match token.class {
            TokenClassView::CloseCurlyBrace => Ok((done, rest)),
            TokenClassView::Identifier(name) => match rest.expect(TokenClassView::Colon) {
                Err(error) => Err(error),
                Ok((_, rest)) => match rest.expect_identifier() {
                    Err(error) => Err(error),
                    Ok((named_type, rest)) => match member_end(rest) {
                        Err(error) => Err(error),
                        Ok(((semantic, more), rest)) => if more {
                            members(rest, done.push((name, named_type, semantic)))
                        } else {
                            Ok((done.push((name, named_type, semantic)), rest))
                        },
                    },
                },
            },
            _ => Err(ParserErrorView::UnexpectedToken(token)),
        },
    }
}

/// The members of a struct and its closing brace take a token at least.
pub proof fn members_consume(tokens: TokenStream, done: Seq<(Seq<char>, Seq<char>, Option<Seq<char>>)>)
    ensures
        members(tokens, done) matches Ok((_, rest)) ==> rest.tokens.len() < tokens.tokens.len(),
    decreases tokens.tokens.len(),
{
    match tokens.next() {
        Err(_) => {},
        Ok((token, rest)) => match token.class {
            TokenClassView::Identifier(name) => match rest.expect(TokenClassView::Colon) {
                Err(_) => {},
                Ok((_, rest)) => match rest.expect_identifier() {
                    Err(_) => {},
                    Ok((named_type, rest)) => match member_end(rest) {
                        Err(_) => {},
                        Ok(((semantic, more), rest)) => if more {
                            members_consume(rest, done.push((name, named_type, semantic)));
                        },
                    },
                },
            },
            _ => {},
        },
    }
}

/// The struct `name` with the members that were read.
pub open spec fn struct_of(
    name: Seq<char>,
    read: Parsed<Seq<(Seq<char>, Seq<char>, Option<Seq<char>>)>>,
) -> Parsed<DeclarationView> {
    match read {
        Err(error) => Err(error),
        Ok((read, rest)) => Ok((DeclarationView::Struct(name, read), rest)),
    }
}

/// A struct declaration after `struct`: a name and the members between
/// braces.
pub open spec fn parse_tokens(tokens: TokenStream) -> Parsed<DeclarationView> {
    match tokens.expect_identifier() {
        Err(error) => Err(error),
        Ok((name, rest)) => match rest.expect(TokenClassView::OpenCurlyBrace) {
            Err(error) => Err(error),
            Ok((_, rest)) => struct_of(name, members(rest, Seq::empty())),
        },
    }
}

/// Parses what follows the type of a member.
pub fn parse_member_end(stream: &mut Stream) -> (r: Result<(Option<String>, bool), ParserError>)
    ensures
        parsed(r, old(stream)@, final(stream)@, member_end(token_stream(old(stream)@))),
{
    let token = match required_token(stream) {
        Ok(token) => token,
        Err(error) => {
            return Err(error);
        },
    };
    match token.class() {
        TokenClass::CloseCurlyBrace => Ok((None, false)),
        TokenClass::Comma => Ok((None, true)),
        TokenClass::Colon => {
            let semantic = match expect_identifier(stream) {
                Ok(semantic) => semantic,
                Err(error) => {
                    return Err(error);
                },
            };
            let token = match required_token(stream) {
                Ok(token) => token,
                Err(error) => {
                    return Err(error);
                },
            };
            match token.class() {
                TokenClass::CloseCurlyBrace => Ok((Some(semantic), false)),
                TokenClass::Comma => Ok((Some(semantic), true)),
                _ => Err(ParserError::UnexpectedToken(token)),
            }
        },
        _ => Err(ParserError::UnexpectedToken(token)),
    }
}

/// Parses a struct declaration after `struct`.
pub fn parse_struct(stream: &mut Stream) -> (r: Result<Declaration, ParserError>)
    ensures
        parsed(r, old(stream)@, final(stream)@, parse_tokens(token_stream(old(stream)@))),
{
    let name = match expect_identifier(stream) {
        Ok(name) => name,
        Err(error) => {
            return Err(error);
        },
    };
    match expect(stream, TokenClass::OpenCurlyBrace) {
        Ok(()) => {},
        Err(error) => {
            return Err(error);
        },
    }
    let mut read: Vec<(String, String, Option<String>)> = Vec::new();
    assert(read.deep_view() =~= Seq::empty());
    loop
        invariant_except_break
            struct_of(name@, members(token_stream(stream@), read.deep_view())) == parse_tokens(
                token_stream(old(stream)@),
            ),
            token_stream(stream@).tokens.len() < token_stream(old(stream)@).tokens.len(),
        ensures
            parse_tokens(token_stream(old(stream)@)) == Ok::<
                (DeclarationView, TokenStream),
                ParserErrorView,
            >((DeclarationView::Struct(name@, read.deep_view()), token_stream(stream@))),
            token_stream(stream@).tokens.len() < token_stream(old(stream)@).tokens.len(),
        decreases token_stream(stream@).tokens.len(),
    {
        let ghost before = read.deep_view();
        let token = match required_token(stream) {
            Ok(token) => token,
            Err(error) => {
                return Err(error);
            },
        };
        let name = match token.class() {
            TokenClass::Identifier(identifier) => identifier.clone(),
            TokenClass::CloseCurlyBrace => {
                break ;
            },
            _ => {
                return Err(ParserError::UnexpectedToken(token));
            },
        };
        match expect(stream, TokenClass::Colon) {
            Ok(()) => {},
            Err(error) => {
                return Err(error);
            },
        }
        let named_type = match expect_identifier(stream) {
            Ok(named_type) => named_type,
            Err(error) => {
                return Err(error);
            },
        };
        let (semantic, more) = match parse_member_end(stream) {
            Ok(parsed) => parsed,
            Err(error) => {
                return Err(error);
            },
        };
        let ghost member = (name@, named_type@, semantic.deep_view());
        read.push((name, named_type, semantic));
        assert(read.deep_view() =~= before.push(member));
        if !more {
            break ;
        }
    }
    Ok(Declaration::Struct(name, read))
}

/// The test for a declared member called `name`.
pub open spec fn declared_member_named(name: Seq<char>) -> spec_fn(
    (Seq<char>, Seq<char>, Option<Seq<char>>),
) -> bool {
    |m: (Seq<char>, Seq<char>, Option<Seq<char>>)| m.0 == name
}

/// The typed members and the semantics of the struct `name` from the member
/// at position `at` on, after the typed members `done` and their
/// `semantics`. A member may not bear a reserved name nor the name of a
/// later member; its type must be known; and either every member has a
/// semantic or none has.
pub open spec fn analyse_members(
    tree: TreeView,
    name: Seq<char>,
    members: Seq<(Seq<char>, Seq<char>, Option<Seq<char>>)>,
    at: int,
    done: Seq<(Seq<char>, TypeView)>,
    semantics: Option<Seq<Seq<char>>>,
) -> Result<StructView, SemanticAnalysisErrorView>
    decreases members.len() - at,
{
    if at < 0 || at >= members.len() {
        Ok(StructView { name, members: done, semantics })
    } else if is_reserved_name(members[at].0) {
        Err(SemanticAnalysisErrorView::InvalidVariableName(members[at].0))
    } else if first_from(members, declared_member_named(members[at].0), at + 1) is Some {
        Err(SemanticAnalysisErrorView::MultipleDefinition(name))
    } else {
        match tree.type_from_name(members[at].1) {
            Err(error) => Err(error),
            Ok(member_type) => match members[at].2 {
                Some(semantic) => if at > 0 && semantics is None {
                    Err(SemanticAnalysisErrorView::AllFieldsNeedSemantics(name))
                } else {
                    analyse_members(
                        tree,
                        name,
                        members,
                        at + 1,
                        done.push((members[at].0, member_type)),
                        Some(
                            match semantics {
                                Some(semantics) => semantics.push(semantic),
                                None => seq![semantic],
                            },
                        ),
                    )
                },
                None => if semantics is Some {
                    Err(SemanticAnalysisErrorView::AllFieldsNeedSemantics(name))
                } else {
                    analyse_members(
                        tree,
                        name,
                        members,
                        at + 1,
                        done.push((members[at].0, member_type)),
                        semantics,
                    )
                },
            },
        }
    }
}

/// The typed struct `name`.
pub open spec fn analyse(
    tree: TreeView,
    name: Seq<char>,
    members: Seq<(Seq<char>, Seq<char>, Option<Seq<char>>)>,
) -> Result<StructView, SemanticAnalysisErrorView> {
    analyse_members(tree, name, members, 0, Seq::empty(), None)
}

/// Whether the first `count` members of a declared struct are in order, and
/// `done` and `semantics` are what their analysis gives: no member has a
/// reserved name or the name of a later member, the typed members bear the
/// declared names, and the semantics are those of all the members or there
/// are none.
pub open spec fn members_in_order(
    members: Seq<(Seq<char>, Seq<char>, Option<Seq<char>>)>,
    count: int,
    done: Seq<(Seq<char>, TypeView)>,
    semantics: Option<Seq<Seq<char>>>,
) -> bool {
    &&& 0 <= count <= members.len()
    &&& done.len() == count
    &&& forall|k: int|
        0 <= k < count ==> {
            &&& (#[trigger] done[k]).0 == members[k].0
            &&& !is_reserved_name(members[k].0)
            &&& first_from(members, declared_member_named(members[k].0), k + 1) is None
        }
    &&& match semantics {
        Some(semantics) => semantics.len() == count && count > 0 && forall|k: int|
            0 <= k < count ==> (#[trigger] members[k]).2 == Some(semantics[k]),
        None => forall|k: int| 0 <= k < count ==> (#[trigger] members[k]).2 is None,
    }
}

/// The analysis of the members of a struct keeps them in order.
pub proof fn analysed_members_are_in_order(
    tree: TreeView,
    name: Seq<char>,
    members: Seq<(Seq<char>, Seq<char>, Option<Seq<char>>)>,
    at: int,
    done: Seq<(Seq<char>, TypeView)>,
    semantics: Option<Seq<Seq<char>>>,
)
    requires
        members_in_order(members, at, done, semantics),
        analyse_members(tree, name, members, at, done, semantics) is Ok,
    ensures
        ({
            let analysed = analyse_members(tree, name, members, at, done, semantics)->Ok_0;
            analysed.name == name && members_in_order(
                members,
                members.len() as int,
                analysed.members,
                analysed.semantics,
            )
        }),
    decreases members.len() - at,
{
    if at < members.len() {
        let member_type = tree.type_from_name(members[at].1)->Ok_0;
        let typed = done.push((members[at].0, member_type));
        let collected = match members[at].2 {
            Some(semantic) => Some(
                match semantics {
                    Some(semantics) => semantics.push(semantic),
                    None => seq![semantic],
                },
            ),
            None => semantics,
        };
        assert(members_in_order(members, at + 1, typed, collected)) by {
            assert forall|k: int| 0 <= k < at + 1 implies {
                &&& (#[trigger] typed[k]).0 == members[k].0
                &&& !is_reserved_name(members[k].0)
                &&& first_from(members, declared_member_named(members[k].0), k + 1) is None
            } by {
                if k < at {
                    assert(typed[k] == done[k]);
                }
            }
        }
        analysed_members_are_in_order(tree, name, members, at + 1, typed, collected);
    }
}

/// A struct that is analysed without error bears the name it was declared
/// with; its members bear the declared names, none of them reserved and no
/// two of them the same; and either every member has its semantic or the
/// struct has no semantics.
pub proof fn analysed_struct_is_in_order(
    tree: TreeView,
    name: Seq<char>,
    members: Seq<(Seq<char>, Seq<char>, Option<Seq<char>>)>,
)
    requires
        analyse(tree, name, members) is Ok,
    ensures
        analyse(tree, name, members)->Ok_0.name == name,
        members_in_order(
            members,
            members.len() as int,
            analyse(tree, name, members)->Ok_0.members,
            analyse(tree, name, members)->Ok_0.semantics,
        ),
{
    analysed_members_are_in_order(tree, name, members, 0, Seq::empty(), None);
}

/// A struct that is analysed without error is in order.
pub proof fn analysed_struct_declares_each_member_once(
    tree: TreeView,
    name: Seq<char>,
    members: Seq<(Seq<char>, Seq<char>, Option<Seq<char>>)>,
)
    requires
        analyse(tree, name, members) is Ok,
    ensures
        analyse(tree, name, members)->Ok_0.in_order(),
{
    analysed_struct_is_in_order(tree, name, members);
    let analysed = analyse(tree, name, members)->Ok_0;
    assert forall|i: int| 0 <= i < analysed.members.len() implies first(
        analysed.members,
        member_named((#[trigger] analysed.members[i]).0),
    ) == Some(i) && !is_reserved_name(analysed.members[i].0) by {
        let wanted = member_named(analysed.members[i].0);
        first_from_found(analysed.members, wanted, 0);
        assert(wanted(analysed.members[i]));
        let found = first(analysed.members, wanted)->0;
        if found < i {
            // An earlier member of this name would have a later member of
            // its name: this one.
            first_from_found(members, declared_member_named(members[found].0), found + 1);
            assert(analysed.members[found].0 == members[found].0);
            assert(declared_member_named(members[found].0)(members[i]));
        }
    }
}

/// Whether a member after position `at` bears the name of the member at
/// that position.
fn repeated_later(members: &Vec<(String, String, Option<String>)>, at: usize) -> (r: bool)
    requires
        at < members.len(),
    ensures
        r == (first_from(
            members.deep_view(),
            declared_member_named(members.deep_view()[at as int].0),
            at + 1,
        ) is Some),
{
    let ghost wanted = declared_member_named(members.deep_view()[at as int].0);
    assert(members.deep_view()[at as int] == members[at as int].deep_view());
    let mut j: usize = at + 1;
    while j < members.len()
        invariant
            at < j <= members.len(),
            wanted == declared_member_named(members.deep_view()[at as int].0),
            members.deep_view()[at as int].0 == members[at as int].0@,
            first_from(members.deep_view(), wanted, j as int) == first_from(
                members.deep_view(),
                wanted,
                at + 1,
            ),
        decreases members.len() - j,
    {
        assert(members.deep_view()[j as int] == members[j as int].deep_view());
        if str_eq(members[j].0.as_str(), members[at].0.as_str()) {
            return true;
        }
        j += 1;
    }
    false
}

/// The typed struct `name`.
#[verifier::loop_isolation(false)]
pub fn semantic_analysis(
    output_tree: &AnnotatedSyntaxTree,
    name: String,
    members: &Vec<(String, String, Option<String>)>,
) -> (r: Result<annotated::structure::Struct, SemanticAnalysisError>)
    ensures
        result_model(r) == analyse(output_tree@, name@, members.deep_view()),
{
    let mut s_members: Vec<(String, Type)> = Vec::new();
    let mut semantics: Option<Vec<String>> = None;
    let mut i: usize = 0;
    assert(s_members.deep_view() =~= Seq::empty());
    while i < members.len()
        invariant
            i <= members.len(),
            analyse_members(
                output_tree@,
                name@,
                members.deep_view(),
                i as int,
                s_members.deep_view(),
                semantics.deep_view(),
            ) == analyse(output_tree@, name@, members.deep_view()),
        decreases members.len() - i,
    {
        assert(members.deep_view()[i as int] == members[i as int].deep_view());
        if reserved_name(members[i].0.as_str()) {
            return Err(SemanticAnalysisError::InvalidVariableName(members[i].0.clone()));
        }
        if repeated_later(members, i) {
            return Err(SemanticAnalysisError::MultipleDefinition(name));
        }
        let member_type = match Type::from_name(members[i].1.as_str(), output_tree) {
            Ok(member_type) => member_type,
            Err(error) => {
                return Err(error);
            },
        };
        let ghost members_before = s_members.deep_view();
        let ghost semantics_before = semantics.deep_view();
        match &members[i].2 {
            Some(semantic) => {
                if i > 0 && semantics.is_none() {
                    return Err(SemanticAnalysisError::AllFieldsNeedSemantics(name));
                }
                let mut collected = match semantics {
                    Some(collected) => collected,
                    None => Vec::new(),
                };
                let ghost collected_before = collected.deep_view();
                collected.push(semantic.clone());
                assert(collected.deep_view() =~= collected_before.push(semantic@));
                assert(semantics_before is None ==> collected.deep_view() =~= seq![semantic@]);
                semantics = Some(collected);
            },
            None => {
                if semantics.is_some() {
                    return Err(SemanticAnalysisError::AllFieldsNeedSemantics(name));
                }
            },
        }
        s_members.push((members[i].0.clone(), member_type));
        assert(s_members.deep_view() =~= members_before.push((members[i as int].0@, member_type@)));
        i += 1;
    }
    Ok(annotated::structure::Struct::new(name, s_members, semantics))
}

} // verus!
