//! Function declarations.

use crate::annotated::{self, AnnotatedSyntaxTree, TreeView};
use crate::annotated::function::{FunctionParameter, FunctionParameterView, FunctionView};
use crate::ast::{SemanticAnalysisError, SemanticAnalysisErrorView};
use crate::ast::code_block::{CodeBlock, CodeBlockView};
use crate::ast::declaration::{Declaration, DeclarationView};
use crate::ast::scope::ScopeView;
use crate::lexer::{token_stream, TokenStream};
use crate::model::result_model;
use crate::parser::{expect, expect_identifier, parsed, required_token, Parsed, ParserError, ParserErrorView};
use crate::stream::Stream;
use crate::tokens::{Token, TokenClass, TokenClassView, TokenView};
use crate::types::{Primitive, Type, TypeView};
use vstd::prelude::*;
use vstd::string::*;

verus! {

/// The name of a parameter that starts with the token `token` and whether
/// it is declared `mut`: an identifier, or `mut` and an identifier.
pub open spec fn parameter_name(tokens: TokenStream, token: TokenView) -> Parsed<(Seq<char>, bool)> {
    match token.class {
        TokenClassView::Identifier(name) => Ok(((name, false), tokens)),
        TokenClassView::Mut => match tokens.expect_identifier() {
            Err(error) => Err(error),
            Ok((name, rest)) => Ok(((name, true), rest)),
        },
        _ => Err(ParserErrorView::UnexpectedToken(token)),
    }
}

/// The parameters of a function from the one that starts with the token
/// `token` on, after the parameters `done`, up to the closing parenthesis:
/// each a name, a colon and the name of a type, separated by commas.
pub open spec fn parameters(
    tokens: TokenStream,
    token: TokenView,
    done: Seq<(Seq<char>, Seq<char>, bool)>,
) -> Parsed<Seq<(Seq<char>, Seq<char>, bool)>>
    decreases tokens.tokens.len(),
{
    match parameter_name(tokens, token) {
        Err(error) => Err(error),
        Ok(((name, mutable), rest)) => match rest.expect(TokenClassView::Colon) {
            Err(error) => Err(error),
            Ok((_, rest)) => match rest.expect_identifier() {
                Err(error) => Err(error),
                Ok((named_type, rest)) => match rest.next() {
                    Err(error) => Err(error),
                    Ok((token, rest)) => match token.class {
                        TokenClassView::CloseParenthesis => Ok(
                            (done.push((name, named_type, mutable)), rest),
                        ),
                        TokenClassView::Comma => match rest.next() {
                            Err(error) => Err(error),
                            Ok((token, rest)) => parameters(
                                rest,
                                token,
                                done.push((name, named_type, mutable)),
                            ),
                        },
                        _ => Err(ParserErrorView::UnexpectedToken(token)),
                    },
                },
            },
        },
    }
}

/// The parameters of a function and the closing parenthesis take a token at
/// least.
pub proof fn parameters_consume(
    tokens: TokenStream,
    token: TokenView,
    done: Seq<(Seq<char>, Seq<char>, bool)>,
)
    ensures
        parameters(tokens, token, done) matches Ok((_, rest)) ==> rest.tokens.len()
            < tokens.tokens.len(),
    decreases tokens.tokens.len(),
{
    match parameter_name(tokens, token) {
        Err(_) => {},
        Ok(((name, mutable), rest)) => match rest.expect(TokenClassView::Colon) {
            Err(_) => {},
            Ok((_, rest)) => match rest.expect_identifier() {
                Err(_) => {},
                Ok((named_type, rest)) => match rest.next() {
                    Err(_) => {},
                    Ok((token, rest)) => match token.class {
                        TokenClassView::Comma => match rest.next() {
                            Err(_) => {},
                            Ok((token, rest)) => {
                                parameters_consume(rest, token, done.push((name, named_type, mutable)));
                            },
                        },
                        _ => {},
                    },
                },
            },
        },
    }
}

/// The parameters of a function after the opening parenthesis: none before
/// a closing parenthesis, else a list of parameters.
pub open spec fn parameter_list(tokens: TokenStream) -> Parsed<Seq<(Seq<char>, Seq<char>, bool)>> {
    match tokens.next() {
        Err(error) => Err(error),
        Ok((token, rest)) => if token.class is CloseParenthesis {
            Ok((Seq::empty(), rest))
        } else {
            parameters(rest, token, Seq::empty())
        },
    }
}

/// The return type of a function, up to the opening brace of the body: none
/// before the brace, else `->` and the name of a type.
pub open spec fn return_type(tokens: TokenStream) -> Parsed<Option<Seq<char>>> {
    match tokens.next() {
        Err(error) => Err(error),
        Ok((token, rest)) => match token.class {
            TokenClassView::OpenCurlyBrace => Ok((None, rest)),
            TokenClassView::RightArrow => match rest.expect_identifier() {
                Err(error) => Err(error),
                Ok((named_type, rest)) => match rest.expect(TokenClassView::OpenCurlyBrace) {
                    Err(error) => Err(error),
                    Ok((_, rest)) => Ok((Some(named_type), rest)),
                },
            },
            _ => Err(ParserErrorView::UnexpectedToken(token)),
        },
    }
}

/// A function declaration after `fn`: a name, the parameters between
/// parentheses, the return type if there is one, and the body between
/// braces, indented by one level.
pub open spec fn parse_tokens(tokens: TokenStream) -> Parsed<DeclarationView> {
    match tokens.expect_identifier() {
        Err(error) => Err(error),
        Ok((name, rest)) => match rest.expect(TokenClassView::OpenParenthesis) {
            Err(error) => Err(error),
            Ok((_, rest)) => match parameter_list(rest) {
                Err(error) => Err(error),
                Ok((read, rest)) => match return_type(rest) {
                    Err(error) => Err(error),
                    Ok((returned, rest)) => match crate::ast::code_block::parse_tokens(rest, 1) {
                        Err(error) => Err(error),
                        Ok((code_block, rest)) => Ok(
                            (DeclarationView::Function(name, read, returned, code_block), rest),
                        ),
                    },
                },
            },
        },
    }
}

/// Parses the name of a parameter that starts with the token `token`.
pub fn parse_parameter_name(stream: &mut Stream, token: Token) -> (r: Result<
    (String, bool),
    ParserError,
>)
    ensures
        match parameter_name(token_stream(old(stream)@), token@) {
            Ok((value, rest)) => r matches Ok(found) && found.deep_view() == value && token_stream(
                final(stream)@,
            ) == rest && rest.tokens.len() <= token_stream(old(stream)@).tokens.len(),
            Err(error) => r matches Err(found) && found@ == error,
        },
{
    match token.class() {
        TokenClass::Identifier(name) => Ok((name.clone(), false)),
        TokenClass::Mut => match expect_identifier(stream) {
            Ok(name) => Ok((name, true)),
            Err(error) => Err(error),
        },
        _ => Err(ParserError::UnexpectedToken(token)),
    }
}

/// Parses the parameters of a function after the opening parenthesis.
pub fn parse_parameter_list(stream: &mut Stream) -> (r: Result<
    Vec<(String, String, bool)>,
    ParserError,
>)
    ensures
        parsed(r, old(stream)@, final(stream)@, parameter_list(token_stream(old(stream)@))),
{
    let mut read: Vec<(String, String, bool)> = Vec::new();
    assert(read.deep_view() =~= Seq::empty());
    let mut name_token = match required_token(stream) {
        Ok(token) => token,
        Err(error) => {
            return Err(error);
        },
    };
    let closed = match name_token.class() {
        TokenClass::CloseParenthesis => true,
        _ => false,
    };
    if closed {
        return Ok(read);
    }
    loop
        invariant_except_break
            parameters(token_stream(stream@), name_token@, read.deep_view()) == parameter_list(
                token_stream(old(stream)@),
            ),
            token_stream(stream@).tokens.len() < token_stream(old(stream)@).tokens.len(),
        ensures
            parameter_list(token_stream(old(stream)@)) == Ok::<
                (Seq<(Seq<char>, Seq<char>, bool)>, TokenStream),
                ParserErrorView,
            >((read.deep_view(), token_stream(stream@))),
            token_stream(stream@).tokens.len() < token_stream(old(stream)@).tokens.len(),
        decreases token_stream(stream@).tokens.len(),
    {
        let ghost before = read.deep_view();
        let (name, mutable) = match parse_parameter_name(stream, name_token) {
            Ok(parsed) => parsed,
            Err(error) => {
                return Err(error);
            },
        };
        match expect(stream, TokenClass::Colon) {
            Ok(()) => {},
            Err(error) => {
                return Err(error);
            },
        }
        let named_type = match expect_identifier(stream) {
            Ok(named_type) => named_type,
            Err(error) => {
                return Err(error);
            },
        };
        let ghost parameter = (name@, named_type@, mutable);
        read.push((name, named_type, mutable));
        assert(read.deep_view() =~= before.push(parameter));
        let token = match required_token(stream) {
            Ok(token) => token,
            Err(error) => {
                return Err(error);
            },
        };
        match token.class() {
            TokenClass::CloseParenthesis => {
                break ;
            },
            TokenClass::Comma => {},
            _ => {
                return Err(ParserError::UnexpectedToken(token));
            },
        }
        name_token =
        match required_token(stream) {
            Ok(token) => token,
            Err(error) => {
                return Err(error);
            },
        };
    }
    Ok(read)
}

/// Parses the return type of a function, up to the opening brace of the
/// body.
pub fn parse_return_type(stream: &mut Stream) -> (r: Result<Option<String>, ParserError>)
    ensures
        parsed(r, old(stream)@, final(stream)@, return_type(token_stream(old(stream)@))),
{
    let token = match required_token(stream) {
        Ok(token) => token,
        Err(error) => {
            return Err(error);
        },
    };
    match token.class() {
        TokenClass::OpenCurlyBrace => Ok(None),
        TokenClass::RightArrow => {
            let named_type = match expect_identifier(stream) {
                Ok(named_type) => named_type,
                Err(error) => {
                    return Err(error);
                },
            };
            match expect(stream, TokenClass::OpenCurlyBrace) {
                Ok(()) => Ok(Some(named_type)),
                Err(error) => Err(error),
            }
        },
        _ => Err(ParserError::UnexpectedToken(token)),
    }
}

/// Parses a function declaration after `fn`.
pub fn parse_function(stream: &mut Stream) -> (r: Result<Declaration, ParserError>)
    ensures
        parsed(r, old(stream)@, final(stream)@, parse_tokens(token_stream(old(stream)@))),
{
    let name = match expect_identifier(stream) {
        Ok(name) => name,
        Err(error) => {
            return Err(error);
        },
    };
    match expect(stream, TokenClass::OpenParenthesis) {
        Ok(()) => {},
        Err(error) => {
            return Err(error);
        },
    }
    let read = match parse_parameter_list(stream) {
        Ok(read) => read,
        Err(error) => {
            return Err(error);
        },
    };
    let returned = match parse_return_type(stream) {
        Ok(returned) => returned,
        Err(error) => {
            return Err(error);
        },
    };
    let code_block = match CodeBlock::parse(stream, 1) {
        Ok(code_block) => code_block,
        Err(error) => {
            return Err(error);
        },
    };
    Ok(Declaration::Function(name, read, returned, code_block))
}

/// The typed parameters from position `at` on, after the typed parameters
/// `done`, and the scope with every parameter defined in it.
pub open spec fn analyse_parameters(
    tree: TreeView,
    parameters: Seq<(Seq<char>, Seq<char>, bool)>,
    scope: ScopeView,
    at: int,
    done: Seq<FunctionParameterView>,
) -> Result<(Seq<FunctionParameterView>, ScopeView), SemanticAnalysisErrorView>
    decreases parameters.len() - at,
{
    if at < 0 || at >= parameters.len() {
        Ok((done, scope))
    } else {
        match tree.type_from_name(parameters[at].1) {
            Err(error) => Err(error),
            Ok(parameter_type) => match scope.define_variable(
                parameters[at].0,
                parameter_type,
                parameters[at].2,
            ) {
                Err(error) => Err(error),
                Ok(defined) => analyse_parameters(
                    tree,
                    parameters,
                    defined,
                    at + 1,
                    done.push(FunctionParameterView { name: parameters[at].0, parameter_type }),
                ),
            },
        }
    }
}

/// The typed function `name`. Its parameters are variables of a scope
/// inside the global scope, in which the body is analysed; without a return
/// type it returns `void`.
pub open spec fn analyse(
    tree: TreeView,
    name: Seq<char>,
    parameters: Seq<(Seq<char>, Seq<char>, bool)>,
    return_type: Option<Seq<char>>,
    code_block: CodeBlockView,
) -> Result<FunctionView, SemanticAnalysisErrorView> {
    match analyse_parameters(tree, parameters, tree.global_scope.new_child(), 0, Seq::empty()) {
        Err(error) => Err(error),
        Ok((typed_parameters, scope)) => match (match return_type {
            Some(return_type) => tree.type_from_name(return_type),
            None => Ok(TypeView::Primitive(Primitive::Void)),
        }) {
            Err(error) => Err(error),
            Ok(return_type) => match code_block.analyse(tree, scope, return_type) {
                Err(error) => Err(error),
                Ok((typed_block, _)) => Ok(
                    FunctionView {
                        name,
                        return_type,
                        parameters: typed_parameters,
                        code_block: Some(typed_block),
                    },
                ),
            },
        },
    }
}

/// The parameters of a function that is analysed in a tree with interned
/// signatures are interned.
pub proof fn analysed_parameters_are_interned(
    tree: TreeView,
    parameters: Seq<(Seq<char>, Seq<char>, bool)>,
    scope: ScopeView,
    at: int,
    done: Seq<FunctionParameterView>,
)
    requires
        tree.signatures_are_interned(),
        forall|i: int|
            0 <= i < done.len() ==> crate::annotated::is_interned(
                (#[trigger] done[i]).parameter_type,
                tree.structs,
            ),
        analyse_parameters(tree, parameters, scope, at, done) is Ok,
    ensures
        forall|i: int|
            0 <= i < analyse_parameters(tree, parameters, scope, at, done)->Ok_0.0.len()
                ==> crate::annotated::is_interned(
                (#[trigger] analyse_parameters(tree, parameters, scope, at, done)->Ok_0.0[i]).parameter_type,
                tree.structs,
            ),
    decreases parameters.len() - at,
{
    if 0 <= at < parameters.len() {
        crate::annotated::named_type_is_interned(tree, parameters[at].1);
        let parameter_type = tree.type_from_name(parameters[at].1)->Ok_0;
        let defined = scope.define_variable(parameters[at].0, parameter_type, parameters[at].2)->Ok_0;
        let typed = done.push(FunctionParameterView { name: parameters[at].0, parameter_type });
        assert forall|i: int| 0 <= i < typed.len() implies crate::annotated::is_interned(
            (#[trigger] typed[i]).parameter_type,
            tree.structs,
        ) by {
            if i < done.len() {
                assert(typed[i] == done[i]);
            }
        }
        analysed_parameters_are_interned(tree, parameters, defined, at + 1, typed);
    }
}

/// The parameters of a function that is analysed without error have no
/// names with a reserved prefix.
pub proof fn analysed_parameters_bear_allowed_names(
    tree: TreeView,
    parameters: Seq<(Seq<char>, Seq<char>, bool)>,
    scope: ScopeView,
    at: int,
    done: Seq<FunctionParameterView>,
)
    requires
        forall|i: int|
            0 <= i < done.len() ==> !crate::text::is_reserved_name((#[trigger] done[i]).name),
        analyse_parameters(tree, parameters, scope, at, done) is Ok,
    ensures
        forall|i: int|
            0 <= i < analyse_parameters(tree, parameters, scope, at, done)->Ok_0.0.len()
                ==> !crate::text::is_reserved_name(
                (#[trigger] analyse_parameters(tree, parameters, scope, at, done)->Ok_0.0[i]).name,
            ),
    decreases parameters.len() - at,
{
    if 0 <= at < parameters.len() {
        let parameter_type = tree.type_from_name(parameters[at].1)->Ok_0;
        let defined = scope.define_variable(parameters[at].0, parameter_type, parameters[at].2)->Ok_0;
        let typed = done.push(FunctionParameterView { name: parameters[at].0, parameter_type });
        assert forall|i: int| 0 <= i < typed.len() implies !crate::text::is_reserved_name(
            (#[trigger] typed[i]).name,
        ) by {
            if i < done.len() {
                assert(typed[i] == done[i]);
            }
        }
        analysed_parameters_bear_allowed_names(tree, parameters, defined, at + 1, typed);
    }
}

/// A function that is analysed in a tree with interned signatures has an
/// interned signature, the name it was declared with and a body, and
/// neither a parameter nor a variable of its body has a name with a
/// reserved prefix.
pub proof fn analysed_function_is_interned(
    tree: TreeView,
    name: Seq<char>,
    parameters: Seq<(Seq<char>, Seq<char>, bool)>,
    return_type: Option<Seq<char>>,
    code_block: CodeBlockView,
)
    requires
        tree.signatures_are_interned(),
        analyse(tree, name, parameters, return_type, code_block) is Ok,
    ensures
        crate::annotated::is_interned_function(
            analyse(tree, name, parameters, return_type, code_block)->Ok_0,
            tree.structs,
        ),
        analyse(tree, name, parameters, return_type, code_block)->Ok_0.name == name,
        analyse(tree, name, parameters, return_type, code_block)->Ok_0.code_block is Some,
        analyse(tree, name, parameters, return_type, code_block)->Ok_0.locals_are_allowed(),
{
    analysed_parameters_bear_allowed_names(
        tree,
        parameters,
        tree.global_scope.new_child(),
        0,
        Seq::empty(),
    );
    let (typed_parameters, scope) = analyse_parameters(
        tree,
        parameters,
        tree.global_scope.new_child(),
        0,
        Seq::empty(),
    )->Ok_0;
    let returned = match return_type {
        Some(return_type) => tree.type_from_name(return_type)->Ok_0,
        None => TypeView::Primitive(Primitive::Void),
    };
    crate::ast::code_block::analysed_statements_define_allowed_names(
        code_block.statements,
        tree,
        scope,
        returned,
        0,
        Seq::empty(),
    );
    analysed_parameters_are_interned(
        tree,
        parameters,
        tree.global_scope.new_child(),
        0,
        Seq::empty(),
    );
    match return_type {
        Some(return_type) => {
            crate::annotated::named_type_is_interned(tree, return_type);
        },
        None => {},
    }
}

/// The typed function `name`.
#[verifier::loop_isolation(false)]
pub fn semantic_analysis(
    output_tree: &AnnotatedSyntaxTree,
    name: String,
    parameters: &Vec<(String, String, bool)>,
    return_type: &Option<String>,
    code_block: &CodeBlock,
) -> (r: Result<annotated::function::Function, SemanticAnalysisError>)
    ensures
        result_model(r) == analyse(
            output_tree@,
            name@,
            parameters.deep_view(),
            return_type.deep_view(),
            code_block@,
        ),
        r matches Ok(function) ==> function@.code_block is Some,
{
    let mut f_parameters: Vec<FunctionParameter> = Vec::new();
    let mut scope = output_tree.global_scope().new_child();
    let ghost start = scope@;
    let mut i: usize = 0;
    assert(f_parameters.deep_view() =~= Seq::empty());
    while i < parameters.len()
        invariant
            i <= parameters.len(),
            analyse_parameters(
                output_tree@,
                parameters.deep_view(),
                scope@,
                i as int,
                f_parameters.deep_view(),
            ) == analyse_parameters(output_tree@, parameters.deep_view(), start, 0, Seq::empty()),
        decreases parameters.len() - i,
    {
        assert(parameters.deep_view()[i as int] == parameters[i as int].deep_view());
        let parameter_type = match Type::from_name(parameters[i].1.as_str(), output_tree) {
            Ok(parameter_type) => parameter_type,
            Err(error) => {
                return Err(error);
            },
        };
        let ghost before = f_parameters.deep_view();
        let parameter = FunctionParameter::new(parameters[i].0.clone(), parameter_type.clone());
        match scope.define_variable(parameters[i].0.clone(), parameter_type, parameters[i].2) {
            Ok(()) => {},
            Err(error) => {
                return Err(error);
            },
        }
        f_parameters.push(parameter);
        assert(f_parameters.deep_view() =~= before.push(parameter@));
        i += 1;
    }
    let return_type = match return_type {
        Some(return_type) => match Type::from_name(return_type.as_str(), output_tree) {
            Ok(return_type) => return_type,
            Err(error) => {
                return Err(error);
            },
        },
        None => Type::void(),
    };
    match code_block.semantic_analysis(output_tree, &mut scope, &return_type) {
        Ok(code_block) => Ok(
            annotated::function::Function::new(name, f_parameters, return_type, code_block),
        ),
        Err(error) => Err(error),
    }
}

} // verus!
