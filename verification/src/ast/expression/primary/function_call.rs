//! Function calls.

use crate::annotated::{self, AnnotatedSyntaxTree};
use crate::ast::SemanticAnalysisError;
use crate::ast::expression::{additive, analyse_arguments, models, Expression, ExpressionView};
use crate::ast::scope::Scope;
use crate::lexer::{token_stream, TokenStream};
use crate::model::result_model;
use crate::parser::{parsed, required_token, Parsed, ParserError, ParserErrorView};
use crate::stream::Stream;
use crate::tokens::{Token, TokenClass, TokenView};
use vstd::prelude::*;
use vstd::string::*;

verus! {

/// The arguments of a call after the arguments `done`, up to the closing
/// parenthesis: expressions separated by commas. A closing parenthesis
/// right after the opening one makes a call without arguments. The test on
/// the lengths shows that the definition is well founded: an expression
/// always takes a token.
pub open spec fn arguments(tokens: TokenStream, done: Seq<ExpressionView>) -> Parsed<
    Seq<ExpressionView>,
>
    decreases tokens.tokens.len(), 5nat,
{
    match additive::parse_tokens(tokens) {
        Err(error) => Err(error),
        Ok(((argument, next_token), rest)) => if done.len() == 0 && argument is Empty
            && next_token.class is CloseParenthesis {
            Ok((done, rest))
        } else if next_token.class is Comma {
            if rest.tokens.len() < tokens.tokens.len() {
                arguments(rest, done.push(argument))
            } else {
                Err(ParserErrorView::UnexpectedEOF)
            }
        } else if next_token.class is CloseParenthesis {
            Ok((done.push(argument), rest))
        } else {
            Err(ParserErrorView::UnexpectedToken(next_token))
        },
    }
}

/// The call of the function `identifier`, whose opening parenthesis has
/// been read, and the token after its closing parenthesis.
pub open spec fn parse_tokens(tokens: TokenStream, identifier: Seq<char>) -> Parsed<
    (ExpressionView, TokenView),
>
    decreases tokens.tokens.len(), 6nat,
{
    match arguments(tokens, Seq::empty()) {
        Err(error) => Err(error),
        Ok((read, rest)) => match rest.next() {
            Err(error) => Err(error),
            Ok((token, rest)) => Ok(((ExpressionView::FunctionCall(identifier, read), token), rest)),
        },
    }
}

/// Parses the arguments of a call of the function `identifier` and the
/// token after the call.
pub fn parse(stream: &mut Stream, identifier: &str) -> (r: Result<(Expression, Token), ParserError>)
    ensures
        parsed(
            r,
            old(stream)@,
            final(stream)@,
            parse_tokens(token_stream(old(stream)@), identifier@),
        ),
    decreases token_stream(old(stream)@).tokens.len(), 6nat,
{
    let mut parameters: Vec<Expression> = Vec::new();
    assert(models(&parameters) =~= Seq::empty());
    loop
        invariant_except_break
            arguments(token_stream(stream@), models(&parameters)) == arguments(
                token_stream(old(stream)@),
                Seq::empty(),
            ),
            token_stream(stream@).tokens.len() <= token_stream(old(stream)@).tokens.len(),
        ensures
            arguments(token_stream(old(stream)@), Seq::empty()) == Ok::<
                (Seq<ExpressionView>, TokenStream),
                ParserErrorView,
            >((models(&parameters), token_stream(stream@))),
            token_stream(stream@).tokens.len() < token_stream(old(stream)@).tokens.len(),
        decreases token_stream(stream@).tokens.len(),
    {
        let ghost before = models(&parameters);
        let (parameter, next_token) = match Expression::parse(stream) {
            Ok(parsed) => parsed,
            Err(error) => {
                return Err(error);
            },
        };
        let empty = match parameter {
            Expression::Empty => true,
            _ => false,
        };
        match next_token.class() {
            TokenClass::Comma => {
                parameters.push(parameter);
                assert(models(&parameters) =~= before.push(parameter@));
            },
            TokenClass::CloseParenthesis => {
                if !(empty && parameters.len() == 0) {
                    parameters.push(parameter);
                    assert(models(&parameters) =~= before.push(parameter@));
                }
                break ;
            },
            _ => {
                return Err(ParserError::UnexpectedToken(next_token));
            },
        }
    }
    match required_token(stream) {
        Ok(token) => Ok((Expression::FunctionCall(identifier.to_owned(), parameters), token)),
        Err(error) => Err(error),
    }
}

/// The typed call of the function `name` with the arguments `parameters`.
#[verifier::loop_isolation(false)]
pub fn semantic_analysis(
    output_tree: &AnnotatedSyntaxTree,
    scope: &Scope,
    name: &String,
    parameters: &Vec<Expression>,
) -> (r: Result<annotated::expression::Expression, SemanticAnalysisError>)
    ensures
        result_model(r) == ExpressionView::FunctionCall(name@, models(parameters)).analyse(
            output_tree@,
            scope@,
        ),
    decreases parameters, 0nat,
{
    let function = match output_tree.get_function(name.as_str()) {
        Ok(function) => function,
        Err(error) => {
            return Err(error);
        },
    };
    let declared = function.parameters();
    if declared.len() != parameters.len() {
        return Err(
            SemanticAnalysisError::InvalidParameterCount(
                name.clone(),
                parameters.len(),
                declared.len(),
            ),
        );
    }
    let mut annoted_parameters: Vec<annotated::expression::Expression> = Vec::new();
    let ghost arguments = models(parameters);
    let mut i: usize = 0;
    assert(annoted_parameters.deep_view() =~= Seq::empty());
    while i < parameters.len()
        invariant
            i <= parameters.len(),
            declared.len() == parameters.len(),
            declared.deep_view() == function@.parameters,
            arguments == models(parameters),
            analyse_arguments(
                arguments,
                name@,
                function@.parameters,
                output_tree@,
                scope@,
                i as int,
                annoted_parameters.deep_view(),
            ) == analyse_arguments(
                arguments,
                name@,
                function@.parameters,
                output_tree@,
                scope@,
                0,
                Seq::empty(),
            ),
        decreases parameters.len() - i,
    {
        assert(declared.deep_view()[i as int] == declared[i as int].deep_view());
        assert(arguments[i as int] == parameters[i as int]@);
        let parameter_type = match parameters[i].get_type(output_tree, scope) {
            Ok(parameter_type) => parameter_type,
            Err(error) => {
                return Err(error);
            },
        };
        if !(*declared[i].parameter_type() == parameter_type) {
            return Err(
                SemanticAnalysisError::InvalidParameterType(
                    name.clone(),
                    i,
                    parameter_type.to_string(),
                    declared[i].parameter_type().to_string(),
                ),
            );
        }
        let ghost before = annoted_parameters.deep_view();
        match parameters[i].semantic_analysis(output_tree, scope) {
            Ok(typed) => {
                annoted_parameters.push(typed);
                assert(annoted_parameters.deep_view() =~= before.push(typed@));
            },
            Err(error) => {
                return Err(error);
            },
        }
        i += 1;
    }
    let call = annotated::expression::Expression::FunctionCall(
        name.clone(),
        annoted_parameters,
        function.return_type().clone(),
    );
    assert(annotated::expression::models(&annoted_parameters) =~= annoted_parameters.deep_view());
    Ok(call)
}

} // verus!
