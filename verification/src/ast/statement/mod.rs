//! Untyped statements and their analysis.

use crate::annotated::{self, AnnotatedSyntaxTree, TreeView};
use crate::lexer::{token_stream, TokenStream};
use crate::parser::{parsed, Parsed, ParserError, ParserErrorView};
use crate::stream::Stream;
use crate::tokens::{Token, TokenClass, TokenClassView, TokenView};
use crate::types::{Type, TypeView};
use super::{SemanticAnalysisError, SemanticAnalysisErrorView};
use super::expression::{Expression, ExpressionView};
use super::scope::{Scope, ScopeView};
use vstd::prelude::*;
use vstd::string::*;

pub mod assignment;
pub mod return_statement;
pub mod variable_definition;

verus! {

/// A statement as the parser read it.
pub enum Statement {
    Return(Expression),
    /// The variable, its first value and whether it was declared `mut`.
    VariableDefinition(String, Expression, bool),
    Assignment(String, Expression),
}

/// The model of a [`Statement`].
pub enum StatementView {
    Return(ExpressionView),
    VariableDefinition(Seq<char>, ExpressionView, bool),
    Assignment(Seq<char>, ExpressionView),
}

/// The typed `return` of `expression` from a function that returns
/// `return_type`: the value must be of that type.
pub open spec fn analyse_return(
    expression: ExpressionView,
    tree: TreeView,
    scope: ScopeView,
    return_type: TypeView,
) -> Result<annotated::statement::StatementView, SemanticAnalysisErrorView> {
    match expression.get_type(tree, scope) {
        Err(error) => Err(error),
        Ok(expression_type) => if !expression_type.same_as(return_type) {
            Err(
                SemanticAnalysisErrorView::InvalidReturnType(
                    expression_type.display(),
                    return_type.display(),
                ),
            )
        } else {
            match expression.analyse(tree, scope) {
                Err(error) => Err(error),
                Ok(typed) => Ok(annotated::statement::StatementView::Return(typed, expression_type)),
            }
        },
    }
}

/// The typed definition of the variable `name` and the scope with the
/// variable. The variable gets the type of its value; the value is then
/// analysed with the variable in scope.
pub open spec fn analyse_definition(
    name: Seq<char>,
    expression: ExpressionView,
    mutable: bool,
    tree: TreeView,
    scope: ScopeView,
) -> Result<(annotated::statement::StatementView, ScopeView), SemanticAnalysisErrorView> {
    match expression.get_type(tree, scope) {
        Err(error) => Err(error),
        Ok(expression_type) => match scope.define_variable(name, expression_type, mutable) {
            Err(error) => Err(error),
            Ok(defined) => match expression.analyse(tree, defined) {
                Err(error) => Err(error),
                Ok(typed) => Ok(
                    (
                        annotated::statement::StatementView::VariableDefinition(
                            name,
                            typed,
                            expression_type,
                        ),
                        defined,
                    ),
                ),
            },
        },
    }
}

/// The typed assignment of `expression` to the variable `name`: the variable
/// must be in scope and declared `mut`, and the value of its type.
pub open spec fn analyse_assignment(
    name: Seq<char>,
    expression: ExpressionView,
    tree: TreeView,
    scope: ScopeView,
) -> Result<annotated::statement::StatementView, SemanticAnalysisErrorView> {
    match scope.get_variable(name) {
        Err(error) => Err(error),
        Ok(variable) => if !variable.1 {
            Err(SemanticAnalysisErrorView::ImmutableVariable(name))
        } else {
            match expression.get_type(tree, scope) {
                Err(error) => Err(error),
                Ok(expression_type) => if !expression_type.same_as(variable.0) {
                    Err(
                        SemanticAnalysisErrorView::VariableTypeMismatch(
                            name,
                            expression_type.display(),
                            variable.0.display(),
                        ),
                    )
                } else {
                    match expression.analyse(tree, scope) {
                        Err(error) => Err(error),
                        Ok(typed) => Ok(annotated::statement::StatementView::Assignment(name, typed)),
                    }
                },
            }
        },
    }
}

/// The statement that starts with the token `first_token`: `return`
/// starts a `return` statement, `let` a definition and an identifier an
/// assignment.
pub open spec fn parse_tokens(tokens: TokenStream, first_token: TokenView) -> Parsed<StatementView> {
    match first_token.class {
        TokenClassView::Return => return_statement::parse_tokens(tokens),
        TokenClassView::Identifier(name) => assignment::parse_tokens(tokens, name),
        TokenClassView::Let => variable_definition::parse_tokens(tokens),
        _ => Err(ParserErrorView::UnexpectedToken(first_token)),
    }
}

impl StatementView {
    /// The statement as a diagnostic writes it, on a line of its own.
    pub open spec fn display(self) -> Seq<char> {
        match self {
            StatementView::Return(expression) => "return "@ + expression.display() + "\n"@,
            StatementView::Assignment(name, expression) => name + " = "@ + expression.display()
                + "\n"@,
            StatementView::VariableDefinition(name, expression, mutable) => "let "@ + (if mutable {
                "mut "@
            } else {
                Seq::empty()
            }) + name + " = "@ + expression.display() + "\n"@,
        }
    }

    /// The typed statement and the scope after it, or the first error of
    /// the analysis. Only a definition changes the scope.
    pub open spec fn analyse(self, tree: TreeView, scope: ScopeView, return_type: TypeView) -> Result<
        (annotated::statement::StatementView, ScopeView),
        SemanticAnalysisErrorView,
    > {
        match self {
            StatementView::Return(expression) => match analyse_return(
                expression,
                tree,
                scope,
                return_type,
            ) {
                Ok(typed) => Ok((typed, scope)),
                Err(error) => Err(error),
            },
            StatementView::VariableDefinition(name, expression, mutable) => analyse_definition(
                name,
                expression,
                mutable,
                tree,
                scope,
            ),
            StatementView::Assignment(name, expression) => match analyse_assignment(
                name,
                expression,
                tree,
                scope,
            ) {
                Ok(typed) => Ok((typed, scope)),
                Err(error) => Err(error),
            },
        }
    }
}

impl DeepView for Statement {
    type V = StatementView;

    open spec fn deep_view(&self) -> StatementView {
        match self {
            Statement::Return(expression) => StatementView::Return(expression@),
            Statement::VariableDefinition(name, expression, mutable) => StatementView::VariableDefinition(
                name@,
                expression@,
                *mutable,
            ),
            Statement::Assignment(name, expression) => StatementView::Assignment(name@, expression@),
        }
    }
}

impl View for Statement {
    type V = StatementView;

    open spec fn view(&self) -> StatementView {
        self.deep_view()
    }
}

impl Statement {
    /// The statement as a diagnostic writes it.
    pub fn to_string(&self) -> (text: String)
        ensures
            text@ == self@.display(),
    {
        match self {
            Statement::Return(expression) => {
                let mut text = "return ".to_owned();
                text.append(expression.to_string().as_str());
                text.append("\n");
                text
            },
            Statement::Assignment(name, expression) => {
                let mut text = name.clone();
                text.append(" = ");
                text.append(expression.to_string().as_str());
                text.append("\n");
                text
            },
            Statement::VariableDefinition(name, expression, mutable) => {
                let mut text = "let ".to_owned();
                if *mutable {
                    text.append("mut ");
                }
                text.append(name.as_str());
                text.append(" = ");
                text.append(expression.to_string().as_str());
                text.append("\n");
                assert(text@ =~= self@.display());
                text
            },
        }
    }

    /// Parses the statement that starts with the token `first_token`.
    pub fn parse(stream: &mut Stream, first_token: Token) -> (r: Result<Self, ParserError>)
        ensures
            parsed(
                r,
                old(stream)@,
                final(stream)@,
                parse_tokens(token_stream(old(stream)@), first_token@),
            ),
    {
        match first_token.class() {
            TokenClass::Return => return_statement::parse(stream),
            TokenClass::Identifier(name) => assignment::parse(stream, name.as_str()),
            TokenClass::Let => variable_definition::parse(stream),
            _ => Err(ParserError::UnexpectedToken(first_token)),
        }
    }

    /// The typed statement. A definition adds its variable to `scope`.
    pub fn semantic_analysis(
        &self,
        output_tree: &AnnotatedSyntaxTree,
        scope: &mut Scope,
        function_return_type: &Type,
    ) -> (r: Result<annotated::statement::Statement, SemanticAnalysisError>)
        ensures
            match self@.analyse(output_tree@, old(scope)@, function_return_type@) {
                Ok((statement, after)) => r matches Ok(typed) && typed@ == statement
                    && final(scope)@ == after,
                Err(error) => r matches Err(e) && e@ == error,
            },
    {
        match self {
            Statement::Return(expression) => return_statement::semantic_analysis(
                output_tree,
                scope,
                function_return_type,
                expression,
            ),
            Statement::Assignment(name, expression) => assignment::semantic_analysis(
                output_tree,
                scope,
                name,
                expression,
            ),
            Statement::VariableDefinition(name, expression, mutable) => variable_definition::semantic_analysis(
                output_tree,
                scope,
                name,
                expression,
                *mutable,
            ),
        }
    }
}

} // verus!
