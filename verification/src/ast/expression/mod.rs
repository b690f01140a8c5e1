//! Untyped expressions, their types and their analysis.

use crate::annotated;
use super::{SemanticAnalysisError, SemanticAnalysisErrorView};
use super::scope::{Scope, ScopeView};

use crate::annotated::{AnnotatedSyntaxTree, TreeView};
use crate::decimal::{Decimal, DecimalView};
use crate::lexer::{token_stream, TokenStream};
use crate::model::{first, first_from_found, join, join_push, result_model};
use crate::parser::{parsed, ParserError};
use crate::stream::Stream;
use crate::tokens::{Token, TokenView};
use crate::types::{member_named, Primitive, Type, TypeView};
use vstd::prelude::*;
use vstd::string::*;

pub mod additive;
pub mod multiplicative;
pub mod primary;

verus! {

/// An expression as the parser read it.
pub enum Expression {
    Variable(String),
    FunctionCall(String, Vec<Expression>),
    FloatLiteral(Decimal),
    /// Struct name and, for each initializer, the member it names and its
    /// value.
    StructCreation(String, Vec<(String, Expression)>),
    MemberAccess(Box<Expression>, String),
    /// No expression where one was expected.
    Empty,
    Multiply(Box<Expression>, Box<Expression>),
    Add(Box<Expression>, Box<Expression>),
    Subtract(Box<Expression>, Box<Expression>),
}

/// The model of an [`Expression`].
pub enum ExpressionView {
    Variable(Seq<char>),
    FunctionCall(Seq<char>, Seq<ExpressionView>),
    FloatLiteral(DecimalView),
    StructCreation(Seq<char>, Seq<(Seq<char>, ExpressionView)>),
    MemberAccess(Box<ExpressionView>, Seq<char>),
    Empty,
    Multiply(Box<ExpressionView>, Box<ExpressionView>),
    Add(Box<ExpressionView>, Box<ExpressionView>),
    Subtract(Box<ExpressionView>, Box<ExpressionView>),
}

/// The test for an initializer of the member `name`.
pub open spec fn initializer_named(name: Seq<char>) -> spec_fn((Seq<char>, ExpressionView)) -> bool {
    |m: (Seq<char>, ExpressionView)| m.0 == name
}

/// The test for the position of an initializer that initializes nothing: it
/// names no member of the struct, or an initializer before it names the
/// same member.
pub open spec fn is_extra_initializer(
    initializers: Seq<(Seq<char>, ExpressionView)>,
    members: Seq<(Seq<char>, TypeView)>,
) -> spec_fn(int) -> bool {
    |at: int|
        first(members, member_named(initializers[at].0)) is None || first(
            initializers,
            initializer_named(initializers[at].0),
        ) != Some(at)
}

/// The positions `0`, `1`, and so on below `count`.
pub open spec fn positions(count: nat) -> Seq<int> {
    Seq::new(count, |at: int| at)
}

/// Each expression of a list as a diagnostic writes it.
pub open spec fn display_parts(expressions: Seq<ExpressionView>) -> Seq<Seq<char>>
    decreases expressions,
{
    Seq::new(
        expressions.len(),
        |i: int|
            if 0 <= i < expressions.len() {
                expressions[i].display()
            } else {
                Seq::empty()
            },
    )
}

/// Each initializer of a list as a diagnostic writes it: the member, a
/// colon and the value.
pub open spec fn display_initializers(initializers: Seq<(Seq<char>, ExpressionView)>) -> Seq<Seq<char>>
    decreases initializers,
{
    Seq::new(
        initializers.len(),
        |i: int|
            if 0 <= i < initializers.len() {
                initializers[i].0 + ": "@ + initializers[i].1.display()
            } else {
                Seq::empty()
            },
    )
}

impl ExpressionView {
    /// The expression as a diagnostic writes it: fully parenthesised, a
    /// number in its shortest notation.
    pub open spec fn display(self) -> Seq<char>
        decreases self,
    {
        match self {
            ExpressionView::Empty => Seq::empty(),
            ExpressionView::Variable(name) => name,
            ExpressionView::FunctionCall(name, arguments) => name + "("@ + join(
                display_parts(arguments),
                ", "@,
            ) + ")"@,
            ExpressionView::FloatLiteral(value) => value.plain(),
            ExpressionView::StructCreation(name, initializers) => name + " {"@ + join(
                display_initializers(initializers),
                ", "@,
            ) + "}"@,
            ExpressionView::MemberAccess(expression, member) => expression.display() + "."@ + member,
            ExpressionView::Multiply(left, right) => "("@ + left.display() + " * "@ + right.display()
                + ")"@,
            ExpressionView::Add(left, right) => "("@ + left.display() + " + "@ + right.display()
                + ")"@,
            ExpressionView::Subtract(left, right) => "("@ + left.display() + " - "@ + right.display()
                + ")"@,
        }
    }

    /// The type of the expression, without a look at what a complete
    /// analysis checks besides: the arguments of a call, the initializers of
    /// a struct.
    pub open spec fn get_type(self, tree: TreeView, scope: ScopeView) -> Result<
        TypeView,
        SemanticAnalysisErrorView,
    >
        decreases self,
    {
        match self {
            ExpressionView::Empty => Ok(TypeView::Primitive(Primitive::Void)),
            ExpressionView::Variable(name) => match scope.get_variable(name) {
                Ok(variable) => Ok(variable.0),
                Err(error) => Err(error),
            },
            ExpressionView::FunctionCall(name, _) => match tree.get_function(name) {
                Ok(function) => Ok(function.return_type),
                Err(error) => Err(error),
            },
            ExpressionView::FloatLiteral(_) => Ok(TypeView::Primitive(Primitive::Float)),
            ExpressionView::StructCreation(name, _) => tree.get_type(name),
            ExpressionView::MemberAccess(expression, member) => match expression.get_type(tree, scope) {
                Ok(expression_type) => expression_type.member_type(member),
                Err(error) => Err(error),
            },
            ExpressionView::Multiply(left, right) => match left.get_type(tree, scope) {
                Ok(left_type) => match right.get_type(tree, scope) {
                    Ok(right_type) => left_type.product_type(right_type),
                    Err(error) => Err(error),
                },
                Err(error) => Err(error),
            },
            ExpressionView::Add(left, right) => match left.get_type(tree, scope) {
                Ok(left_type) => match right.get_type(tree, scope) {
                    Ok(right_type) => left_type.sum_type(right_type),
                    Err(error) => Err(error),
                },
                Err(error) => Err(error),
            },
            ExpressionView::Subtract(left, right) => match left.get_type(tree, scope) {
                Ok(left_type) => match right.get_type(tree, scope) {
                    Ok(right_type) => left_type.sum_type(right_type),
                    Err(error) => Err(error),
                },
                Err(error) => Err(error),
            },
        }
    }

    /// The typed expression, or the first error of the analysis.
    ///
    /// A variable must be in scope. A call must name a function and give it
    /// as many arguments as it has parameters, each of the parameter's type.
    /// A struct creation must name a struct and initialize each member once,
    /// with a value of the member's type, and nothing else. A member access
    /// must name a member of the type of its operand. The operands of `*`,
    /// `+` and `-` must have a product or a sum.
    pub open spec fn analyse(self, tree: TreeView, scope: ScopeView) -> Result<
        annotated::expression::ExpressionView,
        SemanticAnalysisErrorView,
    >
        decreases self, 1nat,
    {
        match self {
            ExpressionView::Empty => Ok(annotated::expression::ExpressionView::Empty),
            ExpressionView::Variable(name) => match scope.get_variable(name) {
                Ok(variable) => Ok(annotated::expression::ExpressionView::Variable(name, variable.0)),
                Err(error) => Err(error),
            },
            ExpressionView::FloatLiteral(value) => Ok(
                annotated::expression::ExpressionView::FloatLiteral(value),
            ),
            ExpressionView::FunctionCall(name, arguments) => match tree.get_function(name) {
                Err(error) => Err(error),
                Ok(function) => if function.parameters.len() != arguments.len() {
                    Err(
                        SemanticAnalysisErrorView::InvalidParameterCount(
                            name,
                            arguments.len() as usize,
                            function.parameters.len() as usize,
                        ),
                    )
                } else {
                    match analyse_arguments(
                        arguments,
                        name,
                        function.parameters,
                        tree,
                        scope,
                        0,
                        Seq::empty(),
                    ) {
                        Err(error) => Err(error),
                        Ok(typed) => Ok(
                            annotated::expression::ExpressionView::FunctionCall(
                                name,
                                typed,
                                function.return_type,
                            ),
                        ),
                    }
                },
            },
            ExpressionView::StructCreation(name, initializers) => match first(
                tree.structs,
                annotated::structure::struct_named(name),
            ) {
                None => Err(SemanticAnalysisErrorView::UnknownType(name)),
                Some(handle) => match analyse_initializers(
                    initializers,
                    name,
                    tree.structs[handle].members,
                    tree,
                    scope,
                    0,
                    Seq::empty(),
                ) {
                    Err(error) => Err(error),
                    Ok(typed) => Ok(
                        annotated::expression::ExpressionView::StructCreation(
                            name,
                            typed,
                            TypeView::Struct(handle, tree.structs[handle]),
                        ),
                    ),
                },
            },
            ExpressionView::MemberAccess(expression, member) => match expression.get_type(tree, scope) {
                Err(error) => Err(error),
                Ok(expression_type) => match expression_type.member_type(member) {
                    Err(error) => Err(error),
                    Ok(member_type) => match expression.analyse(tree, scope) {
                        Err(error) => Err(error),
                        Ok(typed) => Ok(
                            annotated::expression::ExpressionView::MemberAccess(
                                Box::new(typed),
                                member,
                                member_type,
                            ),
                        ),
                    },
                },
            },
            ExpressionView::Multiply(left, right) => match self.get_type(tree, scope) {
                Err(error) => Err(error),
                Ok(product_type) => match left.analyse(tree, scope) {
                    Err(error) => Err(error),
                    Ok(typed_left) => match right.analyse(tree, scope) {
                        Err(error) => Err(error),
                        Ok(typed_right) => Ok(
                            annotated::expression::ExpressionView::Multiply(
                                Box::new(typed_left),
                                Box::new(typed_right),
                                product_type,
                            ),
                        ),
                    },
                },
            },
            ExpressionView::Add(left, right) => match self.get_type(tree, scope) {
                Err(error) => Err(error),
                Ok(sum_type) => match left.analyse(tree, scope) {
                    Err(error) => Err(error),
                    Ok(typed_left) => match right.analyse(tree, scope) {
                        Err(error) => Err(error),
                        Ok(typed_right) => Ok(
                            annotated::expression::ExpressionView::Add(
                                Box::new(typed_left),
                                Box::new(typed_right),
                                sum_type,
                            ),
                        ),
                    },
                },
            },
            ExpressionView::Subtract(left, right) => match self.get_type(tree, scope) {
                Err(error) => Err(error),
                Ok(sum_type) => match left.analyse(tree, scope) {
                    Err(error) => Err(error),
                    Ok(typed_left) => match right.analyse(tree, scope) {
                        Err(error) => Err(error),
                        Ok(typed_right) => Ok(
                            annotated::expression::ExpressionView::Subtract(
                                Box::new(typed_left),
                                Box::new(typed_right),
                                sum_type,
                            ),
                        ),
                    },
                },
            },
        }
    }
}

/// The typed arguments of a call of the function `name`, from the argument
/// at position `at` on, after the typed arguments `done`. Each argument must
/// have the type of the parameter at its position.
pub open spec fn analyse_arguments(
    arguments: Seq<ExpressionView>,
    name: Seq<char>,
    parameters: Seq<annotated::function::FunctionParameterView>,
    tree: TreeView,
    scope: ScopeView,
    at: int,
    done: Seq<annotated::expression::ExpressionView>,
) -> Result<Seq<annotated::expression::ExpressionView>, SemanticAnalysisErrorView>
    decreases arguments, arguments.len() - at,
{
    if at < 0 || at >= arguments.len() {
        Ok(done)
    } else {
        match arguments[at].get_type(tree, scope) {
            Err(error) => Err(error),
            Ok(argument_type) => if !parameters[at].parameter_type.same_as(argument_type) {
                Err(
                    SemanticAnalysisErrorView::InvalidParameterType(
                        name,
                        at as usize,
                        argument_type.display(),
                        parameters[at].parameter_type.display(),
                    ),
                )
            } else {
                match arguments[at].analyse(tree, scope) {
                    Err(error) => Err(error),
                    Ok(typed) => analyse_arguments(
                        arguments,
                        name,
                        parameters,
                        tree,
                        scope,
                        at + 1,
                        done.push(typed),
                    ),
                }
            },
        }
    }
}

/// The typed values of the members of the struct `name`, from the member at
/// position `at` on, after the typed values `done`. The value of a member
/// is that of the first initializer that names it. Once every member has
/// its value, an initializer that initializes nothing is an error.
pub open spec fn analyse_initializers(
    initializers: Seq<(Seq<char>, ExpressionView)>,
    name: Seq<char>,
    members: Seq<(Seq<char>, TypeView)>,
    tree: TreeView,
    scope: ScopeView,
    at: int,
    done: Seq<annotated::expression::ExpressionView>,
) -> Result<Seq<annotated::expression::ExpressionView>, SemanticAnalysisErrorView>
    decreases initializers, members.len() - at,
{
    if at < 0 || at >= members.len() {
        match first(
            positions(initializers.len()),
            is_extra_initializer(initializers, members),
        ) {
            Some(extra) => Err(
                SemanticAnalysisErrorView::MissingStructureMember(name, initializers[extra].0),
            ),
            None => Ok(done),
        }
    } else {
        match first(initializers, initializer_named(members[at].0)) {
            None => Err(SemanticAnalysisErrorView::MissingStructureMember(name, members[at].0)),
            Some(found) => {
                proof {
                    first_from_found(initializers, initializer_named(members[at].0), 0);
                }
                match initializers[found].1.get_type(tree, scope) {
                    Err(error) => Err(error),
                    Ok(value_type) => if !members[at].1.same_as(value_type) {
                        Err(
                            SemanticAnalysisErrorView::InvalidMemberType(
                                name,
                                members[at].0,
                                value_type.display(),
                                members[at].1.display(),
                            ),
                        )
                    } else {
                        match initializers[found].1.analyse(tree, scope) {
                            Err(error) => Err(error),
                            Ok(typed) => analyse_initializers(
                                initializers,
                                name,
                                members,
                                tree,
                                scope,
                                at + 1,
                                done.push(typed),
                            ),
                        }
                    },
                }
            },
        }
    }
}

/// The models of the expressions of a list.
pub open spec fn models(expressions: &Vec<Expression>) -> Seq<ExpressionView>
    decreases expressions,
{
    Seq::new(
        expressions.len() as nat,
        |i: int|
            if 0 <= i < expressions.len() {
                expressions[i].model()
            } else {
                ExpressionView::Empty
            },
    )
}

/// The models of the initializers of a list.
pub open spec fn initializer_models(initializers: &Vec<(String, Expression)>) -> Seq<
    (Seq<char>, ExpressionView),
>
    decreases initializers,
{
    Seq::new(
        initializers.len() as nat,
        |i: int|
            if 0 <= i < initializers.len() {
                (initializers[i].0@, initializers[i].1.model())
            } else {
                (Seq::empty(), ExpressionView::Empty)
            },
    )
}

impl Expression {
    /// The model of this expression.
    pub open spec fn model(&self) -> ExpressionView
        decreases self,
    {
        match self {
            Expression::Variable(name) => ExpressionView::Variable(name@),
            Expression::FunctionCall(name, arguments) => ExpressionView::FunctionCall(
                name@,
                models(arguments),
            ),
            Expression::FloatLiteral(value) => ExpressionView::FloatLiteral(value@),
            Expression::StructCreation(name, initializers) => ExpressionView::StructCreation(
                name@,
                initializer_models(initializers),
            ),
            Expression::MemberAccess(expression, member) => ExpressionView::MemberAccess(
                Box::new(expression.model()),
                member@,
            ),
            Expression::Empty => ExpressionView::Empty,
            Expression::Multiply(left, right) => ExpressionView::Multiply(
                Box::new(left.model()),
                Box::new(right.model()),
            ),
            Expression::Add(left, right) => ExpressionView::Add(
                Box::new(left.model()),
                Box::new(right.model()),
            ),
            Expression::Subtract(left, right) => ExpressionView::Subtract(
                Box::new(left.model()),
                Box::new(right.model()),
            ),
        }
    }

    /// The expressions as a diagnostic writes them, separated by commas.
    fn display_list(expressions: &Vec<Expression>) -> (text: String)
        ensures
            text@ == join(display_parts(models(expressions)), ", "@),
        decreases expressions, 0nat,
    {
        let ghost written = display_parts(models(expressions));
        let mut text = String::new();
        let mut i: usize = 0;
        assert(written.take(0) =~= Seq::<Seq<char>>::empty());
        while i < expressions.len()
            invariant
                i <= expressions.len(),
                written.len() == expressions.len(),
                forall|k: int| 0 <= k < written.len() ==> written[k] == expressions[k].model().display(),
                text@ == join(written.take(i as int), ", "@),
            decreases expressions.len() - i,
        {
            if i != 0 {
                text.append(", ");
            }
            let part = expressions[i].to_string();
            text.append(part.as_str());
            proof {
                join_push(written.take(i as int), ", "@, written[i as int]);
                assert(written.take(i as int).push(written[i as int]) =~= written.take(i + 1));
                assert(text@ =~= join(written.take(i + 1), ", "@));
            }
            i += 1;
        }
        assert(written.take(expressions.len() as int) =~= written);
        text
    }

    /// The initializers as a diagnostic writes them, separated by commas.
    fn display_initializer_list(initializers: &Vec<(String, Expression)>) -> (text: String)
        ensures
            text@ == join(display_initializers(initializer_models(initializers)), ", "@),
        decreases initializers, 0nat,
    {
        let ghost written = display_initializers(initializer_models(initializers));
        let mut text = String::new();
        let mut i: usize = 0;
        assert(written.take(0) =~= Seq::<Seq<char>>::empty());
        while i < initializers.len()
            invariant
                i <= initializers.len(),
                written.len() == initializers.len(),
                forall|k: int|
                    0 <= k < written.len() ==> written[k] == initializers[k].0@ + ": "@
                        + initializers[k].1.model().display(),
                text@ == join(written.take(i as int), ", "@),
            decreases initializers.len() - i,
        {
            let ghost before = text@;
            if i != 0 {
                text.append(", ");
            }
            text.append(initializers[i].0.as_str());
            text.append(": ");
            let part = initializers[i].1.to_string();
            text.append(part.as_str());
            proof {
                join_push(written.take(i as int), ", "@, written[i as int]);
                assert(written.take(i as int).push(written[i as int]) =~= written.take(i + 1));
                assert(text@ =~= (if i == 0 {
                    before
                } else {
                    before + ", "@
                }) + written[i as int]);
                assert(text@ =~= join(written.take(i + 1), ", "@));
            }
            i += 1;
        }
        assert(written.take(initializers.len() as int) =~= written);
        text
    }

    /// The expression as a diagnostic writes it.
    pub fn to_string(&self) -> (text: String)
        ensures
            text@ == self@.display(),
        decreases self, 1nat,
    {
        match self {
            Expression::Empty => String::new(),
            Expression::Variable(variable) => variable.clone(),
            Expression::FunctionCall(name, parameters) => {
                let mut text = name.clone();
                text.append("(");
                text.append(Expression::display_list(parameters).as_str());
                text.append(")");
                text
            },
            Expression::FloatLiteral(value) => value.to_string(),
            Expression::StructCreation(name, members) => {
                let mut text = name.clone();
                text.append(" {");
                text.append(Expression::display_initializer_list(members).as_str());
                text.append("}");
                text
            },
            Expression::MemberAccess(expression, member_name) => {
                let mut text = expression.to_string();
                text.append(".");
                text.append(member_name.as_str());
                text
            },
            Expression::Multiply(left_expression, right_expression) => {
                let mut text = "(".to_owned();
                text.append(left_expression.to_string().as_str());
                text.append(" * ");
                text.append(right_expression.to_string().as_str());
                text.append(")");
                text
            },
            Expression::Add(left_expression, right_expression) => {
                let mut text = "(".to_owned();
                text.append(left_expression.to_string().as_str());
                text.append(" + ");
                text.append(right_expression.to_string().as_str());
                text.append(")");
                text
            },
            Expression::Subtract(left_expression, right_expression) => {
                let mut text = "(".to_owned();
                text.append(left_expression.to_string().as_str());
                text.append(" - ");
                text.append(right_expression.to_string().as_str());
                text.append(")");
                text
            },
        }
    }

    /// Parses an expression and the token after it.
    pub fn parse(stream: &mut Stream) -> (r: Result<(Self, Token), ParserError>)
        ensures
            parsed(
                r,
                old(stream)@,
                final(stream)@,
                additive::parse_tokens(token_stream(old(stream)@)),
            ),
        decreases token_stream(old(stream)@).tokens.len(), 5nat,
    {
        additive::parse(stream)
    }

    /// The type of the expression.
    pub fn get_type(&self, output_tree: &AnnotatedSyntaxTree, scope: &Scope) -> (r: Result<
        Type,
        SemanticAnalysisError,
    >)
        ensures
            result_model(r) == self@.get_type(output_tree@, scope@),
        decreases self,
    {
        match self {
            Expression::Empty => Ok(Type::void()),
            Expression::Variable(name) => match scope.get_variable(name.as_str()) {
                Ok(variable) => Ok(variable.0),
                Err(error) => Err(error),
            },
            Expression::FunctionCall(name, _) => match output_tree.get_function(name.as_str()) {
                Ok(function) => Ok(function.return_type().clone()),
                Err(error) => Err(error),
            },
            Expression::FloatLiteral(_) => Ok(Type::float()),
            Expression::StructCreation(name, _) => output_tree.get_type(name.as_str()),
            Expression::MemberAccess(expression, member) => match expression.get_type(
                output_tree,
                scope,
            ) {
                Ok(expression_type) => expression_type.member_type(member.as_str()),
                Err(error) => Err(error),
            },
            Expression::Multiply(left_expression, right_expression) => match left_expression.get_type(
                output_tree,
                scope,
            ) {
                Ok(left_type) => match right_expression.get_type(output_tree, scope) {
                    Ok(right_type) => left_type.product_type(&right_type),
                    Err(error) => Err(error),
                },
                Err(error) => Err(error),
            },
            Expression::Add(left_expression, right_expression) => match left_expression.get_type(
                output_tree,
                scope,
            ) {
                Ok(left_type) => match right_expression.get_type(output_tree, scope) {
                    Ok(right_type) => left_type.sum_type(&right_type),
                    Err(error) => Err(error),
                },
                Err(error) => Err(error),
            },
            Expression::Subtract(left_expression, right_expression) => match left_expression.get_type(
                output_tree,
                scope,
            ) {
                Ok(left_type) => match right_expression.get_type(output_tree, scope) {
                    Ok(right_type) => left_type.sum_type(&right_type),
                    Err(error) => Err(error),
                },
                Err(error) => Err(error),
            },
        }
    }

    /// The typed expression, or the first error of the analysis.
    pub fn semantic_analysis(&self, output_tree: &AnnotatedSyntaxTree, scope: &Scope) -> (r: Result<
        annotated::expression::Expression,
        SemanticAnalysisError,
    >)
        ensures
            result_model(r) == self@.analyse(output_tree@, scope@),
        decreases self, 1nat,
    {
        match self {
            Expression::Empty => primary::empty::semantic_analysis(),
            Expression::Variable(variable) => primary::variable::semantic_analysis(scope, variable),
            Expression::FloatLiteral(value) => primary::float_literal::semantic_analysis(value),
            Expression::FunctionCall(name, parameters) => primary::function_call::semantic_analysis(
                output_tree,
                scope,
                name,
                parameters,
            ),
            Expression::StructCreation(name, members) => primary::struct_creation::semantic_analysis(
                output_tree,
                scope,
                name,
                members,
            ),
            Expression::MemberAccess(expression, member_name) => primary::member_access::semantic_analysis(
                output_tree,
                scope,
                expression,
                member_name,
            ),
            Expression::Multiply(left_expression, right_expression) => multiplicative::multiply_semantic_analysis(
                output_tree,
                scope,
                left_expression,
                right_expression,
            ),
            Expression::Add(left_expression, right_expression) => additive::semantic_analysis(
                output_tree,
                scope,
                left_expression,
                right_expression,
                true,
            ),
            Expression::Subtract(left_expression, right_expression) => additive::semantic_analysis(
                output_tree,
                scope,
                left_expression,
                right_expression,
                false,
            ),
        }
    }
}

impl DeepView for Expression {
    type V = ExpressionView;

    open spec fn deep_view(&self) -> ExpressionView {
        self.model()
    }
}

impl View for Expression {
    type V = ExpressionView;

    open spec fn view(&self) -> ExpressionView {
        self.model()
    }
}

/// Every analysed expression carries its type: the type that the typed
/// expression holds is the type of the expression.
pub proof fn analysed_expression_carries_its_type(
    expression: ExpressionView,
    tree: TreeView,
    scope: ScopeView,
)
    requires
        expression.analyse(tree, scope) is Ok,
    ensures
        expression.get_type(tree, scope) == Ok::<TypeView, SemanticAnalysisErrorView>(
            expression.analyse(tree, scope)->Ok_0.get_type(),
        ),
{
}

/// The member accesses after an expression take nothing back: no more
/// tokens are left after them than before.
pub proof fn member_chain_consumes(expression: ExpressionView, next_token: TokenView, tokens: TokenStream)
    ensures
        primary::member_chain(expression, next_token, tokens) matches Ok((_, rest))
            ==> rest.tokens.len() <= tokens.tokens.len(),
    decreases tokens.tokens.len(),
{
    if next_token.class is Period {
        match tokens.expect_identifier() {
            Err(_) => {},
            Ok((member, rest)) => match rest.next() {
                Err(_) => {},
                Ok((token, rest)) => {
                    member_chain_consumes(
                        ExpressionView::MemberAccess(Box::new(expression), member),
                        token,
                        rest,
                    );
                },
            },
        }
    }
}

/// The start of a primary expression takes nothing back.
pub proof fn head_consumes(token: TokenView, tokens: TokenStream)
    ensures
        primary::head(token, tokens) matches Ok((_, rest)) ==> rest.tokens.len()
            <= tokens.tokens.len(),
    decreases tokens.tokens.len(), 8nat,
{
    match token.class {
        crate::tokens::TokenClassView::OpenParenthesis => {
            sums_consume(tokens, None);
        },
        crate::tokens::TokenClassView::Identifier(identifier) => match tokens.next() {
            Err(_) => {},
            Ok((next_token, rest)) => {
                call_consumes(rest, identifier);
                creation_consumes(rest, identifier);
            },
        },
        _ => {},
    }
}

/// A primary expression takes a token at least.
pub proof fn primary_consumes(tokens: TokenStream)
    ensures
        primary::parse_tokens(tokens) matches Ok((_, rest)) ==> rest.tokens.len()
            < tokens.tokens.len(),
    decreases tokens.tokens.len(), 0nat,
{
    match tokens.next() {
        Err(_) => {},
        Ok((token, rest)) => {
            head_consumes(token, rest);
            match primary::head(token, rest) {
                Err(_) => {},
                Ok(((expression, next_token), rest)) => {
                    member_chain_consumes(expression, next_token, rest);
                },
            }
        },
    }
}

/// A chain of products takes a token at least.
pub proof fn products_consume(tokens: TokenStream, left: Option<ExpressionView>)
    ensures
        multiplicative::products(tokens, left) matches Ok((_, rest)) ==> rest.tokens.len()
            < tokens.tokens.len(),
    decreases tokens.tokens.len(), 1nat,
{
    primary_consumes(tokens);
    match primary::parse_tokens(tokens) {
        Err(_) => {},
        Ok(((right, next_token), rest)) => {
            let expression = match left {
                Some(left) => ExpressionView::Multiply(Box::new(left), Box::new(right)),
                None => right,
            };
            if next_token.class is Asterick {
                products_consume(rest, Some(expression));
            }
        },
    }
}

/// A chain of sums takes a token at least.
pub proof fn sums_consume(tokens: TokenStream, left: Option<(ExpressionView, bool)>)
    ensures
        additive::sums(tokens, left) matches Ok((_, rest)) ==> rest.tokens.len()
            < tokens.tokens.len(),
    decreases tokens.tokens.len(), 3nat,
{
    products_consume(tokens, None);
    match multiplicative::parse_tokens(tokens) {
        Err(_) => {},
        Ok(((right, next_token), rest)) => {
            let expression = match left {
                Some((left, plus)) => if plus {
                    ExpressionView::Add(Box::new(left), Box::new(right))
                } else {
                    ExpressionView::Subtract(Box::new(left), Box::new(right))
                },
                None => right,
            };
            if next_token.class is Plus || next_token.class is Dash {
                sums_consume(rest, Some((expression, next_token.class is Plus)));
            }
        },
    }
}

/// The arguments of a call take a token at least.
pub proof fn arguments_consume(tokens: TokenStream, done: Seq<ExpressionView>)
    ensures
        primary::function_call::arguments(tokens, done) matches Ok((_, rest)) ==> rest.tokens.len()
            < tokens.tokens.len(),
    decreases tokens.tokens.len(), 5nat,
{
    sums_consume(tokens, None);
    match additive::parse_tokens(tokens) {
        Err(_) => {},
        Ok(((argument, next_token), rest)) => {
            if !(done.len() == 0 && argument is Empty && next_token.class is CloseParenthesis)
                && next_token.class is Comma {
                arguments_consume(rest, done.push(argument));
            }
        },
    }
}

/// What follows the opening parenthesis of a call takes a token at least.
pub proof fn call_consumes(tokens: TokenStream, identifier: Seq<char>)
    ensures
        primary::function_call::parse_tokens(tokens, identifier) matches Ok((_, rest))
            ==> rest.tokens.len() < tokens.tokens.len(),
    decreases tokens.tokens.len(), 6nat,
{
    arguments_consume(tokens, Seq::empty());
}

/// The initializers of a struct creation take a token at least.
pub proof fn initializers_consume(tokens: TokenStream, done: Seq<(Seq<char>, ExpressionView)>)
    ensures
        primary::struct_creation::initializers(tokens, done) matches Ok((_, rest))
            ==> rest.tokens.len() < tokens.tokens.len(),
    decreases tokens.tokens.len(), 5nat,
{
    match tokens.next() {
        Err(_) => {},
        Ok((token, rest)) => match token.class {
            crate::tokens::TokenClassView::Identifier(name) => match rest.expect(
                crate::tokens::TokenClassView::Colon,
            ) {
                Err(_) => {},
                Ok((_, rest)) => {
                    sums_consume(rest, None);
                    match additive::parse_tokens(rest) {
                        Err(_) => {},
                        Ok(((expression, next_token), rest)) => {
                            if next_token.class is Comma {
                                initializers_consume(rest, done.push((name, expression)));
                            }
                        },
                    }
                },
            },
            _ => {},
        },
    }
}

/// What follows the opening brace of a struct creation takes a token at
/// least.
pub proof fn creation_consumes(tokens: TokenStream, identifier: Seq<char>)
    ensures
        primary::struct_creation::parse_tokens(tokens, identifier) matches Ok((_, rest))
            ==> rest.tokens.len() < tokens.tokens.len(),
    decreases tokens.tokens.len(), 6nat,
{
    initializers_consume(tokens, Seq::empty());
}

/// An expression takes a token at least: the grammar of expressions never
/// stops on the tests that make its definitions well founded.
pub proof fn expression_consumes(tokens: TokenStream)
    ensures
        additive::parse_tokens(tokens) matches Ok((_, rest)) ==> rest.tokens.len()
            < tokens.tokens.len(),
{
    sums_consume(tokens, None);
}

} // verus!
