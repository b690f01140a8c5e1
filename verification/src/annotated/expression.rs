//! Typed expressions and how the two backends write them.

use crate::decimal::{Decimal, DecimalView};
use crate::model::{join, join_push};
use crate::text::str_eq;
use crate::types::{Primitive, Type, TypeView};
use vstd::prelude::*;
use vstd::string::*;

verus! {

/// An expression with the types that semantic analysis found for it.
pub enum Expression {
    Variable(String, Type),
    /// Function name, arguments, return type.
    FunctionCall(String, Vec<Expression>, Type),
    FloatLiteral(Decimal),
    /// Struct name, one value for each member in declaration order, the
    /// struct type.
    StructCreation(String, Vec<Expression>, Type),
    MemberAccess(Box<Expression>, String, Type),
    Empty,
    Multiply(Box<Expression>, Box<Expression>, Type),
    Add(Box<Expression>, Box<Expression>, Type),
    Subtract(Box<Expression>, Box<Expression>, Type),
}

/// The model of an [`Expression`].
pub enum ExpressionView {
    Variable(Seq<char>, TypeView),
    FunctionCall(Seq<char>, Seq<ExpressionView>, TypeView),
    FloatLiteral(DecimalView),
    StructCreation(Seq<char>, Seq<ExpressionView>, TypeView),
    MemberAccess(Box<ExpressionView>, Seq<char>, TypeView),
    Empty,
    Multiply(Box<ExpressionView>, Box<ExpressionView>, TypeView),
    Add(Box<ExpressionView>, Box<ExpressionView>, TypeView),
    Subtract(Box<ExpressionView>, Box<ExpressionView>, TypeView),
}

/// Whether HLSL writes the product of operands of these types as a call of
/// `mul`: one operand is a matrix and the other a matrix or a vector.
pub open spec fn is_matrix_product(left: TypeView, right: TypeView) -> bool {
    (left.is_float_matrix() && (right.is_float_matrix() || right.is_float_vector())) || (
    right.is_float_matrix() && (left.is_float_matrix() || left.is_float_vector()))
}

/// The name under which GLSL knows the built-in function `name`.
pub open spec fn glsl_function_name(name: Seq<char>) -> Seq<char> {
    if name == "float1"@ {
        "vec1"@
    } else if name == "float2"@ {
        "vec2"@
    } else if name == "float3"@ {
        "vec3"@
    } else if name == "float4"@ {
        "vec4"@
    } else if name == "sample_texture"@ {
        "texture"@
    } else {
        name
    }
}

impl ExpressionView {
    /// The type of the expression.
    pub open spec fn get_type(self) -> TypeView {
        match self {
            ExpressionView::Empty => TypeView::Primitive(Primitive::Void),
            ExpressionView::Variable(_, variable_type) => variable_type,
            ExpressionView::FunctionCall(_, _, return_type) => return_type,
            ExpressionView::StructCreation(_, _, struct_type) => struct_type,
            ExpressionView::FloatLiteral(_) => TypeView::Primitive(Primitive::Float),
            ExpressionView::MemberAccess(_, _, member_type) => member_type,
            ExpressionView::Multiply(_, _, product_type) => product_type,
            ExpressionView::Add(_, _, sum_type) => sum_type,
            ExpressionView::Subtract(_, _, sum_type) => sum_type,
        }
    }

    /// The expression in HLSL. A call of `sample_texture` becomes a call of
    /// the texture's `Sample` with the texture's sampler; a struct is
    /// created by its generated constructor; a product with a matrix is a
    /// call of `mul`.
    pub open spec fn hlsl(self) -> Seq<char>
        decreases self,
    {
        match self {
            ExpressionView::Empty => Seq::empty(),
            ExpressionView::Variable(name, _) => name,
            ExpressionView::FunctionCall(name, arguments, _) => {
                let written = hlsl_parts(arguments);
                if name == "sample_texture"@ && arguments.len() > 0 {
                    written[0] + ".Sample(acsl_"@ + written[0] + "_sampler_state, "@ + join(
                        written.skip(1),
                        ", "@,
                    ) + ")"@
                } else {
                    name + "("@ + join(written, ", "@) + ")"@
                }
            },
            ExpressionView::StructCreation(name, members, _) => {
                let written = hlsl_parts(members);
                "acsl_create_"@ + name + "("@ + join(written, ", "@) + ")"@
            },
            ExpressionView::FloatLiteral(value) => value.literal(),
            ExpressionView::MemberAccess(expression, member, _) => expression.hlsl() + "."@ + member,
            ExpressionView::Multiply(left, right, _) => if is_matrix_product(
                left.get_type(),
                right.get_type(),
            ) {
                "mul("@ + left.hlsl() + ", "@ + right.hlsl() + ")"@
            } else {
                "("@ + left.hlsl() + " * "@ + right.hlsl() + ")"@
            },
            ExpressionView::Add(left, right, _) => "("@ + left.hlsl() + " + "@ + right.hlsl() + ")"@,
            ExpressionView::Subtract(left, right, _) => "("@ + left.hlsl() + " - "@ + right.hlsl()
                + ")"@,
        }
    }

    /// The expression in GLSL. The vector constructors and `sample_texture`
    /// go by their GLSL names; a struct is created by the constructor that
    /// bears its name; every product is written with `*`.
    pub open spec fn glsl(self) -> Seq<char>
        decreases self,
    {
        match self {
            ExpressionView::Empty => Seq::empty(),
            ExpressionView::Variable(name, _) => name,
            ExpressionView::FunctionCall(name, arguments, _) => {
                let written = glsl_parts(arguments);
                glsl_function_name(name) + "("@ + join(written, ", "@) + ")"@
            },
            ExpressionView::StructCreation(name, members, _) => {
                let written = glsl_parts(members);
                name + "("@ + join(written, ", "@) + ")"@
            },
            ExpressionView::FloatLiteral(value) => value.literal(),
            ExpressionView::MemberAccess(expression, member, _) => expression.glsl() + "."@ + member,
            ExpressionView::Multiply(left, right, _) => "("@ + left.glsl() + " * "@ + right.glsl()
                + ")"@,
            ExpressionView::Add(left, right, _) => "("@ + left.glsl() + " + "@ + right.glsl() + ")"@,
            ExpressionView::Subtract(left, right, _) => "("@ + left.glsl() + " - "@ + right.glsl()
                + ")"@,
        }
    }
}

/// Each expression of a list in HLSL.
pub open spec fn hlsl_parts(expressions: Seq<ExpressionView>) -> Seq<Seq<char>>
    decreases expressions,
{
    Seq::new(
        expressions.len(),
        |i: int|
            if 0 <= i < expressions.len() {
                expressions[i].hlsl()
            } else {
                Seq::empty()
            },
    )
}

/// Each expression of a list in GLSL.
pub open spec fn glsl_parts(expressions: Seq<ExpressionView>) -> Seq<Seq<char>>
    decreases expressions,
{
    Seq::new(
        expressions.len(),
        |i: int|
            if 0 <= i < expressions.len() {
                expressions[i].glsl()
            } else {
                Seq::empty()
            },
    )
}

/// The models of the expressions of a list.
pub open spec fn models(expressions: &Vec<Expression>) -> Seq<ExpressionView>
    decreases expressions,
{
    Seq::new(
        expressions.len() as nat,
        |i: int|
            if 0 <= i < expressions.len() {
                expressions[i].model()
            } else {
                ExpressionView::Empty
            },
    )
}

impl Expression {
    /// The model of this expression.
    pub open spec fn model(&self) -> ExpressionView
        decreases self,
    {
        match self {
            Expression::Variable(name, variable_type) => ExpressionView::Variable(name@, variable_type@),
            Expression::FunctionCall(name, arguments, return_type) => ExpressionView::FunctionCall(
                name@,
                models(arguments),
                return_type@,
            ),
            Expression::FloatLiteral(value) => ExpressionView::FloatLiteral(value@),
            Expression::StructCreation(name, members, struct_type) => ExpressionView::StructCreation(
                name@,
                models(members),
                struct_type@,
            ),
            Expression::MemberAccess(expression, member, member_type) => ExpressionView::MemberAccess(
                Box::new(expression.model()),
                member@,
                member_type@,
            ),
            Expression::Empty => ExpressionView::Empty,
            Expression::Multiply(left, right, product_type) => ExpressionView::Multiply(
                Box::new(left.model()),
                Box::new(right.model()),
                product_type@,
            ),
            Expression::Add(left, right, sum_type) => ExpressionView::Add(
                Box::new(left.model()),
                Box::new(right.model()),
                sum_type@,
            ),
            Expression::Subtract(left, right, sum_type) => ExpressionView::Subtract(
                Box::new(left.model()),
                Box::new(right.model()),
                sum_type@,
            ),
        }
    }

    /// The type of the expression.
    pub fn get_type(&self) -> (t: Type)
        ensures
            t@ == self@.get_type(),
    {
        match self {
            Expression::Empty => Type::void(),
            Expression::Variable(_, variable_type) => variable_type.clone(),
            Expression::FunctionCall(_, _, return_type) => return_type.clone(),
            Expression::StructCreation(_, _, struct_type) => struct_type.clone(),
            Expression::FloatLiteral(_) => Type::float(),
            Expression::MemberAccess(_, _, member_type) => member_type.clone(),
            Expression::Multiply(_, _, product_type) => product_type.clone(),
            Expression::Add(_, _, sum_type) => sum_type.clone(),
            Expression::Subtract(_, _, sum_type) => sum_type.clone(),
        }
    }

    /// The expressions from position `from` on in HLSL, separated by commas.
    fn hlsl_list(expressions: &Vec<Expression>, from: usize) -> (text: String)
        requires
            from <= expressions.len(),
        ensures
            text@ == join(
                hlsl_parts(models(expressions)).skip(from as int),
                ", "@,
            ),
        decreases expressions, 0nat,
    {
        let ghost written = hlsl_parts(models(expressions)).skip(from as int);
        let mut text = String::new();
        let mut i: usize = from;
        assert(written.take(0) =~= Seq::<Seq<char>>::empty());
        while i < expressions.len()
            invariant
                from <= i <= expressions.len(),
                written.len() == expressions.len() - from,
                forall|k: int| 0 <= k < written.len() ==> written[k] == expressions[k + from].model().hlsl(),
                text@ == join(written.take(i - from), ", "@),
            decreases expressions.len() - i,
        {
            if i != from {
                text.append(", ");
            }
            let part = expressions[i].hlsl();
            text.append(part.as_str());
            proof {
                join_push(written.take(i - from), ", "@, written[i - from]);
                assert(written.take(i - from).push(written[i - from]) =~= written.take(i + 1 - from));
                assert(text@ =~= join(written.take(i + 1 - from), ", "@));
            }
            i += 1;
        }
        assert(written.take(expressions.len() - from) =~= written);
        text
    }

    /// The expressions in GLSL, separated by commas.
    fn glsl_list(expressions: &Vec<Expression>) -> (text: String)
        ensures
            text@ == join(
                glsl_parts(models(expressions)),
                ", "@,
            ),
        decreases expressions, 0nat,
    {
        let ghost written = glsl_parts(models(expressions));
        let mut text = String::new();
        let mut i: usize = 0;
        assert(written.take(0) =~= Seq::<Seq<char>>::empty());
        while i < expressions.len()
            invariant
                i <= expressions.len(),
                written.len() == expressions.len(),
                forall|k: int| 0 <= k < written.len() ==> written[k] == expressions[k].model().glsl(),
                text@ == join(written.take(i as int), ", "@),
            decreases expressions.len() - i,
        {
            if i != 0 {
                text.append(", ");
            }
            let part = expressions[i].glsl();
            text.append(part.as_str());
            proof {
                join_push(written.take(i as int), ", "@, written[i as int]);
                assert(written.take(i as int).push(written[i as int]) =~= written.take(i + 1));
                assert(text@ =~= join(written.take(i + 1), ", "@));
            }
            i += 1;
        }
        assert(written.take(expressions.len() as int) =~= written);
        text
    }

    /// The expression in HLSL.
    pub fn hlsl(&self) -> (text: String)
        ensures
            text@ == self@.hlsl(),
        decreases self, 1nat,
    {
        match self {
            Expression::Empty => String::new(),
            Expression::Variable(variable, _) => variable.clone(),
            Expression::FunctionCall(name, parameters, _) => {
                if str_eq(name.as_str(), "sample_texture") && parameters.len() > 0 {
                    let texture = parameters[0].hlsl();
                    let mut text = texture.clone();
                    text.append(".Sample(acsl_");
                    text.append(texture.as_str());
                    text.append("_sampler_state, ");
                    text.append(Expression::hlsl_list(parameters, 1).as_str());
                    text.append(")");
                    text
                } else {
                    let mut text = name.clone();
                    text.append("(");
                    text.append(Expression::hlsl_list(parameters, 0).as_str());
                    text.append(")");
                    assert(hlsl_parts(models(parameters)).skip(0) =~= hlsl_parts(models(parameters)));
                    text
                }
            },
            Expression::StructCreation(name, members, _) => {
                let mut text = "acsl_create_".to_owned();
                text.append(name.as_str());
                text.append("(");
                text.append(Expression::hlsl_list(members, 0).as_str());
                text.append(")");
                assert(hlsl_parts(models(members)).skip(0) =~= hlsl_parts(models(members)));
                text
            },
            Expression::FloatLiteral(value) => value.literal(),
            Expression::MemberAccess(expression, member_name, _) => {
                let mut text = expression.hlsl();
                text.append(".");
                text.append(member_name.as_str());
                text
            },
            Expression::Multiply(left_expression, right_expression, _) => {
                let left_type = left_expression.get_type();
                let right_type = right_expression.get_type();
                let left = left_expression.hlsl();
                let right = right_expression.hlsl();
                if (left_type.is_float_matrix() && (right_type.is_float_matrix()
                    || right_type.is_float_vector())) || (right_type.is_float_matrix() && (
                left_type.is_float_matrix() || left_type.is_float_vector())) {
                    let mut text = "mul(".to_owned();
                    text.append(left.as_str());
                    text.append(", ");
                    text.append(right.as_str());
                    text.append(")");
                    text
                } else {
                    let mut text = "(".to_owned();
                    text.append(left.as_str());
                    text.append(" * ");
                    text.append(right.as_str());
                    text.append(")");
                    text
                }
            },
            Expression::Add(left_expression, right_expression, _) => {
                let mut text = "(".to_owned();
                text.append(left_expression.hlsl().as_str());
                text.append(" + ");
                text.append(right_expression.hlsl().as_str());
                text.append(")");
                text
            },
            Expression::Subtract(left_expression, right_expression, _) => {
                let mut text = "(".to_owned();
                text.append(left_expression.hlsl().as_str());
                text.append(" - ");
                text.append(right_expression.hlsl().as_str());
                text.append(")");
                text
            },
        }
    }

    /// The expression in GLSL.
    pub fn glsl(&self) -> (text: String)
        ensures
            text@ == self@.glsl(),
        decreases self, 1nat,
    {
        match self {
            Expression::Empty => String::new(),
            Expression::Variable(variable, _) => variable.clone(),
            Expression::FunctionCall(name, parameters, _) => {
                let mut text = if str_eq(name.as_str(), "float1") {
                    "vec1".to_owned()
                } else if str_eq(name.as_str(), "float2") {
                    "vec2".to_owned()
                } else if str_eq(name.as_str(), "float3") {
                    "vec3".to_owned()
                } else if str_eq(name.as_str(), "float4") {
                    "vec4".to_owned()
                } else if str_eq(name.as_str(), "sample_texture") {
                    "texture".to_owned()
                } else {
                    name.clone()
                };
                text.append("(");
                text.append(Expression::glsl_list(parameters).as_str());
                text.append(")");
                text
            },
            Expression::StructCreation(name, members, _) => {
                let mut text = name.clone();
                text.append("(");
                text.append(Expression::glsl_list(members).as_str());
                text.append(")");
                text
            },
            Expression::FloatLiteral(value) => value.literal(),
            Expression::MemberAccess(expression, member_name, _) => {
                let mut text = expression.glsl();
                text.append(".");
                text.append(member_name.as_str());
                text
            },
            Expression::Multiply(left_expression, right_expression, _) => {
                let mut text = "(".to_owned();
                text.append(left_expression.glsl().as_str());
                text.append(" * ");
                text.append(right_expression.glsl().as_str());
                text.append(")");
                text
            },
            Expression::Add(left_expression, right_expression, _) => {
                let mut text = "(".to_owned();
                text.append(left_expression.glsl().as_str());
                text.append(" + ");
                text.append(right_expression.glsl().as_str());
                text.append(")");
                text
            },
            Expression::Subtract(left_expression, right_expression, _) => {
                let mut text = "(".to_owned();
                text.append(left_expression.glsl().as_str());
                text.append(" - ");
                text.append(right_expression.glsl().as_str());
                text.append(")");
                text
            },
        }
    }
}

impl DeepView for Expression {
    type V = ExpressionView;

    open spec fn deep_view(&self) -> ExpressionView {
        self.model()
    }
}

impl View for Expression {
    type V = ExpressionView;

    open spec fn view(&self) -> ExpressionView {
        self.model()
    }
}

/// The product of two expressions is written `mul(a, b)` in HLSL exactly
/// when one operand is a matrix and the other a matrix or a vector, and
/// `(a * b)` otherwise; GLSL always writes `(a * b)`.
pub proof fn matrix_product_choice(left: ExpressionView, right: ExpressionView, product: TypeView)
    ensures
        is_matrix_product(left.get_type(), right.get_type()) ==> ExpressionView::Multiply(
            Box::new(left),
            Box::new(right),
            product,
        ).hlsl() == "mul("@ + left.hlsl() + ", "@ + right.hlsl() + ")"@,
        !is_matrix_product(left.get_type(), right.get_type()) ==> ExpressionView::Multiply(
            Box::new(left),
            Box::new(right),
            product,
        ).hlsl() == "("@ + left.hlsl() + " * "@ + right.hlsl() + ")"@,
        ExpressionView::Multiply(Box::new(left), Box::new(right), product).glsl() == "("@
            + left.glsl() + " * "@ + right.glsl() + ")"@,
{
}

} // verus!
