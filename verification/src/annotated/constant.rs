//! Global constants of the annotated tree.

use crate::types::{Type, TypeView};
use super::expression::{Expression, ExpressionView};
use vstd::prelude::*;
use vstd::string::*;

verus! {

/// A global constant: its name, its value and the type of the value.
pub struct Constant {
    name: String,
    expression: Expression,
    constant_type: Type,
}

/// The model of a [`Constant`].
pub struct ConstantView {
    pub name: Seq<char>,
    pub expression: ExpressionView,
    pub constant_type: TypeView,
}

/// The test for a constant called `name`.
pub open spec fn constant_named(name: Seq<char>) -> spec_fn(ConstantView) -> bool {
    |c: ConstantView| c.name == name
}

impl ConstantView {
    /// The constant in HLSL.
    pub open spec fn hlsl(self) -> Seq<char> {
        "static const "@ + self.constant_type.hlsl() + " "@ + self.name + " = "@
            + self.expression.hlsl() + ";\n"@
    }

    /// The constant in GLSL.
    pub open spec fn glsl(self) -> Seq<char> {
        "const "@ + self.constant_type.glsl() + " "@ + self.name + " = "@ + self.expression.glsl()
            + ";\n"@
    }
}

impl Constant {
    /// The model of this constant.
    pub closed spec fn model(&self) -> ConstantView {
        ConstantView {
            name: self.name@,
            expression: self.expression@,
            constant_type: self.constant_type@,
        }
    }

    pub fn new(name: String, expression: Expression, constant_type: Type) -> (constant: Self)
        ensures
            constant@ == (ConstantView {
                name: name@,
                expression: expression@,
                constant_type: constant_type@,
            }),
    {
        Constant { name, expression, constant_type }
    }

    pub fn name(&self) -> (name: &str)
        ensures
            name@ == self@.name,
    {
        self.name.as_str()
    }

    pub fn get_type(&self) -> (constant_type: &Type)
        ensures
            constant_type@ == self@.constant_type,
    {
        &self.constant_type
    }

    /// The constant in HLSL.
    pub fn generate_hlsl(&self) -> (text: String)
        ensures
            text@ == self@.hlsl(),
    {
        let mut text = "static const ".to_owned();
        text.append(self.constant_type.hlsl().as_str());
        text.append(" ");
        text.append(self.name.as_str());
        text.append(" = ");
        text.append(self.expression.hlsl().as_str());
        text.append(";\n");
        text
    }

    /// The constant in GLSL.
    pub fn generate_glsl(&self) -> (text: String)
        ensures
            text@ == self@.glsl(),
    {
        let mut text = "const ".to_owned();
        text.append(self.constant_type.glsl().as_str());
        text.append(" ");
        text.append(self.name.as_str());
        text.append(" = ");
        text.append(self.expression.glsl().as_str());
        text.append(";\n");
        text
    }
}

impl DeepView for Constant {
    type V = ConstantView;

    open spec fn deep_view(&self) -> ConstantView {
        self.model()
    }
}

impl View for Constant {
    type V = ConstantView;

    open spec fn view(&self) -> ConstantView {
        self.model()
    }
}

} // verus!
